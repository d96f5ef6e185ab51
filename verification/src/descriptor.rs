use crate::report::KEYBOARD_REPORT_LEN;
use vstd::prelude::*;

verus! {

/// Report identifier of the keyboard channel.
pub const KEYBOARD_ID: u8 = 0x01;

/// Report identifier of the media key channel.
pub const MEDIA_KEYS_ID: u8 = 0x02;

/// Length in bytes of the keyboard output report, which carries the LEDs.
pub const KEYBOARD_OUTPUT_REPORT_LEN: usize = 1;

/// Length in bytes of the media key input report, one bit for each key.
pub const MEDIA_KEYS_REPORT_LEN: usize = 2;

/// Tag of the main item Input.
pub const INPUT: u8 = 0x80;

/// Tag of the main item Output.
pub const OUTPUT: u8 = 0x90;

/// Tag of the main item Collection.
pub const COLLECTION: u8 = 0xa0;

/// Tag of the main item End Collection.
pub const END_COLLECTION: u8 = 0xc0;

/// Tag of the global item Usage Page.
pub const USAGE_PAGE: u8 = 0x04;

/// Tag of the global item Logical Minimum.
pub const LOGICAL_MINIMUM: u8 = 0x14;

/// Tag of the global item Logical Maximum.
pub const LOGICAL_MAXIMUM: u8 = 0x24;

/// Tag of the global item Report Size, in bits.
pub const REPORT_SIZE: u8 = 0x74;

/// Tag of the global item Report ID.
pub const REPORT_ID: u8 = 0x84;

/// Tag of the global item Report Count.
pub const REPORT_COUNT: u8 = 0x94;

/// Tag of the local item Usage.
pub const USAGE: u8 = 0x08;

/// Tag of the local item Usage Minimum.
pub const USAGE_MINIMUM: u8 = 0x18;

/// Tag of the local item Usage Maximum.
pub const USAGE_MAXIMUM: u8 = 0x28;

/// A report channel of the device.
#[derive(Clone, Copy, Debug, PartialEq, Eq, Structural)]
pub enum HidChannel {
    Keyboard,
    MediaKeys,
}

impl HidChannel {
    /// The report identifier that the report map gives the channel.
    pub fn report_id(&self) -> (id: u8)
        ensures
            id == match *self {
                HidChannel::Keyboard => KEYBOARD_ID,
                HidChannel::MediaKeys => MEDIA_KEYS_ID,
            },
    {
        match self {
            HidChannel::Keyboard => KEYBOARD_ID,
            HidChannel::MediaKeys => MEDIA_KEYS_ID,
        }
    }

    /// Length in bytes of the channel's input report.
    pub fn input_report_len(&self) -> (len: usize)
        ensures
            len == match *self {
                HidChannel::Keyboard => KEYBOARD_REPORT_LEN,
                HidChannel::MediaKeys => MEDIA_KEYS_REPORT_LEN,
            },
    {
        match self {
            HidChannel::Keyboard => KEYBOARD_REPORT_LEN,
            HidChannel::MediaKeys => MEDIA_KEYS_REPORT_LEN,
        }
    }

    /// Whether the host can write an output report on the channel. Only the
    /// keyboard has one.
    pub fn has_output_report(&self) -> (has: bool)
        ensures
            has == (*self == HidChannel::Keyboard),
    {
        match self {
            HidChannel::Keyboard => true,
            HidChannel::MediaKeys => false,
        }
    }
}

/// Encoding of one short item: a prefix made of the tag and the number of
/// data bytes, then the data.
pub open spec fn short_item(tag: u8, data: Seq<u8>) -> Seq<u8> {
    seq![(tag + data.len()) as u8] + data
}

/// The keyboard application collection, byte for byte.
pub open spec fn keyboard_collection_bytes(report_id: u8) -> Seq<u8> {
    seq![
        0x05u8, 0x01u8, 0x09u8, 0x06u8, 0xa1u8, 0x01u8, 0x85u8, report_id,
        0x05u8, 0x07u8, 0x19u8, 0xe0u8, 0x29u8, 0xe7u8, 0x15u8, 0x00u8,
        0x25u8, 0x01u8, 0x75u8, 0x01u8, 0x95u8, 0x08u8, 0x81u8, 0x02u8,
        0x95u8, 0x01u8, 0x75u8, 0x08u8, 0x81u8, 0x01u8, 0x95u8, 0x05u8,
        0x75u8, 0x01u8, 0x05u8, 0x08u8, 0x19u8, 0x01u8, 0x29u8, 0x05u8,
        0x91u8, 0x02u8, 0x95u8, 0x01u8, 0x75u8, 0x03u8, 0x91u8, 0x01u8,
        0x95u8, 0x06u8, 0x75u8, 0x08u8, 0x15u8, 0x00u8, 0x25u8, 0x65u8,
        0x05u8, 0x07u8, 0x19u8, 0x00u8, 0x29u8, 0x65u8, 0x81u8, 0x00u8,
        0xc0u8,
    ]
}

/// The media key application collection, byte for byte.
pub open spec fn media_keys_collection_bytes(report_id: u8) -> Seq<u8> {
    seq![
        0x05u8, 0x0cu8, 0x09u8, 0x01u8, 0xa1u8, 0x01u8, 0x85u8, report_id,
        0x05u8, 0x0cu8, 0x15u8, 0x00u8, 0x25u8, 0x01u8, 0x75u8, 0x01u8,
        0x95u8, 0x10u8, 0x09u8, 0xb5u8, 0x09u8, 0xb6u8, 0x09u8, 0xb7u8,
        0x09u8, 0xcdu8, 0x09u8, 0xe2u8, 0x09u8, 0xe9u8, 0x09u8, 0xeau8,
        0x0au8, 0x23u8, 0x02u8, 0x0au8, 0x94u8, 0x01u8, 0x0au8, 0x92u8,
        0x01u8, 0x0au8, 0x2au8, 0x02u8, 0x0au8, 0x21u8, 0x02u8, 0x0au8,
        0x26u8, 0x02u8, 0x0au8, 0x24u8, 0x02u8, 0x0au8, 0x83u8, 0x01u8,
        0x0au8, 0x8au8, 0x01u8, 0x81u8, 0x02u8, 0xc0u8,
    ]
}

/// The report map of the device, byte for byte: the keyboard collection
/// under [`KEYBOARD_ID`], then the media key collection under
/// [`MEDIA_KEYS_ID`].
pub open spec fn report_map() -> Seq<u8> {
    keyboard_collection_bytes(KEYBOARD_ID) + media_keys_collection_bytes(MEDIA_KEYS_ID)
}

fn put0(map: &mut Vec<u8>, tag: u8)
    requires
        tag % 4 == 0,
    ensures
        final(map)@ == old(map)@ + short_item(tag, seq![]),
{
    map.push(tag);
    assert(map@ =~= old(map)@ + short_item(tag, seq![]));
}

fn put1(map: &mut Vec<u8>, tag: u8, data: u8)
    requires
        tag % 4 == 0,
    ensures
        final(map)@ == old(map)@ + short_item(tag, seq![data]),
{
    assert(tag | 1 == tag + 1) by (bit_vector)
        requires
            tag % 4 == 0,
    ;
    map.push(tag | 1);
    map.push(data);
    assert(map@ =~= old(map)@ + short_item(tag, seq![data]));
}

fn put2(map: &mut Vec<u8>, tag: u8, low: u8, high: u8)
    requires
        tag % 4 == 0,
    ensures
        final(map)@ == old(map)@ + short_item(tag, seq![low, high]),
{
    assert(tag | 2 == tag + 2) by (bit_vector)
        requires
            tag % 4 == 0,
    ;
    map.push(tag | 2);
    map.push(low);
    map.push(high);
    assert(map@ =~= old(map)@ + short_item(tag, seq![low, high]));
}

/// Builds the keyboard application collection: eight modifier bits, one
/// reserved byte, five LED bits with three bits of padding as output, and six
/// key slots.
pub fn keyboard_collection(report_id: u8) -> (map: Vec<u8>)
    ensures
        map@ == keyboard_collection_bytes(report_id),
{
    let mut map: Vec<u8> = Vec::new();
    put1(&mut map, USAGE_PAGE, 0x01);
    put1(&mut map, USAGE, 0x06);
    put1(&mut map, COLLECTION, 0x01);
    put1(&mut map, REPORT_ID, report_id);
    put1(&mut map, USAGE_PAGE, 0x07);
    put1(&mut map, USAGE_MINIMUM, 0xe0);
    put1(&mut map, USAGE_MAXIMUM, 0xe7);
    put1(&mut map, LOGICAL_MINIMUM, 0x00);
    put1(&mut map, LOGICAL_MAXIMUM, 0x01);
    put1(&mut map, REPORT_SIZE, 0x01);
    put1(&mut map, REPORT_COUNT, 0x08);
    put1(&mut map, INPUT, 0x02);
    put1(&mut map, REPORT_COUNT, 0x01);
    put1(&mut map, REPORT_SIZE, 0x08);
    put1(&mut map, INPUT, 0x01);
    put1(&mut map, REPORT_COUNT, 0x05);
    put1(&mut map, REPORT_SIZE, 0x01);
    put1(&mut map, USAGE_PAGE, 0x08);
    put1(&mut map, USAGE_MINIMUM, 0x01);
    put1(&mut map, USAGE_MAXIMUM, 0x05);
    put1(&mut map, OUTPUT, 0x02);
    put1(&mut map, REPORT_COUNT, 0x01);
    put1(&mut map, REPORT_SIZE, 0x03);
    put1(&mut map, OUTPUT, 0x01);
    put1(&mut map, REPORT_COUNT, 0x06);
    put1(&mut map, REPORT_SIZE, 0x08);
    put1(&mut map, LOGICAL_MINIMUM, 0x00);
    put1(&mut map, LOGICAL_MAXIMUM, 0x65);
    put1(&mut map, USAGE_PAGE, 0x07);
    put1(&mut map, USAGE_MINIMUM, 0x00);
    put1(&mut map, USAGE_MAXIMUM, 0x65);
    put1(&mut map, INPUT, 0x00);
    put0(&mut map, END_COLLECTION);
    assert(map@ =~= keyboard_collection_bytes(report_id));
    map
}

/// Builds the media key application collection: sixteen one-bit inputs, one
/// for each consumer control usage, in the order of the bits.
pub fn media_keys_collection(report_id: u8) -> (map: Vec<u8>)
    ensures
        map@ == media_keys_collection_bytes(report_id),
{
    let mut map: Vec<u8> = Vec::new();
    put1(&mut map, USAGE_PAGE, 0x0c);
    put1(&mut map, USAGE, 0x01);
    put1(&mut map, COLLECTION, 0x01);
    put1(&mut map, REPORT_ID, report_id);
    put1(&mut map, USAGE_PAGE, 0x0c);
    put1(&mut map, LOGICAL_MINIMUM, 0x00);
    put1(&mut map, LOGICAL_MAXIMUM, 0x01);
    put1(&mut map, REPORT_SIZE, 0x01);
    put1(&mut map, REPORT_COUNT, 0x10);
    put1(&mut map, USAGE, 0xb5);  // bit 0: Scan Next Track
    put1(&mut map, USAGE, 0xb6);  // bit 1: Scan Previous Track
    put1(&mut map, USAGE, 0xb7);  // bit 2: Stop
    put1(&mut map, USAGE, 0xcd);  // bit 3: Play/Pause
    put1(&mut map, USAGE, 0xe2);  // bit 4: Mute
    put1(&mut map, USAGE, 0xe9);  // bit 5: Volume Increment
    put1(&mut map, USAGE, 0xea);  // bit 6: Volume Decrement
    put2(&mut map, USAGE, 0x23, 0x02);  // bit 7: WWW Home
    put2(&mut map, USAGE, 0x94, 0x01);  // bit 8: My Computer
    put2(&mut map, USAGE, 0x92, 0x01);  // bit 9: Calculator
    put2(&mut map, USAGE, 0x2a, 0x02);  // bit 10: WWW Favourites
    put2(&mut map, USAGE, 0x21, 0x02);  // bit 11: WWW Search
    put2(&mut map, USAGE, 0x26, 0x02);  // bit 12: WWW Stop
    put2(&mut map, USAGE, 0x24, 0x02);  // bit 13: WWW Back
    put2(&mut map, USAGE, 0x83, 0x01);  // bit 14: Media Select
    put2(&mut map, USAGE, 0x8a, 0x01);  // bit 15: Mail
    put1(&mut map, INPUT, 0x02);
    put0(&mut map, END_COLLECTION);
    assert(map@ =~= media_keys_collection_bytes(report_id));
    map
}

/// Builds the report map that the device hands to the host.
pub fn report_descriptor() -> (map: Vec<u8>)
    ensures
        map@ == report_map(),
{
    let mut map = keyboard_collection(KEYBOARD_ID);
    let mut media = media_keys_collection(MEDIA_KEYS_ID);
    map.append(&mut media);
    map
}

} // verus!
