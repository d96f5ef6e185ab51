use dial_controller::descriptor::{
    keyboard_collection, media_keys_collection, report_descriptor, HidChannel, KEYBOARD_ID,
    KEYBOARD_OUTPUT_REPORT_LEN, MEDIA_KEYS_ID, MEDIA_KEYS_REPORT_LEN,
};

const KEYBOARD_COLLECTION: [u8; 65] = [
        0x05, 0x01, 0x09, 0x06, 0xa1, 0x01, 0x85, 0x01,
        0x05, 0x07, 0x19, 0xe0, 0x29, 0xe7, 0x15, 0x00,
        0x25, 0x01, 0x75, 0x01, 0x95, 0x08, 0x81, 0x02,
        0x95, 0x01, 0x75, 0x08, 0x81, 0x01, 0x95, 0x05,
        0x75, 0x01, 0x05, 0x08, 0x19, 0x01, 0x29, 0x05,
        0x91, 0x02, 0x95, 0x01, 0x75, 0x03, 0x91, 0x01,
        0x95, 0x06, 0x75, 0x08, 0x15, 0x00, 0x25, 0x65,
        0x05, 0x07, 0x19, 0x00, 0x29, 0x65, 0x81, 0x00,
        0xc0,
];

const MEDIA_KEYS_COLLECTION: [u8; 62] = [
        0x05, 0x0c, 0x09, 0x01, 0xa1, 0x01, 0x85, 0x02,
        0x05, 0x0c, 0x15, 0x00, 0x25, 0x01, 0x75, 0x01,
        0x95, 0x10, 0x09, 0xb5, 0x09, 0xb6, 0x09, 0xb7,
        0x09, 0xcd, 0x09, 0xe2, 0x09, 0xe9, 0x09, 0xea,
        0x0a, 0x23, 0x02, 0x0a, 0x94, 0x01, 0x0a, 0x92,
        0x01, 0x0a, 0x2a, 0x02, 0x0a, 0x21, 0x02, 0x0a,
        0x26, 0x02, 0x0a, 0x24, 0x02, 0x0a, 0x83, 0x01,
        0x0a, 0x8a, 0x01, 0x81, 0x02, 0xc0,
];

#[test]
fn keyboard_collection_is_bit_exact() {
    assert_eq!(keyboard_collection(KEYBOARD_ID), KEYBOARD_COLLECTION.to_vec());
}

#[test]
fn media_keys_collection_is_bit_exact() {
    assert_eq!(media_keys_collection(MEDIA_KEYS_ID), MEDIA_KEYS_COLLECTION.to_vec());
}

#[test]
fn report_descriptor_is_keyboard_then_media_keys() {
    let mut expected = KEYBOARD_COLLECTION.to_vec();
    expected.extend_from_slice(&MEDIA_KEYS_COLLECTION);
    let map = report_descriptor();
    assert_eq!(map.len(), 127);
    assert_eq!(map, expected);
}

#[test]
fn report_id_follows_the_report_id_item() {
    let keyboard = keyboard_collection(0x07);
    assert_eq!(&keyboard[6..8], &[0x85, 0x07]);
    let media = media_keys_collection(0x09);
    assert_eq!(&media[6..8], &[0x85, 0x09]);
}

#[test]
fn two_byte_usages_carry_a_prefix_of_two() {
    let media = media_keys_collection(MEDIA_KEYS_ID);
    // WWW Home is the first usage that needs two bytes.
    assert_eq!(&media[32..35], &[0x0a, 0x23, 0x02]);
    // Mail is the last one.
    assert_eq!(&media[56..59], &[0x0a, 0x8a, 0x01]);
}

#[test]
fn collections_end_with_end_collection() {
    assert_eq!(keyboard_collection(KEYBOARD_ID).last(), Some(&0xc0));
    assert_eq!(media_keys_collection(MEDIA_KEYS_ID).last(), Some(&0xc0));
}

#[test]
fn channels_have_their_identifiers_and_lengths() {
    assert_eq!(KEYBOARD_ID, 1);
    assert_eq!(MEDIA_KEYS_ID, 2);
    assert_eq!(HidChannel::Keyboard.report_id(), 1);
    assert_eq!(HidChannel::MediaKeys.report_id(), 2);
    assert_eq!(HidChannel::Keyboard.input_report_len(), 8);
    assert_eq!(HidChannel::MediaKeys.input_report_len(), 2);
    assert_eq!(MEDIA_KEYS_REPORT_LEN, 2);
    assert_eq!(KEYBOARD_OUTPUT_REPORT_LEN, 1);
    assert!(HidChannel::Keyboard.has_output_report());
    assert!(!HidChannel::MediaKeys.has_output_report());
}
