use crate::report::{
    lemma_stroke_transmits_twice, lemma_transmissions_concat, pressed, released, sending, stroke,
    tap, transmissions, wire, Action, KeyReport, REPORT_DELAY_MS,
};
use vstd::prelude::*;

verus! {

/// Usage code of the Enter key.
pub const KEY_ENTER: u8 = 0x28;

/// Usage code of the Escape key.
pub const KEY_ESCAPE: u8 = 0x29;

/// Usage code of the Tab key.
pub const KEY_TAB: u8 = 0x2b;

/// Usage code of the Left Arrow key.
pub const KEY_LEFT_ARROW: u8 = 0x50;

/// Highest usage code that the report map admits in a key slot.
pub const KEY_CODE_MAX: u8 = 0x65;

/// Flag that marks a shifted character in a key code table.
pub const SHIFT: u8 = 0x80;

/// The inputs of the dial, one bit each.
#[derive(Clone, Copy, Debug, PartialEq, Eq, Structural)]
pub enum RotaryInputKeys {
    Forward,
    Back,
    Select,
}

impl RotaryInputKeys {
    /// The bit that stands for this input.
    pub fn as_byte(&self) -> (byte: u8)
        ensures
            byte == match *self {
                RotaryInputKeys::Forward => 0x01u8,
                RotaryInputKeys::Back => 0x02u8,
                RotaryInputKeys::Select => 0x04u8,
            },
    {
        match self {
            RotaryInputKeys::Forward => 0x01,
            RotaryInputKeys::Back => 0x02,
            RotaryInputKeys::Select => 0x04,
        }
    }
}

/// What a [`Keyboard`] is, for the contracts.
pub struct KeyboardView {
    /// The report buffer.
    pub report: KeyReport,
    /// Links the transport last reported as active.
    pub links: nat,
    /// Actions queued for the caller, oldest first.
    pub outbox: Seq<Action>,
}

impl KeyboardView {
    /// Whether a host is connected.
    pub open spec fn connected(self) -> bool {
        self.links > 0
    }

    /// Whether the report buffer holds the released report.
    pub open spec fn at_rest(self) -> bool {
        self.report == released()
    }

    /// The keyboard after one key stroke of `code`.
    pub open spec fn send_char(self, code: u8) -> KeyboardView {
        KeyboardView {
            report: released(),
            links: self.links,
            outbox: self.outbox + stroke(self.report, code),
        }
    }

    /// The keyboard after Enter was tapped.
    pub open spec fn press_enter(self) -> KeyboardView {
        self.send_char(KEY_ENTER)
    }

    /// The keyboard after Escape was tapped.
    pub open spec fn press_escape(self) -> KeyboardView {
        self.send_char(KEY_ESCAPE)
    }

    /// The keyboard after a step forward was sent.
    pub open spec fn press_arrow_forward(self) -> KeyboardView {
        self.send_char(KEY_TAB)
    }

    /// The keyboard after a step back was sent.
    pub open spec fn press_arrow_back(self) -> KeyboardView {
        self.send_char(KEY_LEFT_ARROW)
    }
}

/// Encoder of key strokes into keyboard input reports.
///
/// The keyboard sends nothing itself. Every stroke is queued as the actions
/// it consists of; the caller takes them with [`Keyboard::take_actions`] and
/// carries them out in order. The caller also tells the keyboard how many
/// links the transport has, with [`Keyboard::set_connected_count`].
#[derive(Clone, Debug, PartialEq, Eq)]
pub struct Keyboard {
    key_report: KeyReport,
    links: usize,
    outbox: Vec<Action>,
}

impl View for Keyboard {
    type V = KeyboardView;

    closed spec fn view(&self) -> KeyboardView {
        KeyboardView { report: self.key_report, links: self.links as nat, outbox: self.outbox@ }
    }
}

impl Keyboard {
    /// A keyboard at rest, with no link and nothing queued.
    pub fn new() -> (keyboard: Keyboard)
        ensures
            keyboard@ == (KeyboardView { report: released(), links: 0, outbox: Seq::empty() }),
    {
        Keyboard { key_report: KeyReport::new(), links: 0, outbox: Vec::new() }
    }

    /// Records the number of active links that the transport reports.
    pub fn set_connected_count(&mut self, links: usize)
        ensures
            final(self)@ == (KeyboardView { links: links as nat, ..old(self)@ }),
    {
        self.links = links;
    }

    /// Whether at least one link is active.
    pub fn connected(&self) -> (connected: bool)
        ensures
            connected == self@.connected(),
    {
        self.links > 0
    }

    /// Number of actions that wait for the caller.
    pub fn pending(&self) -> (n: usize)
        ensures
            n == self@.outbox.len(),
    {
        self.outbox.len()
    }

    /// Hands the queued actions to the caller, oldest first, and empties the
    /// queue.
    pub fn take_actions(&mut self) -> (actions: Vec<Action>)
        ensures
            actions@ == old(self)@.outbox,
            final(self)@ == (KeyboardView { outbox: Seq::empty(), ..old(self)@ }),
    {
        let mut actions: Vec<Action> = Vec::new();
        core::mem::swap(&mut self.outbox, &mut actions);
        actions
    }

    /// One key stroke: `code` goes into the first key slot and the report is
    /// queued, then every field is cleared and the report is queued again.
    /// Each report is followed by a pause of [`REPORT_DELAY_MS`].
    pub fn send_char(&mut self, char: u8)
        ensures
            final(self)@ == old(self)@.send_char(char),
    {
        self.press_scan_code(char);
        self.release();
        assert(self@.outbox =~= old(self)@.send_char(char).outbox);
    }

    fn press_scan_code(&mut self, char: u8)
        ensures
            final(self)@ == (KeyboardView {
                report: pressed(old(self)@.report, char),
                outbox: old(self)@.outbox + sending(
                    pressed(old(self)@.report, char),
                ),
                ..old(self)@
            }),
    {
        self.key_report.press(char);
        self.send_report();
    }

    fn release(&mut self)
        ensures
            final(self)@ == (KeyboardView {
                report: released(),
                outbox: old(self)@.outbox + sending(released()),
                ..old(self)@
            }),
    {
        self.key_report.release();
        self.send_report();
    }

    fn send_report(&mut self)
        ensures
            final(self)@ == (KeyboardView {
                outbox: old(self)@.outbox + sending(old(self)@.report),
                ..old(self)@
            }),
    {
        self.outbox.push(Action::Transmit(self.key_report.to_bytes()));
        self.outbox.push(Action::Delay(REPORT_DELAY_MS));
        assert(self.outbox@ =~= old(self).outbox@ + sending(old(self)@.report));
    }

    /// Taps Enter.
    pub fn press_enter(&mut self)
        ensures
            final(self)@ == old(self)@.press_enter(),
    {
        self.send_char(KEY_ENTER);
    }

    /// Sends a step back: a tap of Left Arrow.
    pub fn press_arrow_back(&mut self)
        ensures
            final(self)@ == old(self)@.press_arrow_back(),
    {
        self.send_char(KEY_LEFT_ARROW);
    }

    /// Sends a step forward: a tap of Tab.
    pub fn press_arrow_forward(&mut self)
        ensures
            final(self)@ == old(self)@.press_arrow_forward(),
    {
        self.send_char(KEY_TAB);
    }

    /// Taps Escape.
    pub fn press_escape(&mut self)
        ensures
            final(self)@ == old(self)@.press_escape(),
    {
        self.send_char(KEY_ESCAPE);
    }
}

/// A key stroke on a keyboard at rest queues exactly one tap of the code and
/// leaves the keyboard at rest. The tap transmits two reports: the first
/// holds the code in the first key slot and zero everywhere else, the second
/// is all zero.
pub proof fn lemma_send_char_round_trip(before: KeyboardView, code: u8)
    requires
        before.at_rest(),
    ensures
        before.send_char(code).outbox == before.outbox + tap(code),
        before.send_char(code).at_rest(),
        before.send_char(code).links == before.links,
        transmissions(tap(code)).len() == 2,
        transmissions(tap(code))[0]@ == seq![0u8, 0u8, code, 0u8, 0u8, 0u8, 0u8, 0u8],
        transmissions(tap(code))[1]@ == seq![0u8, 0u8, 0u8, 0u8, 0u8, 0u8, 0u8, 0u8],
{
    lemma_stroke_transmits_twice(released(), code);
}

/// The code that each named key sends.
pub open spec fn named_codes() -> Seq<u8> {
    seq![KEY_ENTER, KEY_ESCAPE, KEY_TAB, KEY_LEFT_ARROW]
}

/// Each named key is exactly one tap of its own code when the keyboard is at
/// rest, and leaves the keyboard at rest. The four codes differ from each
/// other, none is zero, and each lies in the range that the report map
/// admits in a key slot.
pub proof fn lemma_named_keys(before: KeyboardView)
    requires
        before.at_rest(),
    ensures
        before.press_enter().outbox == before.outbox + tap(KEY_ENTER),
        before.press_escape().outbox == before.outbox + tap(KEY_ESCAPE),
        before.press_arrow_forward().outbox == before.outbox + tap(KEY_TAB),
        before.press_arrow_back().outbox == before.outbox + tap(KEY_LEFT_ARROW),
        before.press_enter().at_rest(),
        before.press_escape().at_rest(),
        before.press_arrow_forward().at_rest(),
        before.press_arrow_back().at_rest(),
        named_codes().no_duplicates(),
        forall|i: int| 0 <= i < named_codes().len() ==> 0 < #[trigger] named_codes()[i] <= KEY_CODE_MAX,
{
}

/// Whatever the report buffer held before, a key stroke leaves the keyboard
/// at rest and ends with the all-zero report.
pub proof fn lemma_send_char_restores_rest(before: KeyboardView, code: u8)
    ensures
        before.send_char(code).at_rest(),
        transmissions(stroke(before.report, code)).len() == 2,
        transmissions(stroke(before.report, code))[1] == wire(released()),
{
    lemma_stroke_transmits_twice(before.report, code);
}

/// Two strokes of the same code in a row are two full cycles: press,
/// release, press, release. Nothing is merged.
pub proof fn lemma_send_char_twice(before: KeyboardView, code: u8)
    requires
        before.at_rest(),
    ensures
        before.send_char(code).send_char(code).outbox == before.outbox + tap(code) + tap(code),
        transmissions(tap(code) + tap(code)) == seq![
            wire(pressed(released(), code)),
            wire(released()),
            wire(pressed(released(), code)),
            wire(released()),
        ],
        before.send_char(code).send_char(code).at_rest(),
{
    lemma_stroke_transmits_twice(released(), code);
    lemma_transmissions_concat(tap(code), tap(code));
    assert(transmissions(tap(code)) + transmissions(tap(code)) =~= seq![
        wire(pressed(released(), code)),
        wire(released()),
        wire(pressed(released(), code)),
        wire(released()),
    ]);
}

} // verus!
