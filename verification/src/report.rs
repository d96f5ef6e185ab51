use vstd::prelude::*;

verus! {

/// Length in bytes of a keyboard input report on the wire.
pub const KEYBOARD_REPORT_LEN: usize = 8;

/// Pause, in milliseconds, that follows every transmitted report.
pub const REPORT_DELAY_MS: u32 = 7;

/// One thing the caller has to carry out, in the order given.
#[derive(Clone, Copy, Debug, PartialEq, Eq)]
pub enum Action {
    /// Send these bytes as a keyboard input report.
    Transmit([u8; 8]),
    /// Wait this many milliseconds.
    Delay(u32),
}

/// The keyboard input report: one modifier mask, one reserved byte and six
/// key slots, sent in that order.
#[derive(Clone, Copy, Debug, PartialEq, Eq)]
pub struct KeyReport {
    pub modifiers: u8,
    pub reserved: u8,
    pub keys: [u8; 6],
}

/// The report in which nothing is pressed.
pub open spec fn released() -> KeyReport {
    KeyReport { modifiers: 0, reserved: 0, keys: [0u8, 0u8, 0u8, 0u8, 0u8, 0u8] }
}

/// `report` with `code` written into the first key slot.
pub open spec fn pressed(report: KeyReport, code: u8) -> KeyReport {
    KeyReport {
        modifiers: report.modifiers,
        reserved: report.reserved,
        keys: [code, report.keys[1], report.keys[2], report.keys[3], report.keys[4], report.keys[5]],
    }
}

/// The bytes of `report` as they go on the wire.
pub open spec fn wire(report: KeyReport) -> [u8; 8] {
    [
        report.modifiers,
        report.reserved,
        report.keys[0],
        report.keys[1],
        report.keys[2],
        report.keys[3],
        report.keys[4],
        report.keys[5],
    ]
}

/// What sending `report` costs the caller: the transmission, then the pause
/// that has to follow it.
pub open spec fn sending(report: KeyReport) -> Seq<Action> {
    seq![Action::Transmit(wire(report)), Action::Delay(REPORT_DELAY_MS)]
}

/// One key stroke that starts from `report`: the report with `code` pressed,
/// then the released report.
pub open spec fn stroke(report: KeyReport, code: u8) -> Seq<Action> {
    sending(pressed(report, code)) + sending(released())
}

/// One key stroke that starts from the released report.
pub open spec fn tap(code: u8) -> Seq<Action> {
    stroke(released(), code)
}

/// The reports among `actions`, in the order in which they are sent.
pub open spec fn transmissions(actions: Seq<Action>) -> Seq<[u8; 8]>
    decreases actions.len(),
{
    if actions.len() == 0 {
        Seq::empty()
    } else {
        match actions.last() {
            Action::Transmit(bytes) => transmissions(actions.drop_last()).push(bytes),
            Action::Delay(_) => transmissions(actions.drop_last()),
        }
    }
}

impl KeyReport {
    /// The report in which nothing is pressed.
    pub fn new() -> (report: KeyReport)
        ensures
            report == released(),
    {
        KeyReport { modifiers: 0, reserved: 0, keys: [0, 0, 0, 0, 0, 0] }
    }

    /// Writes `code` into the first key slot and leaves the rest as it is.
    pub fn press(&mut self, code: u8)
        ensures
            *final(self) == pressed(*old(self), code),
    {
        self.keys[0] = code;
        assert(self.keys == pressed(*old(self), code).keys) by {
            assert(self.keys@ =~= pressed(*old(self), code).keys@);
        }
    }

    /// Clears every field.
    pub fn release(&mut self)
        ensures
            *final(self) == released(),
    {
        self.modifiers = 0;
        self.reserved = 0;
        self.keys = [0, 0, 0, 0, 0, 0];
    }

    /// The eight bytes that go on the wire.
    pub fn to_bytes(&self) -> (bytes: [u8; 8])
        ensures
            bytes == wire(*self),
    {
        [
            self.modifiers,
            self.reserved,
            self.keys[0],
            self.keys[1],
            self.keys[2],
            self.keys[3],
            self.keys[4],
            self.keys[5],
        ]
    }
}

/// A key stroke from the released report is four actions: a report whose
/// only non-zero byte can be the first key slot, which holds the code; the
/// pause; the all-zero report; the pause.
pub proof fn lemma_tap_on_the_wire(code: u8)
    ensures
        tap(code).len() == 4,
        tap(code)[0] matches Action::Transmit(bytes) && bytes@ == seq![
            0u8,
            0u8,
            code,
            0u8,
            0u8,
            0u8,
            0u8,
            0u8,
        ],
        tap(code)[1] == Action::Delay(REPORT_DELAY_MS),
        tap(code)[2] matches Action::Transmit(bytes) && bytes@ == seq![
            0u8,
            0u8,
            0u8,
            0u8,
            0u8,
            0u8,
            0u8,
            0u8,
        ],
        tap(code)[3] == Action::Delay(REPORT_DELAY_MS),
{
}

/// The reports of two runs of actions are those of the first, then those of
/// the second.
pub proof fn lemma_transmissions_concat(first: Seq<Action>, second: Seq<Action>)
    ensures
        transmissions(first + second) == transmissions(first) + transmissions(second),
    decreases second.len(),
{
    if second.len() == 0 {
        assert(first + second =~= first);
        assert(transmissions(first) + transmissions(second) =~= transmissions(first));
    } else {
        let both = first + second;
        assert(both.drop_last() =~= first + second.drop_last());
        assert(both.last() == second.last());
        lemma_transmissions_concat(first, second.drop_last());
        match second.last() {
            Action::Transmit(bytes) => {
                assert(transmissions(first + second) =~= transmissions(first) + transmissions(
                    second,
                ));
            },
            Action::Delay(_) => {},
        }
    }
}

/// Sending one report transmits exactly that report.
pub proof fn lemma_sending_transmits_once(report: KeyReport)
    ensures
        transmissions(sending(report)) == seq![wire(report)],
{
    let actions = sending(report);
    let head = actions.drop_last();
    assert(head.drop_last() =~= Seq::<Action>::empty());
    assert(transmissions(head.drop_last()) =~= Seq::<[u8; 8]>::empty());
    assert(head.last() == Action::Transmit(wire(report)));
    assert(transmissions(head) =~= seq![wire(report)]);
    assert(actions.last() == Action::Delay(REPORT_DELAY_MS));
}

/// A key stroke transmits exactly two reports: the pressed one, then the
/// released one.
pub proof fn lemma_stroke_transmits_twice(report: KeyReport, code: u8)
    ensures
        transmissions(stroke(report, code)) == seq![wire(pressed(report, code)), wire(released())],
{
    lemma_transmissions_concat(sending(pressed(report, code)), sending(released()));
    lemma_sending_transmits_once(pressed(report, code));
    lemma_sending_transmits_once(released());
    assert(seq![wire(pressed(report, code))] + seq![wire(released())] =~= seq![
        wire(pressed(report, code)),
        wire(released()),
    ]);
}

} // verus!
