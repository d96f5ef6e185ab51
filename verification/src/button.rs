use crate::level::Level;
use vstd::prelude::*;

verus! {

/// Number of hold ticks from which a press counts as long.
pub const LONG_PRESS_THRESHOLD: u32 = 20;

/// Pause, in milliseconds, between two samples of a held button.
pub const HOLD_TICK_MS: u32 = 1;

/// The two gestures a press can be classified as.
#[derive(Clone, Copy, Debug, PartialEq, Eq, Structural)]
pub enum ButtonPressType {
    Normal,
    Long,
}

/// What one sample of the button line led to.
#[derive(Clone, Copy, Debug, PartialEq, Eq, Structural)]
pub enum ButtonPoll {
    /// The line is high and no press was in progress: there is no gesture.
    Released,
    /// A press is in progress. The caller pauses for the given number of
    /// milliseconds and then samples the line again.
    Holding(u32),
    /// The line went high after a press, which is classified.
    Pressed(ButtonPressType),
}

/// Gesture for a press that was held for `ticks` ticks.
pub open spec fn classify(ticks: nat) -> ButtonPressType {
    if ticks < LONG_PRESS_THRESHOLD {
        ButtonPressType::Normal
    } else {
        ButtonPressType::Long
    }
}

/// Hold state after one more sample: `None` is idle, `Some(n)` is a press
/// that has lasted `n` ticks. The count stops growing at `u32::MAX`.
pub open spec fn hold_after(hold: Option<nat>, level: Level) -> Option<nat> {
    match (hold, level) {
        (_, Level::High) => None,
        (None, Level::Low) => Some(0),
        (Some(n), Level::Low) => Some(if n < u32::MAX { n + 1 } else { n }),
    }
}

/// Outcome of one sample taken in hold state `hold`.
pub open spec fn poll_outcome(hold: Option<nat>, level: Level) -> ButtonPoll {
    match (hold, level) {
        (None, Level::High) => ButtonPoll::Released,
        (None, Level::Low) => ButtonPoll::Holding(0),
        (Some(_), Level::Low) => ButtonPoll::Holding(HOLD_TICK_MS),
        (Some(n), Level::High) => ButtonPoll::Pressed(classify(n)),
    }
}

/// Hold state reached from `hold` by `ticks` further low samples.
pub open spec fn hold_after_lows(hold: Option<nat>, ticks: nat) -> Option<nat>
    decreases ticks,
{
    if ticks == 0 {
        hold
    } else {
        hold_after(hold_after_lows(hold, (ticks - 1) as nat), Level::Low)
    }
}

/// Press classifier for one low-active push button.
///
/// The classifier owns no pin. Each call of [`Button::is_pressed`] takes one
/// sample of the line; while a press lasts the caller keeps sampling, so the
/// press occupies the caller until the line is released.
#[derive(Clone, Copy, Debug, PartialEq, Eq)]
pub struct Button {
    hold: Option<u32>,
}

impl View for Button {
    type V = Option<nat>;

    closed spec fn view(&self) -> Option<nat> {
        match self.hold {
            None => None,
            Some(n) => Some(n as nat),
        }
    }
}

impl Button {
    /// A button with no press in progress.
    pub fn new() -> (button: Button)
        ensures
            button@ == None::<nat>,
    {
        Button { hold: None }
    }

    /// Whether a press is in progress.
    pub fn is_held(&self) -> (held: bool)
        ensures
            held == self@.is_some(),
    {
        self.hold.is_some()
    }

    /// Ticks counted so far in the press in progress, if there is one.
    pub fn held_ticks(&self) -> (ticks: Option<u32>)
        ensures
            ticks.is_some() == self@.is_some(),
            ticks matches Some(n) ==> self@ == Some(n as nat),
    {
        self.hold
    }

    /// Takes one sample of the line.
    ///
    /// Idle and high gives `Released`. Idle and low starts a press with a
    /// count of zero and asks for the next sample at once. Each further low
    /// sample adds one tick and asks for the next sample one tick later. The
    /// first high sample ends the press: fewer than
    /// [`LONG_PRESS_THRESHOLD`] ticks is `Normal`, anything else `Long`.
    pub fn is_pressed(&mut self, level: Level) -> (poll: ButtonPoll)
        ensures
            final(self)@ == hold_after(old(self)@, level),
            poll == poll_outcome(old(self)@, level),
    {
        match (self.hold, level) {
            (None, Level::High) => ButtonPoll::Released,
            (None, Level::Low) => {
                self.hold = Some(0);
                ButtonPoll::Holding(0)
            },
            (Some(ticks), Level::Low) => {
                self.hold = Some(ticks.saturating_add(1));
                ButtonPoll::Holding(HOLD_TICK_MS)
            },
            (Some(ticks), Level::High) => {
                self.hold = None;
                if ticks < LONG_PRESS_THRESHOLD {
                    ButtonPoll::Pressed(ButtonPressType::Normal)
                } else {
                    ButtonPoll::Pressed(ButtonPressType::Long)
                }
            },
        }
    }
}

/// A press that starts from idle and is held for `ticks` ticks is counted
/// exactly, up to `u32::MAX`, where the count stays.
pub proof fn lemma_hold_counts_ticks(ticks: nat)
    ensures
        hold_after_lows(hold_after(None, Level::Low), ticks) == Some(
            if ticks <= u32::MAX {
                ticks
            } else {
                u32::MAX as nat
            },
        ),
    decreases ticks,
{
    if ticks > 0 {
        lemma_hold_counts_ticks((ticks - 1) as nat);
    }
}

/// A press held for `ticks` ticks and then released is `Normal` exactly when
/// `ticks` is below the threshold, however long it lasted, and leaves the
/// button idle.
pub proof fn lemma_press_classified_by_duration(ticks: nat)
    ensures
        ({
            let held = hold_after_lows(hold_after(None, Level::Low), ticks);
            &&& poll_outcome(held, Level::High) == ButtonPoll::Pressed(classify(ticks))
            &&& hold_after(held, Level::High) == None::<nat>
            &&& (classify(ticks) == ButtonPressType::Normal) == (ticks < LONG_PRESS_THRESHOLD)
        }),
{
    lemma_hold_counts_ticks(ticks);
}

/// While the line stays low the button stays held and asks for the next
/// sample one tick later; it never reports a gesture before the release.
pub proof fn lemma_held_until_release(hold: Option<nat>, ticks: nat)
    ensures
        hold_after_lows(hold_after(hold, Level::Low), ticks).is_some(),
        poll_outcome(hold_after_lows(hold_after(hold, Level::Low), ticks), Level::Low)
            == ButtonPoll::Holding(HOLD_TICK_MS),
    decreases ticks,
{
    if ticks > 0 {
        lemma_held_until_release(hold, (ticks - 1) as nat);
    }
}

} // verus!
