use crate::button::{hold_after, poll_outcome, ButtonPoll, ButtonPressType};
use crate::keyboard::{Keyboard, KeyboardView, KEY_ENTER, KEY_ESCAPE, KEY_LEFT_ARROW, KEY_TAB};
use crate::level::Level;
use crate::report::tap;
use crate::rotary_encoder::{decode, keyed, Direction, RotaryEncoder, RotaryView};
use vstd::prelude::*;

verus! {

/// Pause, in milliseconds, at the end of a tick that polled the inputs.
pub const TICK_MS: u32 = 1;

/// Pause, in milliseconds, after a tick that found no host connected.
pub const DISCONNECTED_WAIT_MS: u32 = 100;

/// One sample of the three input lines.
#[derive(Clone, Copy, Debug, PartialEq, Eq, Structural)]
pub struct Inputs {
    pub button: Level,
    pub clock: Level,
    pub data: Level,
}

/// What one tick came to.
#[derive(Clone, Copy, Debug, PartialEq, Eq, Structural)]
pub struct Tick {
    /// Pause, in milliseconds, before the next tick.
    pub pause: u32,
    /// The press that ended in this tick, if one did.
    pub gesture: Option<ButtonPressType>,
    /// The step of the dial that this tick saw, if it saw one.
    pub step: Option<Direction>,
}

/// The gesture in a button outcome, if it holds one.
pub open spec fn gesture_of(outcome: ButtonPoll) -> Option<ButtonPressType> {
    match outcome {
        ButtonPoll::Pressed(gesture) => Some(gesture),
        _ => None,
    }
}

/// The keyboard after the key for a gesture was sent: Enter for a normal
/// press, Escape for a long one, nothing without a gesture.
pub open spec fn gestured(keyboard: KeyboardView, gesture: Option<ButtonPressType>) -> KeyboardView {
    match gesture {
        Some(ButtonPressType::Normal) => keyboard.press_enter(),
        Some(ButtonPressType::Long) => keyboard.press_escape(),
        None => keyboard,
    }
}

/// Whether a tick is skipped: no host is connected and no press is in
/// progress. A press that began while a host was connected runs to its end.
pub open spec fn skipped(encoder: RotaryView, keyboard: KeyboardView) -> bool {
    !keyboard.connected() && encoder.button.is_none()
}

/// One tick of the translation loop: the encoder and the keyboard after it,
/// and what the tick came to.
pub open spec fn tick_model(encoder: RotaryView, keyboard: KeyboardView, inputs: Inputs) -> (
    RotaryView,
    KeyboardView,
    Tick,
) {
    if skipped(encoder, keyboard) {
        (encoder, keyboard, Tick { pause: DISCONNECTED_WAIT_MS, gesture: None, step: None })
    } else {
        let outcome = poll_outcome(encoder.button, inputs.button);
        let sampled = RotaryView { button: hold_after(encoder.button, inputs.button), ..encoder };
        match outcome {
            ButtonPoll::Holding(pause) => (
                sampled,
                keyboard,
                Tick { pause, gesture: None, step: None },
            ),
            _ => {
                let step = decode(encoder.previous_clock, inputs.clock, inputs.data);
                (
                    sampled.poll(inputs.clock, inputs.data),
                    keyed(gestured(keyboard, gesture_of(outcome)), step),
                    Tick { pause: TICK_MS, gesture: gesture_of(outcome), step },
                )
            },
        }
    }
}

/// Whether the next tick will be skipped, so that the caller need not sample
/// the lines for it.
pub fn skips(rotary_encoder: &RotaryEncoder, keyboard: &Keyboard) -> (skip: bool)
    ensures
        skip == skipped(rotary_encoder@, keyboard@),
{
    !keyboard.connected() && !rotary_encoder.button().is_held()
}

/// Runs one tick of the translation loop on one sample of the inputs.
///
/// With no host connected and no press in progress nothing is polled and
/// nothing is queued; the pause is [`DISCONNECTED_WAIT_MS`]. Otherwise the
/// button is sampled. While it is held the tick ends there, and the encoder
/// lines are not looked at. When the button is idle or was just released, the
/// gesture, if any, is sent as Enter or Escape, then the encoder lines are
/// decoded and a step is sent as a step forward or back; the pause is
/// [`TICK_MS`]. What was queued waits in the keyboard for the caller.
pub fn tick(rotary_encoder: &mut RotaryEncoder, keyboard: &mut Keyboard, inputs: Inputs) -> (done:
    Tick)
    ensures
        (final(rotary_encoder)@, final(keyboard)@, done) == tick_model(
            old(rotary_encoder)@,
            old(keyboard)@,
            inputs,
        ),
        skipped(old(rotary_encoder)@, old(keyboard)@) ==> {
            &&& *final(rotary_encoder) == *old(rotary_encoder)
            &&& *final(keyboard) == *old(keyboard)
            &&& done == (Tick { pause: DISCONNECTED_WAIT_MS, gesture: None, step: None })
        },
{
    if skips(rotary_encoder, keyboard) {
        return Tick { pause: DISCONNECTED_WAIT_MS, gesture: None, step: None };
    }
    let gesture = match rotary_encoder.poll_button(inputs.button) {
        ButtonPoll::Holding(pause) => {
            return Tick { pause, gesture: None, step: None };
        },
        ButtonPoll::Pressed(gesture) => Some(gesture),
        ButtonPoll::Released => None,
    };
    match gesture {
        Some(ButtonPressType::Normal) => keyboard.press_enter(),
        Some(ButtonPressType::Long) => keyboard.press_escape(),
        None => {},
    }
    let step = rotary_encoder.handle_rotary_action(inputs.clock, inputs.data, keyboard);
    Tick { pause: TICK_MS, gesture, step }
}

/// While no host is connected and no press is in progress, a tick changes
/// neither the encoder nor the keyboard, whatever the inputs are: nothing is
/// decoded, nothing is counted and nothing is queued.
pub proof fn lemma_disconnected_tick_changes_nothing(
    encoder: RotaryView,
    keyboard: KeyboardView,
    inputs: Inputs,
)
    requires
        !keyboard.connected(),
        encoder.button.is_none(),
    ensures
        tick_model(encoder, keyboard, inputs) == (
            encoder,
            keyboard,
            Tick { pause: DISCONNECTED_WAIT_MS, gesture: None, step: None },
        ),
{
}

/// While the button is held, a tick leaves the rotation state and the
/// keyboard alone, whatever the encoder lines show.
pub proof fn lemma_held_button_blocks_rotation(
    encoder: RotaryView,
    keyboard: KeyboardView,
    inputs: Inputs,
)
    requires
        !skipped(encoder, keyboard),
        inputs.button == Level::Low,
    ensures
        tick_model(encoder, keyboard, inputs).0.position == encoder.position,
        tick_model(encoder, keyboard, inputs).0.previous_clock == encoder.previous_clock,
        tick_model(encoder, keyboard, inputs).0.button.is_some(),
        tick_model(encoder, keyboard, inputs).1 == keyboard,
        tick_model(encoder, keyboard, inputs).2.gesture.is_none(),
        tick_model(encoder, keyboard, inputs).2.step.is_none(),
{
}

/// With the keyboard at rest, a tick that is not skipped and does not find
/// the button held queues one tap for the press that ended, if one did, and
/// then one tap for the step, if there was one: Enter or Escape, then Tab or
/// Left Arrow. Nothing else is queued.
pub proof fn lemma_tick_taps(encoder: RotaryView, keyboard: KeyboardView, inputs: Inputs)
    requires
        keyboard.at_rest(),
        !skipped(encoder, keyboard),
        inputs.button == Level::High,
    ensures
        ({
            let (_, after, done) = tick_model(encoder, keyboard, inputs);
            let first = match done.gesture {
                Some(ButtonPressType::Normal) => tap(KEY_ENTER),
                Some(ButtonPressType::Long) => tap(KEY_ESCAPE),
                None => Seq::empty(),
            };
            let second = match done.step {
                Some(Direction::Forward) => tap(KEY_TAB),
                Some(Direction::Backward) => tap(KEY_LEFT_ARROW),
                None => Seq::empty(),
            };
            &&& after.outbox == keyboard.outbox + first + second
            &&& after.at_rest()
            &&& done.pause == TICK_MS
            &&& done.step == decode(encoder.previous_clock, inputs.clock, inputs.data)
            &&& done.gesture == gesture_of(poll_outcome(encoder.button, Level::High))
        }),
{
}

} // verus!
