use crate::button::{hold_after, poll_outcome, Button, ButtonPoll};
use crate::keyboard::{Keyboard, KeyboardView, KEY_LEFT_ARROW, KEY_TAB};
use crate::level::Level;
use crate::report::{
    lemma_stroke_transmits_twice, lemma_transmissions_concat, released, tap, transmissions, Action,
};
use vstd::prelude::*;

verus! {

/// Direction of one step of the dial.
#[derive(Clone, Copy, Debug, PartialEq, Eq, Structural)]
pub enum Direction {
    Forward,
    Backward,
}

/// Whether the clock line fell between two samples: high before, low now.
pub open spec fn fell(previous_clock: Level, clock: Level) -> bool {
    previous_clock == Level::High && clock == Level::Low
}

/// The step, if any, that a sample shows: a step is a clock line that fell
/// since the previous sample, and the data line at that moment gives its
/// direction.
pub open spec fn decode(previous_clock: Level, clock: Level, data: Level) -> Option<Direction> {
    if fell(previous_clock, clock) {
        if data == Level::High {
            Some(Direction::Forward)
        } else {
            Some(Direction::Backward)
        }
    } else {
        None
    }
}

/// The position after one step, which wraps around at the ends of `i32`.
pub open spec fn moved(position: int, direction: Direction) -> int {
    match direction {
        Direction::Forward => if position == i32::MAX {
            i32::MIN as int
        } else {
            position + 1
        },
        Direction::Backward => if position == i32::MIN {
            i32::MAX as int
        } else {
            position - 1
        },
    }
}

/// The keyboard after the key for `step` was sent, or unchanged without one.
pub open spec fn keyed(keyboard: KeyboardView, step: Option<Direction>) -> KeyboardView {
    match step {
        Some(Direction::Forward) => keyboard.press_arrow_forward(),
        Some(Direction::Backward) => keyboard.press_arrow_back(),
        None => keyboard,
    }
}

/// What a [`RotaryEncoder`] is, for the contracts.
pub struct RotaryView {
    /// Hold state of the push button: see [`Button`].
    pub button: Option<nat>,
    /// Net number of steps since the encoder was made, forward counted up.
    pub position: int,
    /// Clock level at the previous sample.
    pub previous_clock: Level,
}

impl RotaryView {
    /// The encoder after a sample of its two lines.
    pub open spec fn poll(self, clock: Level, data: Level) -> RotaryView {
        RotaryView {
            button: self.button,
            position: match decode(self.previous_clock, clock, data) {
                Some(direction) => moved(self.position, direction),
                None => self.position,
            },
            previous_clock: clock,
        }
    }

    /// The encoder after the samples of `script`, each a clock level and a
    /// data level, taken in order.
    pub open spec fn run(self, script: Seq<(Level, Level)>) -> RotaryView
        decreases script.len(),
    {
        if script.len() == 0 {
            self
        } else {
            self.run(script.drop_last()).poll(script.last().0, script.last().1)
        }
    }

    /// The keyboard after the key for each step of `script` was sent, sample
    /// by sample.
    pub open spec fn keys(self, keyboard: KeyboardView, script: Seq<(Level, Level)>) -> KeyboardView
        decreases script.len(),
    {
        if script.len() == 0 {
            keyboard
        } else {
            let before = self.run(script.drop_last());
            keyed(
                self.keys(keyboard, script.drop_last()),
                decode(before.previous_clock, script.last().0, script.last().1),
            )
        }
    }

    /// What the samples of `script` decode to, one entry for each sample.
    pub open spec fn steps(self, script: Seq<(Level, Level)>) -> Seq<Option<Direction>>
        decreases script.len(),
    {
        if script.len() == 0 {
            Seq::empty()
        } else {
            let before = self.run(script.drop_last());
            self.steps(script.drop_last()).push(
                decode(before.previous_clock, script.last().0, script.last().1),
            )
        }
    }
}

/// The clock level that sample `i` of `script` is compared with: the one
/// before it, or `start` for the first.
pub open spec fn clock_before(start: Level, script: Seq<(Level, Level)>, i: int) -> Level {
    if i == 0 {
        start
    } else {
        script[i - 1].0
    }
}

/// What sample `i` of `script` shows, told from the script alone.
pub open spec fn step_at(start: Level, script: Seq<(Level, Level)>, i: int) -> Option<Direction> {
    decode(clock_before(start, script, i), script[i].0, script[i].1)
}

/// Number of samples of `script` at which the clock fell while the data line
/// was at `data`.
pub open spec fn edges(start: Level, script: Seq<(Level, Level)>, data: Level) -> nat
    decreases script.len(),
{
    if script.len() == 0 {
        0
    } else {
        let last = script.len() - 1;
        let here: nat = if fell(clock_before(start, script, last), script[last].0)
            && script[last].1 == data {
            1
        } else {
            0
        };
        edges(start, script.drop_last(), data) + here
    }
}

/// Number of steps in `direction` among `steps`.
pub open spec fn count(steps: Seq<Option<Direction>>, direction: Direction) -> nat
    decreases steps.len(),
{
    if steps.len() == 0 {
        0
    } else {
        let here: nat = if steps.last() == Some(direction) {
            1
        } else {
            0
        };
        count(steps.drop_last(), direction) + here
    }
}

/// The code of the key that stands for a step.
pub open spec fn step_code(direction: Direction) -> u8 {
    match direction {
        Direction::Forward => KEY_TAB,
        Direction::Backward => KEY_LEFT_ARROW,
    }
}

/// One tap for each step among `steps`, in their order.
pub open spec fn step_taps(steps: Seq<Option<Direction>>) -> Seq<Action>
    decreases steps.len(),
{
    if steps.len() == 0 {
        Seq::empty()
    } else {
        step_taps(steps.drop_last()) + match steps.last() {
            Some(direction) => tap(step_code(direction)),
            None => Seq::empty(),
        }
    }
}

/// Decoder for a two-line quadrature encoder with a push button.
///
/// The decoder owns no pin. Each call takes the levels that the caller
/// sampled from the clock line and the data line.
#[derive(Clone, Copy, Debug, PartialEq, Eq)]
pub struct RotaryEncoder {
    button: Button,
    counter: i32,
    prev_clk_state: Level,
}

impl View for RotaryEncoder {
    type V = RotaryView;

    closed spec fn view(&self) -> RotaryView {
        RotaryView {
            button: self.button@,
            position: self.counter as int,
            previous_clock: self.prev_clk_state,
        }
    }
}

impl RotaryEncoder {
    /// An encoder at position zero with an idle button. `clk_state` is the
    /// clock level at this moment, which the first sample is compared with.
    pub fn new(clk_state: Level) -> (encoder: RotaryEncoder)
        ensures
            encoder@ == (RotaryView { button: None, position: 0, previous_clock: clk_state }),
    {
        RotaryEncoder { button: Button::new(), counter: 0, prev_clk_state: clk_state }
    }

    /// The push button of the encoder.
    pub fn button(&self) -> (button: &Button)
        ensures
            button@ == self@.button,
    {
        &self.button
    }

    /// Takes one sample of the button line: see [`Button::is_pressed`]. The
    /// rotation state is not touched.
    pub fn poll_button(&mut self, level: Level) -> (poll: ButtonPoll)
        ensures
            poll == poll_outcome(old(self)@.button, level),
            final(self)@ == (RotaryView {
                button: hold_after(old(self)@.button, level),
                ..old(self)@
            }),
    {
        self.button.is_pressed(level)
    }

    /// Net number of steps so far.
    pub fn position(&self) -> (position: i32)
        ensures
            position == self@.position,
    {
        self.counter
    }

    /// Clock level at the previous sample.
    pub fn previous_clock(&self) -> (level: Level)
        ensures
            level == self@.previous_clock,
    {
        self.prev_clk_state
    }

    /// Takes one sample of the two lines and reports the step it shows.
    ///
    /// There is a step exactly when the clock was high at the previous sample
    /// and is low now; `data` high makes it `Forward`, low `Backward`. The
    /// clock level is recorded for the next sample whether or not there was a
    /// step.
    pub fn poll(&mut self, clock: Level, data: Level) -> (step: Option<Direction>)
        ensures
            step == decode(old(self)@.previous_clock, clock, data),
            final(self)@ == old(self)@.poll(clock, data),
    {
        let mut step: Option<Direction> = None;
        if clock.is_low() && self.prev_clk_state.is_high() {
            if data.is_high() {
                self.counter = self.counter.wrapping_add(1);
                step = Some(Direction::Forward);
            } else {
                self.counter = self.counter.wrapping_sub(1);
                step = Some(Direction::Backward);
            }
        }
        self.prev_clk_state = clock;
        step
    }

    /// Takes one sample of the two lines, sends the key for the step it
    /// shows, a step forward or a step back, and reports the step.
    pub fn handle_rotary_action(&mut self, clock: Level, data: Level, keyboard: &mut Keyboard) -> (step:
        Option<Direction>)
        ensures
            step == decode(old(self)@.previous_clock, clock, data),
            final(self)@ == old(self)@.poll(clock, data),
            final(keyboard)@ == keyed(old(keyboard)@, step),
    {
        let step = self.poll(clock, data);
        match step {
            Some(Direction::Forward) => keyboard.press_arrow_forward(),
            Some(Direction::Backward) => keyboard.press_arrow_back(),
            None => {},
        }
        step
    }

    /// Runs [`RotaryEncoder::handle_rotary_action`] on each sample of
    /// `script`, a clock level and a data level, in order, and returns what
    /// each sample showed.
    pub fn handle_rotary_script(&mut self, script: &[(Level, Level)], keyboard: &mut Keyboard) -> (steps:
        Vec<Option<Direction>>)
        ensures
            steps@ == old(self)@.steps(script@),
            final(self)@ == old(self)@.run(script@),
            final(keyboard)@ == old(self)@.keys(old(keyboard)@, script@),
    {
        let mut steps: Vec<Option<Direction>> = Vec::new();
        let mut i: usize = 0;
        while i < script.len()
            invariant
                i <= script.len(),
                steps@ == old(self)@.steps(script@.take(i as int)),
                self@ == old(self)@.run(script@.take(i as int)),
                keyboard@ == old(self)@.keys(old(keyboard)@, script@.take(i as int)),
            decreases script.len() - i,
        {
            let (clock, data) = script[i];
            let step = self.handle_rotary_action(clock, data, keyboard);
            steps.push(step);
            proof {
                let done = script@.take(i + 1);
                assert(done.drop_last() =~= script@.take(i as int));
                assert(done.last() == script@[i as int]);
            }
            i += 1;
        }
        assert(script@.take(i as int) =~= script@);
        steps
    }
}

/// A sample shows a step exactly when the clock fell, and the data level of
/// that sample alone decides the direction: high is forward, low backward.
pub proof fn lemma_step_is_falling_edge(previous_clock: Level, clock: Level, data: Level)
    ensures
        decode(previous_clock, clock, data).is_some() == fell(previous_clock, clock),
        (decode(previous_clock, clock, data) == Some(Direction::Forward)) == (fell(
            previous_clock,
            clock,
        ) && data == Level::High),
        (decode(previous_clock, clock, data) == Some(Direction::Backward)) == (fell(
            previous_clock,
            clock,
        ) && data == Level::Low),
{
}

/// Over a script of samples the decoder reports one entry for each sample,
/// and entry `i` is what the clock before sample `i` and sample `i` itself
/// show: nothing that came earlier matters. Afterwards the decoder remembers
/// the last clock level, and the button is as it was.
pub proof fn lemma_steps_follow_falling_edges(encoder: RotaryView, script: Seq<(Level, Level)>)
    ensures
        encoder.steps(script).len() == script.len(),
        forall|i: int|
            0 <= i < script.len() ==> #[trigger] encoder.steps(script)[i] == step_at(
                encoder.previous_clock,
                script,
                i,
            ),
        encoder.run(script).previous_clock == clock_before(
            encoder.previous_clock,
            script,
            script.len() as int,
        ),
        encoder.run(script).button == encoder.button,
    decreases script.len(),
{
    if script.len() > 0 {
        let head = script.drop_last();
        lemma_steps_follow_falling_edges(encoder, head);
        assert forall|i: int| 0 <= i < script.len() implies #[trigger] encoder.steps(script)[i]
            == step_at(encoder.previous_clock, script, i) by {
            if i < head.len() {
                assert(encoder.steps(script)[i] == encoder.steps(head)[i]);
                assert(step_at(encoder.previous_clock, head, i) == step_at(
                    encoder.previous_clock,
                    script,
                    i,
                ));
            }
        }
    }
}

/// Over a script of samples there are as many steps forward as samples at
/// which the clock fell with the data line high, and as many steps back as
/// samples at which it fell with the data line low.
pub proof fn lemma_steps_count_falling_edges(encoder: RotaryView, script: Seq<(Level, Level)>)
    ensures
        count(encoder.steps(script), Direction::Forward) == edges(
            encoder.previous_clock,
            script,
            Level::High,
        ),
        count(encoder.steps(script), Direction::Backward) == edges(
            encoder.previous_clock,
            script,
            Level::Low,
        ),
    decreases script.len(),
{
    if script.len() > 0 {
        let head = script.drop_last();
        let last = script.len() - 1;
        lemma_steps_count_falling_edges(encoder, head);
        lemma_steps_follow_falling_edges(encoder, head);
        assert(encoder.steps(script).drop_last() =~= encoder.steps(head));
        assert(encoder.run(head).previous_clock == clock_before(
            encoder.previous_clock,
            script,
            last,
        ));
    }
}

/// A keyboard at rest that is handed the steps of a script queues one tap for
/// each step and nothing else, in the order of the samples: Tab for a step
/// forward, Left Arrow for a step back. It transmits two reports for each
/// step and is at rest afterwards.
pub proof fn lemma_one_tap_for_each_step(
    encoder: RotaryView,
    keyboard: KeyboardView,
    script: Seq<(Level, Level)>,
)
    requires
        keyboard.at_rest(),
    ensures
        encoder.keys(keyboard, script).outbox == keyboard.outbox + step_taps(
            encoder.steps(script),
        ),
        encoder.keys(keyboard, script).at_rest(),
        encoder.keys(keyboard, script).links == keyboard.links,
        transmissions(step_taps(encoder.steps(script))).len() == 2 * (count(
            encoder.steps(script),
            Direction::Forward,
        ) + count(encoder.steps(script), Direction::Backward)),
    decreases script.len(),
{
    let steps = encoder.steps(script);
    if script.len() == 0 {
        assert(keyboard.outbox + step_taps(steps) =~= keyboard.outbox);
    } else {
        let head = script.drop_last();
        lemma_one_tap_for_each_step(encoder, keyboard, head);
        assert(steps.drop_last() =~= encoder.steps(head));
        match steps.last() {
            Some(direction) => {
                let code = step_code(direction);
                assert(encoder.keys(keyboard, script).outbox =~= keyboard.outbox + step_taps(
                    steps,
                ));
                lemma_transmissions_concat(step_taps(encoder.steps(head)), tap(code));
                lemma_stroke_transmits_twice(released(), code);
            },
            None => {
                assert(step_taps(steps) =~= step_taps(encoder.steps(head)));
            },
        }
    }
}

} // verus!
