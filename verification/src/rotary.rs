//! Rotary knob with push button: from sampled line levels to discrete events.
//!
//! A knob has two quadrature lines and a button line. Each time a line
//! changes, the levels of all three are sampled and handed to the knob,
//! which reports an event or nothing. Bounce shows up as phase transitions
//! that no rotation can produce; those report nothing.

use vstd::prelude::*;

verus! {

/// What a knob reports.
///
/// The position carried by `CW` and `CCW` is the position after the click.
#[derive(Clone, Copy, Debug, PartialEq, Eq, Structural)]
pub enum RotaryEvent {
    CW(u8),
    CCW(u8),
    Down,
    Up,
}

/// Outcome of one quadrature decode.
#[derive(Clone, Copy, Debug, PartialEq, Eq, Structural)]
pub enum Direction {
    Clockwise,
    CounterClockwise,
    /// No click: a partial or invalid phase transition.
    Still,
}

/// The two-bit phase of the quadrature lines: bit 0 is set while line A is
/// low, bit 1 while line B is low.
pub open spec fn phase_of(a_low: bool, b_low: bool) -> u8 {
    ((if a_low {
        1int
    } else {
        0int
    }) + (if b_low {
        2int
    } else {
        0int
    })) as u8
}

/// The step from phase `before` to phase `after` as one number: the old
/// phase in the bits 0 and 1, the new one in the bits 2 and 3.
pub open spec fn phase_step(before: u8, after: u8) -> u8 {
    (before + 4 * after) as u8
}

/// The direction that a phase step stands for. Of the sixteen steps, four
/// belong to a clockwise turn and four to a counter-clockwise turn; the
/// others are no movement or cannot come from a rotation.
pub open spec fn step_direction(step: u8) -> Direction {
    if step == 0b0001 || step == 0b0111 || step == 0b1000 || step == 0b1110 {
        Direction::Clockwise
    } else if step == 0b0010 || step == 0b0100 || step == 0b1011 || step == 0b1101 {
        Direction::CounterClockwise
    } else {
        Direction::Still
    }
}

/// The position one click clockwise of `pos` on a knob whose last position is `n`.
pub open spec fn clockwise_of(pos: u8, n: u8) -> u8 {
    if pos == n {
        0
    } else {
        (pos + 1) as u8
    }
}

/// The position one click counter-clockwise of `pos` on a knob whose last position is `n`.
pub open spec fn counter_clockwise_of(pos: u8, n: u8) -> u8 {
    if pos == 0 {
        n
    } else {
        (pos - 1) as u8
    }
}

/// A click leaves the position within `0..=n`, whichever way it goes: past
/// `n` it wraps to zero, below zero to `n`.
pub proof fn lemma_click_stays_in_range(pos: u8, n: u8)
    requires
        pos <= n,
    ensures
        clockwise_of(pos, n) <= n,
        counter_clockwise_of(pos, n) <= n,
        clockwise_of(n, n) == 0,
        counter_clockwise_of(0, n) == n,
{
}

/// A click one way and a click back lead to where the knob was.
pub proof fn lemma_clicks_undo_each_other(pos: u8, n: u8)
    requires
        pos <= n,
    ensures
        counter_clockwise_of(clockwise_of(pos, n), n) == pos,
        clockwise_of(counter_clockwise_of(pos, n), n) == pos,
{
}

/// What a knob remembers between samples.
pub struct KnobState {
    /// The position, `0..=N`.
    pub pos: u8,
    /// Whether the button was last reported as pressed.
    pub down: bool,
    /// The phase of the quadrature lines at the last decode.
    pub phase: u8,
}

impl KnobState {
    /// The state after a sample of the button line and the event it gives.
    pub open spec fn pressed(self, low: Option<bool>) -> (KnobState, Option<RotaryEvent>) {
        match low {
            Some(level) if level != self.down => (
                KnobState { down: level, ..self },
                Some(
                    if level {
                        RotaryEvent::Down
                    } else {
                        RotaryEvent::Up
                    },
                ),
            ),
            _ => (self, None),
        }
    }

    /// The state after a decode of the quadrature lines and its outcome.
    pub open spec fn decoded(self, a_low: bool, b_low: bool) -> (KnobState, Direction) {
        (
            KnobState { phase: phase_of(a_low, b_low), ..self },
            step_direction(phase_step(self.phase, phase_of(a_low, b_low))),
        )
    }

    /// The state after a click in `direction` on a knob whose last position
    /// is `n`, and the event it gives.
    pub open spec fn turned(self, direction: Direction, n: u8) -> (KnobState, Option<RotaryEvent>) {
        match direction {
            Direction::Clockwise => (
                KnobState { pos: clockwise_of(self.pos, n), ..self },
                Some(RotaryEvent::CW(clockwise_of(self.pos, n))),
            ),
            Direction::CounterClockwise => (
                KnobState { pos: counter_clockwise_of(self.pos, n), ..self },
                Some(RotaryEvent::CCW(counter_clockwise_of(self.pos, n))),
            ),
            Direction::Still => (self, None),
        }
    }

    /// The state after one sample of all three lines and the event it
    /// gives. A line that could not be read is `None`.
    ///
    /// The button comes first: if it gives an event, the quadrature lines
    /// are left for the next sample. They are decoded only if both were read.
    pub open spec fn sampled(
        self,
        a_low: Option<bool>,
        b_low: Option<bool>,
        button_low: Option<bool>,
        n: u8,
    ) -> (KnobState, Option<RotaryEvent>) {
        if self.pressed(button_low).1 is Some {
            self.pressed(button_low)
        } else {
            match (a_low, b_low) {
                (Some(a), Some(b)) => self.decoded(a, b).0.turned(self.decoded(a, b).1, n),
                _ => (self, None),
            }
        }
    }
}

/// Decodes one phase step with `rotary_encoder_hal`'s default decoder,
/// `DefaultPhase::direction`. The contract states the decoder's table as
/// the crate documents it: the steps 1, 7, 8 and 14 are clockwise, the
/// steps 2, 4, 11 and 13 counter-clockwise, every other value is no click.
#[verifier::external_body]
fn decode_step(step: u8) -> (direction: Direction)
    ensures
        direction == step_direction(step),
{
    match rotary_encoder_hal::Phase::direction(&mut rotary_encoder_hal::DefaultPhase, step) {
        rotary_encoder_hal::Direction::Clockwise => Direction::Clockwise,
        rotary_encoder_hal::Direction::CounterClockwise => Direction::CounterClockwise,
        rotary_encoder_hal::Direction::None => Direction::Still,
    }
}

/// A knob with `N + 1` positions, `0..=N`, and a push button.
pub struct RotaryButton<const N: u8> {
    pos: u8,
    button_down: bool,
    phase: u8,
}

impl<const N: u8> View for RotaryButton<N> {
    type V = KnobState;

    closed spec fn view(&self) -> KnobState {
        KnobState { pos: self.pos, down: self.button_down, phase: self.phase }
    }
}

impl<const N: u8> RotaryButton<N> {
    #[verifier::type_invariant]
    spec fn in_range(self) -> bool {
        self.pos <= N && self.phase < 4
    }

    /// A knob at position 0 with the button released and both quadrature
    /// lines high.
    pub fn new() -> (knob: Self)
        ensures
            knob@ == (KnobState { pos: 0, down: false, phase: 0 }),
    {
        RotaryButton { pos: 0, button_down: false, phase: 0 }
    }

    /// The current position. It never exceeds `N`.
    pub fn position(&self) -> (p: u8)
        ensures
            p == self@.pos,
            p <= N,
    {
        proof {
            use_type_invariant(self);
        }
        self.pos
    }

    /// Whether the button was last reported as pressed.
    pub fn is_down(&self) -> (d: bool)
        ensures
            d == self@.down,
    {
        self.button_down
    }

    /// Takes one sample of the button line: `Some(true)` when the line is
    /// low (pressed), `Some(false)` when it is high, `None` when the line
    /// could not be read.
    ///
    /// Reports `Down` or `Up` when the level differs from the recorded
    /// state, once per transition; a level that repeats, or a failed read,
    /// reports nothing and changes nothing.
    pub fn button(&mut self, low: Option<bool>) -> (event: Option<RotaryEvent>)
        ensures
            (final(self)@, event) == old(self)@.pressed(low),
    {
        proof {
            use_type_invariant(&*self);
        }
        match (low, self.button_down) {
            (Some(true), false) => {
                self.button_down = true;
                Some(RotaryEvent::Down)
            },
            (Some(false), true) => {
                self.button_down = false;
                Some(RotaryEvent::Up)
            },
            _ => None,
        }
    }

    /// Decodes the step of the quadrature lines from their last phase to
    /// the levels given, and keeps the new phase.
    pub fn quadrature(&mut self, a_low: bool, b_low: bool) -> (direction: Direction)
        ensures
            (final(self)@, direction) == old(self)@.decoded(a_low, b_low),
            old(self)@.phase < 4,
            final(self)@.phase < 4,
    {
        proof {
            use_type_invariant(&*self);
        }
        let mut step = self.phase;
        let mut phase: u8 = 0;
        if a_low {
            step += 0b0100;
            phase += 0b01;
        }
        if b_low {
            step += 0b1000;
            phase += 0b10;
        }
        self.phase = phase;
        decode_step(step)
    }

    /// Applies the outcome of one quadrature decode.
    ///
    /// A click moves the position by one and wraps at the ends: clockwise
    /// from `N` to 0, counter-clockwise from 0 to `N`. The event carries the
    /// new position. `Still` reports nothing and changes nothing.
    pub fn turn(&mut self, direction: Direction) -> (event: Option<RotaryEvent>)
        ensures
            (final(self)@, event) == old(self)@.turned(direction, N),
            old(self)@.pos <= N,
            final(self)@.pos <= N,
    {
        proof {
            use_type_invariant(&*self);
        }
        match direction {
            Direction::Clockwise => {
                if self.pos == N {
                    self.pos = 0
                } else {
                    self.pos += 1
                }
                Some(RotaryEvent::CW(self.pos))
            },
            Direction::CounterClockwise => {
                if self.pos == 0 {
                    self.pos = N
                } else {
                    self.pos -= 1;
                }
                Some(RotaryEvent::CCW(self.pos))
            },
            Direction::Still => None,
        }
    }

    /// Takes one sample of all three lines, each `Some(true)` when low,
    /// `Some(false)` when high and `None` when it could not be read, and
    /// reports the event that the sample amounts to, if any.
    ///
    /// A change of the button is reported first, and the quadrature lines
    /// are then left for the next sample. Otherwise the quadrature step is
    /// decoded, provided both lines were read, and a click moves the
    /// position.
    pub fn sample(
        &mut self,
        a_low: Option<bool>,
        b_low: Option<bool>,
        button_low: Option<bool>,
    ) -> (event: Option<RotaryEvent>)
        ensures
            (final(self)@, event) == old(self)@.sampled(a_low, b_low, button_low, N),
            final(self)@.pos <= N,
    {
        proof {
            use_type_invariant(&*self);
        }
        match self.button(button_low) {
            Some(event) => Some(event),
            None => match (a_low, b_low) {
                (Some(a), Some(b)) => {
                    let direction = self.quadrature(a, b);
                    self.turn(direction)
                },
                _ => None,
            },
        }
    }
}

} // verus!
