//! Frame scheduling: what to do next, given what just happened.
//!
//! A controller never touches the hardware. It is told what happened as an
//! [`Event`] and answers with the [`Action`] it wants carried out next; the
//! loop around it carries the action out and reports back. One frame is:
//! sample the brightness, draw, send, then wait for the frame timer while
//! knob events come in.

use crate::conway::{dims_ok, lifeless, next_generation, row_major, seeded, Conway};
use crate::leds::Led;
use crate::rotary::RotaryEvent;
use crate::status::{Status, INITIAL_LEVEL};
use crate::RotorUpdate;
use vstd::prelude::*;

verus! {

/// The shortest frame interval, in timer ticks, that halving may reach.
pub const MIN_INTERVAL: u64 = 1;

/// What the loop reports to a controller.
#[derive(Clone, Copy, Debug, PartialEq, Eq, Structural)]
pub enum Event {
    /// The analog input was read and gave this raw value.
    Sampled(u16),
    /// The frame was sent.
    Shown,
    /// The random source gave this value.
    Seed(u32),
    /// The frame timer fired.
    Elapsed,
    /// A knob event arrived before the frame timer fired.
    Input(RotorUpdate),
}

/// What a controller asks the loop to do. Each action is answered by one event.
#[derive(Clone, Copy, Debug, PartialEq, Eq, Structural)]
pub enum Action {
    /// Read the analog input and report `Sampled`.
    Sample,
    /// Send the controller's current picture and report `Shown`.
    Show,
    /// Send a frame with every pixel in this colour and report `Shown`.
    Flash(Led),
    /// Draw a random value and report `Seed`.
    Draw,
    /// Start the frame timer with this many ticks, then report whichever
    /// comes first: `Elapsed` or `Input`.
    Wait(u64),
    /// Go on waiting on the timer that is running, then report whichever
    /// comes first: `Elapsed` or `Input`.
    KeepWaiting,
}

/// The brightness level of a raw analog sample: a sixteenth of it, rounded
/// up, and at most 255.
pub open spec fn level_of(raw: u16) -> u8 {
    if (raw + 15) / 16 > 255 {
        255
    } else {
        ((raw + 15) / 16) as u8
    }
}

/// The brightness level of a raw analog sample.
pub fn brightness(raw: u16) -> (level: u8)
    ensures
        level == level_of(raw),
{
    let scaled: u32 = (raw as u32 + 15) / 16;
    if scaled > 255 {
        255
    } else {
        scaled as u8
    }
}

/// Half the brightness level, but never dark.
pub open spec fn dimmed(level: u8) -> u8 {
    if level / 2 >= 1 {
        level / 2
    } else {
        1
    }
}

/// The colour that announces a reseed of a grid that died out: dim red.
pub open spec fn dead_flash(level: u8) -> Led {
    Led { red: dimmed(level), green: 0, blue: 0, white: 0 }
}

/// The colour that announces a reseed of a grid that stopped changing: dim green.
pub open spec fn stalled_flash(level: u8) -> Led {
    Led { red: 0, green: dimmed(level), blue: 0, white: 0 }
}

/// The pixel of a cell: white at the brightness level if it is alive, else off.
pub open spec fn cell_pixel(alive: bool, level: u8) -> Led {
    if alive {
        Led { red: 0, green: 0, blue: 0, white: level }
    } else {
        Led::off()
    }
}

/// The interval after a clockwise click: halved, unless that would bring
/// it under `MIN_INTERVAL`.
pub open spec fn halved(interval: u64) -> u64 {
    if interval / 2 >= MIN_INTERVAL {
        interval / 2
    } else {
        interval
    }
}

/// Where in its frame a Game of Life controller is, named by what it waits for.
#[derive(Clone, Copy, Debug, PartialEq, Eq, Structural)]
pub enum LifePhase {
    /// For the analog sample that opens a frame.
    Sampling,
    /// For the picture of the cells to be sent.
    ShowingCells,
    /// For the flash of a dead grid to be sent.
    FlashingDead,
    /// For the seed that revives a dead grid.
    SeedingDead,
    /// For the flash of a grid that stopped changing to be sent.
    FlashingStalled,
    /// For the seed that replaces a grid that stopped changing.
    SeedingStalled,
    /// For the frame timer or a knob event.
    Waiting,
    /// For the seed that the button asked for.
    SeedingOnRequest,
}

/// What a Game of Life controller holds.
pub struct LifeModel {
    /// The cells, row by row.
    pub grid: Seq<Seq<bool>>,
    /// The brightness level of the current frame.
    pub level: u8,
    /// The frame interval in timer ticks.
    pub interval: u64,
    pub phase: LifePhase,
}

impl LifeModel {
    /// The action whose answer the controller waits for.
    pub open spec fn pending(self) -> Action {
        match self.phase {
            LifePhase::Sampling => Action::Sample,
            LifePhase::ShowingCells => Action::Show,
            LifePhase::FlashingDead => Action::Flash(dead_flash(self.level)),
            LifePhase::FlashingStalled => Action::Flash(stalled_flash(self.level)),
            LifePhase::SeedingDead | LifePhase::SeedingStalled | LifePhase::SeedingOnRequest =>
                Action::Draw,
            LifePhase::Waiting => Action::KeepWaiting,
        }
    }

    /// Moves the game on by one generation. If a cell changed, the frame
    /// timer starts; if none did, the grid is flashed and then replaced.
    pub open spec fn evolve(self) -> (LifeModel, Action) {
        let next = next_generation(self.grid);
        if next != self.grid {
            (
                LifeModel { grid: next, phase: LifePhase::Waiting, ..self },
                Action::Wait(self.interval),
            )
        } else {
            (
                LifeModel { phase: LifePhase::FlashingStalled, ..self },
                Action::Flash(stalled_flash(self.level)),
            )
        }
    }

    /// Whether the controller can take `event`: doubling the interval must
    /// not overflow.
    pub open spec fn can_take(self, event: Event) -> bool {
        match (self.phase, event) {
            (LifePhase::Waiting, Event::Input(RotorUpdate::Red(RotaryEvent::CCW(_)))) => {
                self.interval * 2 <= u64::MAX
            },
            _ => true,
        }
    }

    /// The state after `event` and the action to carry out next, for a
    /// grid of `h` rows of `w` cells.
    ///
    /// An event that the phase does not wait for changes nothing; the
    /// answer is then the pending action once more.
    pub open spec fn react(self, event: Event, w: int, h: int) -> (LifeModel, Action) {
        match (self.phase, event) {
            (LifePhase::Sampling, Event::Sampled(raw)) => {
                let level = level_of(raw);
                if lifeless(self.grid) {
                    (
                        LifeModel { level, phase: LifePhase::FlashingDead, ..self },
                        Action::Flash(dead_flash(level)),
                    )
                } else {
                    (LifeModel { level, phase: LifePhase::ShowingCells, ..self }, Action::Show)
                }
            },
            (LifePhase::ShowingCells, Event::Shown) => self.evolve(),
            (LifePhase::FlashingDead, Event::Shown) => (
                LifeModel { phase: LifePhase::SeedingDead, ..self },
                Action::Draw,
            ),
            (LifePhase::SeedingDead, Event::Seed(seed)) => (LifeModel {
                grid: seeded(seed, w, h),
                ..self
            }).evolve(),
            (LifePhase::FlashingStalled, Event::Shown) => (
                LifeModel { phase: LifePhase::SeedingStalled, ..self },
                Action::Draw,
            ),
            (LifePhase::SeedingStalled, Event::Seed(seed)) => (
                LifeModel { grid: seeded(seed, w, h), phase: LifePhase::Waiting, ..self },
                Action::Wait(self.interval),
            ),
            (LifePhase::Waiting, Event::Elapsed) => (
                LifeModel { phase: LifePhase::Sampling, ..self },
                Action::Sample,
            ),
            (LifePhase::Waiting, Event::Input(RotorUpdate::Red(RotaryEvent::Down))) => (
                LifeModel { phase: LifePhase::SeedingOnRequest, ..self },
                Action::Draw,
            ),
            (LifePhase::Waiting, Event::Input(RotorUpdate::Red(RotaryEvent::CW(_)))) => (
                LifeModel { interval: halved(self.interval), phase: LifePhase::Sampling, ..self },
                Action::Sample,
            ),
            (LifePhase::Waiting, Event::Input(RotorUpdate::Red(RotaryEvent::CCW(_)))) => (
                LifeModel { interval: (self.interval * 2) as u64, ..self },
                Action::KeepWaiting,
            ),
            (LifePhase::SeedingOnRequest, Event::Seed(seed)) => (
                LifeModel { grid: seeded(seed, w, h), phase: LifePhase::Sampling, ..self },
                Action::Sample,
            ),
            _ => (self, self.pending()),
        }
    }
}

/// Scheduler of the Game of Life animation on a `W` x `H` torus.
pub struct LifeController<const W: usize, const H: usize> {
    conway: Conway<W, H>,
    level: u8,
    interval: u64,
    phase: LifePhase,
}

impl<const W: usize, const H: usize> View for LifeController<W, H> {
    type V = LifeModel;

    closed spec fn view(&self) -> LifeModel {
        LifeModel {
            grid: self.conway@,
            level: self.level,
            interval: self.interval,
            phase: self.phase,
        }
    }
}

/// Half the brightness level, but never dark.
fn dim(level: u8) -> (d: u8)
    ensures
        d == dimmed(level),
{
    let half = level / 2;
    if half >= 1 {
        half
    } else {
        1
    }
}

impl<const W: usize, const H: usize> LifeController<W, H> {
    /// A controller at the start of its first frame, with a grid seeded
    /// with `seed` and a frame interval of `interval` ticks.
    pub fn new(seed: u32, interval: u64) -> (controller: Self)
        requires
            dims_ok(W, H),
        ensures
            controller@ == (LifeModel {
                grid: seeded(seed, W as int, H as int),
                level: 0,
                interval,
                phase: LifePhase::Sampling,
            }),
    {
        LifeController { conway: Conway::new(seed), level: 0, interval, phase: LifePhase::Sampling }
    }

    pub fn level(&self) -> (level: u8)
        ensures
            level == self@.level,
    {
        self.level
    }

    pub fn interval(&self) -> (interval: u64)
        ensures
            interval == self@.interval,
    {
        self.interval
    }

    pub fn phase(&self) -> (phase: LifePhase)
        ensures
            phase == self@.phase,
    {
        self.phase
    }

    /// The cells in row-major order.
    pub fn cells(&self) -> (cells: Vec<bool>)
        ensures
            cells@ == row_major(self@.grid, W as int, H as int),
    {
        self.conway.iter_linear()
    }

    /// The action whose answer the controller waits for. A loop starts
    /// with this action.
    pub fn pending(&self) -> (action: Action)
        ensures
            action == self@.pending(),
    {
        match self.phase {
            LifePhase::Sampling => Action::Sample,
            LifePhase::ShowingCells => Action::Show,
            LifePhase::FlashingDead => Action::Flash(
                Led { red: dim(self.level), green: 0, blue: 0, white: 0 },
            ),
            LifePhase::FlashingStalled => Action::Flash(
                Led { red: 0, green: dim(self.level), blue: 0, white: 0 },
            ),
            LifePhase::SeedingDead | LifePhase::SeedingStalled | LifePhase::SeedingOnRequest =>
                Action::Draw,
            LifePhase::Waiting => Action::KeepWaiting,
        }
    }

    /// The picture of the cells: one pixel for each cell in row-major
    /// order, white at the brightness level where the cell is alive.
    pub fn picture(&self) -> (pixels: Vec<Led>)
        ensures
            pixels@ == row_major(self@.grid, W as int, H as int).map_values(
                |alive: bool| cell_pixel(alive, self@.level),
            ),
    {
        let cells = self.conway.iter_linear();
        let mut pixels: Vec<Led> = Vec::new();
        let mut i: usize = 0;
        while i < cells.len()
            invariant
                i <= cells@.len(),
                pixels@.len() == i,
                forall|k: int| 0 <= k < i ==> pixels@[k] == cell_pixel(cells@[k], self.level),
            decreases cells@.len() - i,
        {
            let led = if cells[i] {
                Led { red: 0, green: 0, blue: 0, white: self.level }
            } else {
                Led::default()
            };
            pixels.push(led);
            i += 1;
        }
        assert(pixels@ =~= cells@.map_values(|alive: bool| cell_pixel(alive, self@.level)));
        pixels
    }

    /// Moves the game on by one generation and says what comes next.
    fn evolve(&mut self) -> (action: Action)
        ensures
            (final(self)@, action) == old(self)@.evolve(),
    {
        if self.conway.step() {
            self.phase = LifePhase::Waiting;
            Action::Wait(self.interval)
        } else {
            self.phase = LifePhase::FlashingStalled;
            Action::Flash(Led { red: 0, green: dim(self.level), blue: 0, white: 0 })
        }
    }

    /// Takes in what happened and answers with what to do next, unless the
    /// event would double the interval beyond what fits: then the answer is
    /// `None` and nothing changes.
    pub fn try_on_event(&mut self, event: Event) -> (action: Option<Action>)
        ensures
            old(self)@.can_take(event) ==> action is Some && (final(self)@, action.unwrap()) == old(
                self,
            )@.react(event, W as int, H as int),
            !old(self)@.can_take(event) ==> action is None && final(self)@ == old(self)@,
    {
        match (self.phase, event) {
            (LifePhase::Waiting, Event::Input(RotorUpdate::Red(RotaryEvent::CCW(_)))) => {
                if self.interval > u64::MAX / 2 {
                    return None;
                }
            },
            _ => {},
        }
        Some(self.on_event(event))
    }

    /// Takes in what happened and answers with what to do next.
    pub fn on_event(&mut self, event: Event) -> (action: Action)
        requires
            old(self)@.can_take(event),
        ensures
            (final(self)@, action) == old(self)@.react(event, W as int, H as int),
    {
        match (self.phase, event) {
            (LifePhase::Sampling, Event::Sampled(raw)) => {
                self.level = brightness(raw);
                if self.conway.all_dead() {
                    self.phase = LifePhase::FlashingDead;
                    Action::Flash(Led { red: dim(self.level), green: 0, blue: 0, white: 0 })
                } else {
                    self.phase = LifePhase::ShowingCells;
                    Action::Show
                }
            },
            (LifePhase::ShowingCells, Event::Shown) => self.evolve(),
            (LifePhase::FlashingDead, Event::Shown) => {
                self.phase = LifePhase::SeedingDead;
                Action::Draw
            },
            (LifePhase::SeedingDead, Event::Seed(seed)) => {
                self.conway.reset(seed);
                self.evolve()
            },
            (LifePhase::FlashingStalled, Event::Shown) => {
                self.phase = LifePhase::SeedingStalled;
                Action::Draw
            },
            (LifePhase::SeedingStalled, Event::Seed(seed)) => {
                self.conway.reset(seed);
                self.phase = LifePhase::Waiting;
                Action::Wait(self.interval)
            },
            (LifePhase::Waiting, Event::Elapsed) => {
                self.phase = LifePhase::Sampling;
                Action::Sample
            },
            (LifePhase::Waiting, Event::Input(RotorUpdate::Red(RotaryEvent::Down))) => {
                self.phase = LifePhase::SeedingOnRequest;
                Action::Draw
            },
            (LifePhase::Waiting, Event::Input(RotorUpdate::Red(RotaryEvent::CW(_)))) => {
                let half = self.interval / 2;
                if half >= MIN_INTERVAL {
                    self.interval = half;
                }
                self.phase = LifePhase::Sampling;
                Action::Sample
            },
            (LifePhase::Waiting, Event::Input(RotorUpdate::Red(RotaryEvent::CCW(_)))) => {
                self.interval = self.interval * 2;
                Action::KeepWaiting
            },
            (LifePhase::SeedingOnRequest, Event::Seed(seed)) => {
                self.conway.reset(seed);
                self.phase = LifePhase::Sampling;
                Action::Sample
            },
            _ => self.pending(),
        }
    }
}

/// Where in its frame a status display controller is, named by what it waits for.
#[derive(Clone, Copy, Debug, PartialEq, Eq, Structural)]
pub enum StatusPhase {
    /// For the analog sample that opens a frame.
    Sampling,
    /// For the picture of the bars to be sent.
    Showing,
    /// For the frame timer or a knob event.
    Waiting,
}

/// What a status display controller holds.
pub struct StatusModel {
    pub status: Status,
    /// The frame interval in timer ticks.
    pub interval: u64,
    pub phase: StatusPhase,
}

impl StatusModel {
    /// The action whose answer the controller waits for.
    pub open spec fn pending(self) -> Action {
        match self.phase {
            StatusPhase::Sampling => Action::Sample,
            StatusPhase::Showing => Action::Show,
            StatusPhase::Waiting => Action::KeepWaiting,
        }
    }

    /// The state after `event` and the action to carry out next.
    ///
    /// A knob event never cuts the wait short: the timer that is running
    /// goes on. An event that the phase does not wait for changes nothing;
    /// the answer is then the pending action once more.
    pub open spec fn react(self, event: Event) -> (StatusModel, Action) {
        match (self.phase, event) {
            (StatusPhase::Sampling, Event::Sampled(raw)) => (
                StatusModel {
                    status: Status { level: level_of(raw), ..self.status },
                    phase: StatusPhase::Showing,
                    ..self
                },
                Action::Show,
            ),
            (StatusPhase::Showing, Event::Shown) => (
                StatusModel { phase: StatusPhase::Waiting, ..self },
                Action::Wait(self.interval),
            ),
            (StatusPhase::Waiting, Event::Elapsed) => (
                StatusModel { phase: StatusPhase::Sampling, ..self },
                Action::Sample,
            ),
            (StatusPhase::Waiting, Event::Input(update)) => (
                StatusModel { status: self.status.recorded(update), ..self },
                Action::KeepWaiting,
            ),
            _ => (self, self.pending()),
        }
    }
}

/// Scheduler of the status display.
pub struct StatusController {
    status: Status,
    interval: u64,
    phase: StatusPhase,
}

impl View for StatusController {
    type V = StatusModel;

    closed spec fn view(&self) -> StatusModel {
        StatusModel { status: self.status, interval: self.interval, phase: self.phase }
    }
}

impl StatusController {
    /// A controller at the start of its first frame, with a fresh display
    /// and a frame interval of `interval` ticks.
    pub fn new(interval: u64) -> (controller: Self)
        ensures
            controller@ == (StatusModel {
                status: Status { yellow: 0, red: 0, level: INITIAL_LEVEL },
                interval,
                phase: StatusPhase::Sampling,
            }),
    {
        StatusController { status: Status::new(), interval, phase: StatusPhase::Sampling }
    }

    pub fn status(&self) -> (status: Status)
        ensures
            status == self@.status,
    {
        self.status
    }

    pub fn interval(&self) -> (interval: u64)
        ensures
            interval == self@.interval,
    {
        self.interval
    }

    pub fn phase(&self) -> (phase: StatusPhase)
        ensures
            phase == self@.phase,
    {
        self.phase
    }

    /// The action whose answer the controller waits for. A loop starts
    /// with this action.
    pub fn pending(&self) -> (action: Action)
        ensures
            action == self@.pending(),
    {
        match self.phase {
            StatusPhase::Sampling => Action::Sample,
            StatusPhase::Showing => Action::Show,
            StatusPhase::Waiting => Action::KeepWaiting,
        }
    }

    /// The picture of the two bars.
    pub fn picture(&self) -> (pixels: Vec<Led>)
        ensures
            pixels@ == self@.status.bar(),
    {
        self.status.render()
    }

    /// Takes in what happened and answers with what to do next.
    pub fn on_event(&mut self, event: Event) -> (action: Action)
        ensures
            (final(self)@, action) == old(self)@.react(event),
    {
        match (self.phase, event) {
            (StatusPhase::Sampling, Event::Sampled(raw)) => {
                self.status.level(brightness(raw));
                self.phase = StatusPhase::Showing;
                Action::Show
            },
            (StatusPhase::Showing, Event::Shown) => {
                self.phase = StatusPhase::Waiting;
                Action::Wait(self.interval)
            },
            (StatusPhase::Waiting, Event::Elapsed) => {
                self.phase = StatusPhase::Sampling;
                Action::Sample
            },
            (StatusPhase::Waiting, Event::Input(update)) => {
                self.status.apply(update);
                Action::KeepWaiting
            },
            _ => self.pending(),
        }
    }
}

} // verus!
