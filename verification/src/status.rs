//! Status display: two bars that show the knob positions.
//!
//! The first bar is amber and follows the yellow knob, the second is red and
//! follows the red knob. Both are drawn at the current brightness level; at
//! level zero nothing is drawn at all.

use crate::leds::Led;
use crate::rotary::RotaryEvent;
use crate::RotorUpdate;
use vstd::prelude::*;

verus! {

/// End of the amber bar: it covers the cells `0..YELLOW_BAR_END`.
pub const YELLOW_BAR_END: u8 = 24;

/// First cell of the red bar. The cells between the two bars stay off.
pub const RED_BAR_START: u8 = 48;

/// End of the display: the red bar covers the cells `RED_BAR_START..BAR_END`.
pub const BAR_END: u8 = 72;

/// Brightness level of a fresh display, before the first sample.
pub const INITIAL_LEVEL: u8 = 0x10;

/// Knob positions and brightness level, as last reported.
#[derive(Clone, Copy, Debug, PartialEq, Eq, Structural)]
pub struct Status {
    pub yellow: u8,
    pub red: u8,
    pub level: u8,
}

/// Walks the cells of the display from the first on.
pub struct StatusIter<'a> {
    status: &'a Status,
    offset: u8,
}

/// A lit cell of the amber bar: red at `level`, green at a third of it but never off.
pub open spec fn amber(level: u8) -> Led {
    Led { red: level, green: if level / 3 >= 1 { level / 3 } else { 1 }, blue: 0, white: 0 }
}

/// A lit cell of the red bar.
pub open spec fn red_only(level: u8) -> Led {
    Led { red: level, green: 0, blue: 0, white: 0 }
}

/// The knob position that an event leaves on display: the reported position
/// for a rotation, zero for a button event.
pub open spec fn shown_position(event: RotaryEvent) -> u8 {
    match event {
        RotaryEvent::CW(v) => v,
        RotaryEvent::CCW(v) => v,
        _ => 0,
    }
}

impl Status {
    /// The cell at `offset` of a display that is switched on, `None` past its end.
    pub open spec fn cell(&self, offset: int) -> Option<Led> {
        if offset < YELLOW_BAR_END {
            Some(
                if self.yellow > offset {
                    amber(self.level)
                } else {
                    Led::off()
                },
            )
        } else if offset < BAR_END {
            Some(
                if offset >= RED_BAR_START && self.red > offset - RED_BAR_START {
                    red_only(self.level)
                } else {
                    Led::off()
                },
            )
        } else {
            None
        }
    }

    /// The whole display: empty at level zero, else every cell up to `BAR_END`.
    pub open spec fn bar(&self) -> Seq<Led> {
        if self.level == 0 {
            Seq::empty()
        } else {
            Seq::new(BAR_END as nat, |i: int| self.cell(i).unwrap())
        }
    }

    /// The display after a knob event: a rotation sets that knob's
    /// position, a button event resets it to zero.
    pub open spec fn recorded(self, update: RotorUpdate) -> Status {
        match update {
            RotorUpdate::Red(event) => Status { red: shown_position(event), ..self },
            RotorUpdate::Yellow(event) => Status { yellow: shown_position(event), ..self },
        }
    }

    /// Both knobs at zero, brightness at `INITIAL_LEVEL`.
    pub fn new() -> (status: Status)
        ensures
            status == (Status { yellow: 0, red: 0, level: INITIAL_LEVEL }),
    {
        Status { yellow: 0, red: 0, level: INITIAL_LEVEL }
    }

    /// Sets the brightness level.
    pub fn level(&mut self, level: u8)
        ensures
            *final(self) == (Status { level, ..*old(self) }),
    {
        self.level = level;
    }

    /// Records a knob event: a rotation sets that knob's position, a button
    /// event resets it to zero. The other knob and the level stay.
    pub fn apply(&mut self, update: RotorUpdate)
        ensures
            *final(self) == old(self).recorded(update),
    {
        match update {
            RotorUpdate::Red(event) => match event {
                RotaryEvent::CW(v) | RotaryEvent::CCW(v) => self.red = v,
                _ => self.red = 0,
            },
            RotorUpdate::Yellow(event) => match event {
                RotaryEvent::CW(v) | RotaryEvent::CCW(v) => self.yellow = v,
                _ => self.yellow = 0,
            },
        }
    }

    /// Starts a walk over the cells at the first cell.
    pub fn filler(&self) -> (cells: StatusIter<'_>)
        ensures
            cells.status() == *self,
            cells.offset() == 0,
    {
        StatusIter { status: self, offset: 0 }
    }

    /// Draws the whole display.
    ///
    /// At level zero the result is empty: no cell is produced, not even a
    /// dark one.
    pub fn render(&self) -> (pixels: Vec<Led>)
        ensures
            pixels@ == self.bar(),
            self.level == 0 ==> pixels@.len() == 0,
    {
        let mut pixels: Vec<Led> = Vec::new();
        let mut cells = self.filler();
        loop
            invariant_except_break
                cells.status() == *self,
                cells.offset() == pixels@.len(),
                pixels@.len() <= BAR_END,
                self.level != 0 || pixels@.len() == 0,
                forall|i: int|
                    0 <= i < pixels@.len() ==> self.cell(i) == Some(#[trigger] pixels@[i]),
            ensures
                pixels@ == self.bar(),
            decreases BAR_END - pixels@.len(),
        {
            match cells.next() {
                Some(led) => pixels.push(led),
                None => {
                    break ;
                },
            }
        }
        pixels
    }
}

impl<'a> StatusIter<'a> {
    /// The display that is walked.
    pub closed spec fn status(&self) -> Status {
        *self.status
    }

    /// The cell that comes next.
    pub closed spec fn offset(&self) -> u8 {
        self.offset
    }

    /// Yields the next cell and moves on.
    ///
    /// At level zero it yields nothing and stays where it is. Otherwise it
    /// yields the cell at the current offset, `None` past the end of the
    /// display, and advances the offset by one, wrapping from 255 to 0.
    pub fn next(&mut self) -> (cell: Option<Led>)
        ensures
            final(self).status() == old(self).status(),
            old(self).status().level == 0 ==> cell is None && final(self).offset() == old(
                self,
            ).offset(),
            old(self).status().level != 0 ==> cell == old(self).status().cell(
                old(self).offset() as int,
            ) && final(self).offset() == (old(self).offset() + 1) % 256,
    {
        if self.status.level == 0 {
            return None;
        }
        let level = self.status.level;
        let l = if self.offset < YELLOW_BAR_END {
            if self.status.yellow > self.offset {
                let third = level / 3;
                let green = if third >= 1 {
                    third
                } else {
                    1
                };
                Some(Led { red: level, green, blue: 0, white: 0 })
            } else {
                Some(Led::default())
            }
        } else if self.offset < BAR_END {
            if self.offset >= RED_BAR_START && self.status.red > (self.offset - RED_BAR_START) {
                Some(Led { red: level, green: 0, blue: 0, white: 0 })
            } else {
                Some(Led::default())
            }
        } else {
            None
        };
        self.offset = self.offset.wrapping_add(1);
        l
    }
}

} // verus!
