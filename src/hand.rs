//! A hand of the clock: a line from the centre whose direction comes from the
//! digits at its position.
use vstd::prelude::*;
use crate::angle::{hand_angle, hand_angle_of};
use crate::digits::TimeDigits;
use crate::face::WindowSize;

verus! {

/// The length of the hand at position 0, in pixels.
pub const HAND_BASE_LENGTH: u32 = 50;

/// How much longer each later position's hand is, in pixels.
pub const HAND_LENGTH_STEP: u32 = 20;

/// The thickness of a hand, in tenths of a pixel.
pub const HAND_WIDTH_TENTHS: u32 = 25;

/// One hand as drawn: a line from the centre, `length` pixels long, turned
/// `angle` centidegrees clockwise from twelve o'clock.
#[derive(Clone, Copy, Debug, PartialEq, Eq, Structural)]
pub struct HandLine {
    pub position: u8,
    pub from_x: u32,
    pub from_y: u32,
    pub angle: u32,
    pub length: u32,
}

/// A hand that reads the digits of the time from index `position` on.
#[derive(Clone, Copy, Debug, PartialEq, Eq, Structural)]
pub struct ClockHand {
    pub position: u8,
}

/// The length of the hand at `position`: later positions reach further out.
pub open spec fn hand_length_of(position: u8) -> int {
    position as int * 20 + 50
}

/// The line that hand `h` draws in a window of size `size` at time `d`, or
/// `None` where `d` has no digit at its position.
pub open spec fn hand_line_of(h: ClockHand, size: WindowSize, d: Seq<u8>) -> Option<HandLine> {
    match hand_angle_of(d, h.position as int) {
        Some(a) => Some(
            HandLine {
                position: h.position,
                from_x: size.center_x_spec() as u32,
                from_y: size.center_y_spec() as u32,
                angle: a,
                length: hand_length_of(h.position) as u32,
            },
        ),
        None => None,
    }
}

impl ClockHand {
    pub fn new(position: u8) -> (r: ClockHand)
        ensures
            r.position == position,
    {
        ClockHand { position }
    }

    /// The length of this hand, in pixels.
    pub fn length(&self) -> (r: u32)
        ensures
            r == hand_length_of(self.position),
    {
        self.position as u32 * HAND_LENGTH_STEP + HAND_BASE_LENGTH
    }

    /// The line this hand draws at time `digits`; `None` where the snapshot
    /// is too short to hold the hand's position, so the hand is skipped for
    /// this frame.
    pub fn draw(&self, size: &WindowSize, digits: &TimeDigits) -> (r: Option<HandLine>)
        requires
            digits.wf(),
        ensures
            r == hand_line_of(*self, *size, digits@),
            r matches Some(l) ==> l.angle < 36000,
    {
        match hand_angle(digits, self.position as usize) {
            Some(angle) => {
                let (from_x, from_y) = size.center();
                Some(HandLine { position: self.position, from_x, from_y, angle, length: self.length() })
            },
            None => None,
        }
    }
}

} // verus!
