//! The whole clock: one face and a row of hands, drawn face first and then
//! hand by hand in order of position.
use vstd::prelude::*;
use crate::digits::{decimal_digits, TimeDigits};
use crate::face::{ClockFace, FaceDrawing, Rect, WindowSize};
use crate::hand::{hand_line_of, ClockHand, HandLine};

verus! {

/// The number of hands on a clock: one for each label of the face.
pub const HAND_COUNT: u8 = 10;

/// The lines drawn by the hands `hs`, in order, leaving out those that the
/// snapshot `d` is too short for.
pub open spec fn drawn_hands(hs: Seq<ClockHand>, size: WindowSize, d: Seq<u8>) -> Seq<HandLine>
    decreases hs.len(),
{
    if hs.len() == 0 {
        Seq::empty()
    } else {
        let earlier = drawn_hands(hs.drop_last(), size, d);
        match hand_line_of(hs.last(), size, d) {
            Some(l) => earlier.push(l),
            None => earlier,
        }
    }
}

/// The hands of a clock: positions 0 to 9, in order.
pub open spec fn standard_hands() -> Seq<ClockHand> {
    Seq::new(10, |i: int| ClockHand { position: i as u8 })
}

/// Everything drawn in one frame.
#[derive(Debug, PartialEq, Eq)]
pub struct Frame {
    pub face: FaceDrawing,
    pub hands: Vec<HandLine>,
}

impl Frame {
    /// This is the frame that clock `c` draws in a window of size `size` at
    /// time `d`.
    pub open spec fn is_frame_of(&self, c: Clock, size: WindowSize, d: Seq<u8>) -> bool {
        &&& self.face.is_face_of(c.clock_face.clock_circle_coords, size)
        &&& self.hands@ == drawn_hands(c.clock_hands@, size, d)
    }
}

/// A clock: the face and the hands, in drawing order.
pub struct Clock {
    pub clock_face: ClockFace,
    pub clock_hands: Vec<ClockHand>,
}

impl Clock {
    /// A clock for a window of size `size`, with one hand for each position
    /// from 0 to 9, in that order.
    pub fn new(size: &WindowSize) -> (r: Clock)
        ensures
            r.clock_face.clock_circle_coords == (Rect {
                x: 0,
                y: 0,
                width: size.width,
                height: size.height,
            }),
            r.clock_hands@ == standard_hands(),
    {
        let mut clock_hands: Vec<ClockHand> = Vec::new();
        let mut i: u8 = 0;
        while i < HAND_COUNT
            invariant
                i <= 10,
                clock_hands@.len() == i,
                forall|j: int| 0 <= j < i ==> (#[trigger] clock_hands@[j]).position == j,
            decreases 10 - i,
        {
            clock_hands.push(ClockHand::new(i));
            i = i + 1;
        }
        assert(clock_hands@ =~= standard_hands());
        Clock { clock_face: ClockFace::new(size), clock_hands }
    }

    /// Draws the face, then each hand in order; a hand whose position lies
    /// past the end of `digits` is skipped.
    pub fn draw(&self, size: &WindowSize, digits: &TimeDigits) -> (r: Frame)
        requires
            digits.wf(),
        ensures
            r.is_frame_of(*self, *size, digits@),
    {
        let face = self.clock_face.draw(size);
        let mut hands: Vec<HandLine> = Vec::new();
        let mut i: usize = 0;
        while i < self.clock_hands.len()
            invariant
                digits.wf(),
                i <= self.clock_hands@.len(),
                hands@ == drawn_hands(self.clock_hands@.subrange(0, i as int), *size, digits@),
            decreases self.clock_hands@.len() - i,
        {
            let line = self.clock_hands[i].draw(size, digits);
            proof {
                let next = self.clock_hands@.subrange(0, i + 1);
                assert(next.drop_last() =~= self.clock_hands@.subrange(0, i as int));
                assert(next.last() == self.clock_hands@[i as int]);
            }
            match line {
                Some(l) => hands.push(l),
                None => {},
            }
            i = i + 1;
        }
        assert(self.clock_hands@.subrange(0, self.clock_hands@.len() as int) =~= self.clock_hands@);
        Frame { face, hands }
    }
}

/// The frame for a window of size `size` at the instant `count` time units
/// after the epoch. The time is turned into digits once, and every hand reads
/// that one snapshot.
pub fn frame_at(size: &WindowSize, count: u64) -> (r: Frame)
    ensures
        r.face.is_face_of(Rect { x: 0, y: 0, width: size.width, height: size.height }, *size),
        r.hands@ == drawn_hands(standard_hands(), *size, decimal_digits(count as nat)),
{
    let clock = Clock::new(size);
    let digits = TimeDigits::from_count(count);
    clock.draw(size, &digits)
}

/// Drawing holds no state from one frame to the next: any two frames that a
/// clock draws for the same window size and the same time are the same.
pub proof fn lemma_draw_is_repeatable(
    c: Clock,
    size: WindowSize,
    d: Seq<u8>,
    first: Frame,
    second: Frame,
)
    requires
        first.is_frame_of(c, size, d),
        second.is_frame_of(c, size, d),
    ensures
        first.face.ring == second.face.ring,
        first.face.center_x == second.face.center_x,
        first.face.center_y == second.face.center_y,
        first.face.label_radius == second.face.label_radius,
        first.face.labels@ == second.face.labels@,
        first.hands@ == second.hands@,
{
}

} // verus!
