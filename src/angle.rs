//! The rule that turns digits into a hand's angle.
//!
//! A hand reads three digits starting at its position: the first picks one of
//! ten 36-degree steps, the second refines it by tenths of a step, the third by
//! hundredths. Angles are in centidegrees, clockwise from twelve o'clock.
use vstd::prelude::*;
use crate::digits::{all_decimal, digit_or_zero, TimeDigits};

verus! {

/// A full turn, in centidegrees.
pub const FULL_TURN: u32 = 36000;

/// One step of the leading digit: 36 degrees.
pub const DIGIT_STEP: u32 = 3600;

/// The angle of a hand that reads digits from `position` on. A refining digit
/// past the end of the snapshot counts as 0.
pub open spec fn refined_angle(d: Seq<u8>, position: int) -> int {
    3600 * digit_or_zero(d, position) + 360 * digit_or_zero(d, position + 1) + 36
        * digit_or_zero(d, position + 2)
}

/// The angle that a hand at `position` shows, or `None` where the snapshot
/// has no digit at that position and the hand is not drawn.
pub open spec fn hand_angle_of(d: Seq<u8>, position: int) -> Option<u32> {
    if 0 <= position < d.len() {
        Some(refined_angle(d, position) as u32)
    } else {
        None
    }
}

/// The angle of the hand at `position` under the refining rule, in
/// centidegrees; `None` where the snapshot is too short to hold that position.
pub fn hand_angle(digits: &TimeDigits, position: usize) -> (r: Option<u32>)
    requires
        digits.wf(),
    ensures
        r == hand_angle_of(digits@, position as int),
        r matches Some(a) ==> a < FULL_TURN,
{
    proof {
        lemma_angle_within_one_turn(digits@, position as int);
    }
    if position < digits.len() {
        let a = digits.digit_or_zero(position) as u32;
        let b = if position < usize::MAX { digits.digit_or_zero(position + 1) as u32 } else { 0 };
        let c = if position < usize::MAX - 1 { digits.digit_or_zero(position + 2) as u32 } else { 0 };
        Some(DIGIT_STEP * a + 360 * b + 36 * c)
    } else {
        None
    }
}

/// The angle of a hand never reaches a full turn, so it is its own remainder
/// modulo 360 degrees.
pub proof fn lemma_angle_within_one_turn(d: Seq<u8>, position: int)
    requires
        all_decimal(d),
    ensures
        0 <= refined_angle(d, position) < 36000,
        refined_angle(d, position) % 36000 == refined_angle(d, position),
{
    assert(0 <= digit_or_zero(d, position) <= 9);
    assert(0 <= digit_or_zero(d, position + 1) <= 9);
    assert(0 <= digit_or_zero(d, position + 2) <= 9);
}

/// A hand whose three digits are all 0 points straight up, at twelve o'clock.
pub proof fn lemma_zero_digits_point_up(d: Seq<u8>, position: int)
    requires
        0 <= position < d.len(),
        digit_or_zero(d, position) == 0,
        digit_or_zero(d, position + 1) == 0,
        digit_or_zero(d, position + 2) == 0,
    ensures
        hand_angle_of(d, position) == Some(0u32),
{
}

/// With the leading digit held, raising the second digit from `a` to `b`
/// turns the hand forward by `b - a` tenths of a step: by at least 0 and at
/// most 36 degrees.
pub proof fn lemma_second_digit_sweeps_forward(d: Seq<u8>, position: int, a: u8, b: u8)
    requires
        0 <= position,
        position + 1 < d.len(),
        a <= b <= 9,
    ensures
        refined_angle(d.update(position + 1, b), position) - refined_angle(
            d.update(position + 1, a),
            position,
        ) == 360 * (b - a),
        0 <= refined_angle(d.update(position + 1, b), position) - refined_angle(
            d.update(position + 1, a),
            position,
        ) <= 3600,
{
    let da = d.update(position + 1, a);
    let db = d.update(position + 1, b);
    assert(digit_or_zero(da, position) == digit_or_zero(db, position));
    assert(digit_or_zero(da, position + 2) == digit_or_zero(db, position + 2));
    assert(digit_or_zero(da, position + 1) == a);
    assert(digit_or_zero(db, position + 1) == b);
}

} // verus!
