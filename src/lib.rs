//! An analog-style clock whose hands are driven by the decimal digits of the
//! current Unix time.
//!
//! The library holds the geometry of a frame in exact integer units: angles in
//! hundredths of a degree (centidegrees), lengths in pixels, measured clockwise
//! from twelve o'clock. Turning those into pixels on a screen is left to the
//! program around it.
pub mod angle;
pub mod clock;
pub mod digits;
pub mod face;
pub mod hand;

pub use angle::hand_angle;
pub use clock::{frame_at, Clock, Frame};
pub use digits::TimeDigits;
pub use face::{ClockFace, FaceDrawing, Label, Rect, WindowSize};
pub use hand::{ClockHand, HandLine};
