//! The window, the ring of the face and its ten labels.
use vstd::prelude::*;

verus! {

/// How far the labels stand inside the ring, in pixels.
pub const LABEL_INSET: u32 = 20;

/// The number of labels on the face, "0" through "9".
pub const LABEL_COUNT: u32 = 10;

/// The thickness of the ring, in tenths of a pixel.
pub const RING_WIDTH_TENTHS: u32 = 50;

/// The font size of the labels.
pub const LABEL_FONT_SIZE: u32 = 20;

/// The size of the window that a frame is drawn into, in pixels.
#[derive(Clone, Copy, Debug, PartialEq, Eq, Structural)]
pub struct WindowSize {
    pub width: u32,
    pub height: u32,
}

/// An axis-aligned rectangle: corner and extent, in pixels.
#[derive(Clone, Copy, Debug, PartialEq, Eq, Structural)]
pub struct Rect {
    pub x: u32,
    pub y: u32,
    pub width: u32,
    pub height: u32,
}

/// One label of the face: the digit it shows and the direction, in
/// centidegrees clockwise from twelve o'clock, at which it stands.
#[derive(Clone, Copy, Debug, PartialEq, Eq, Structural)]
pub struct Label {
    pub digit: u8,
    pub angle: u32,
}

impl WindowSize {
    pub open spec fn center_x_spec(self) -> int {
        self.width as int / 2
    }

    pub open spec fn center_y_spec(self) -> int {
        self.height as int / 2
    }

    /// The centre of the window, rounded down to whole pixels.
    pub fn center(&self) -> (r: (u32, u32))
        ensures
            r.0 == self.center_x_spec(),
            r.1 == self.center_y_spec(),
    {
        (self.width / 2, self.height / 2)
    }
}

/// The radius of the circle on which the labels stand: half the shorter side
/// less the inset, and 0 in a window too small for it.
pub open spec fn label_radius_of(size: WindowSize) -> int {
    let half = if size.width <= size.height {
        size.width as int / 2
    } else {
        size.height as int / 2
    };
    if half >= 20 {
        half - 20
    } else {
        0
    }
}

/// The label for digit `i`: the digits go clockwise from "0" at twelve
/// o'clock, 36 degrees apart.
pub open spec fn label_of(i: int) -> Label {
    Label { digit: i as u8, angle: (3600 * i) as u32 }
}

/// What the face draws: the ring, and the labels on a circle about the centre.
#[derive(Debug, PartialEq, Eq)]
pub struct FaceDrawing {
    pub ring: Rect,
    pub center_x: u32,
    pub center_y: u32,
    pub label_radius: u32,
    pub labels: Vec<Label>,
}

impl FaceDrawing {
    /// The drawing of the face of a clock with ring `ring` in a window of
    /// size `size`.
    pub open spec fn is_face_of(&self, ring: Rect, size: WindowSize) -> bool {
        &&& self.ring == ring
        &&& self.center_x == size.center_x_spec()
        &&& self.center_y == size.center_y_spec()
        &&& self.label_radius == label_radius_of(size)
        &&& self.labels@ == Seq::new(10, |i: int| label_of(i))
    }
}

/// The face of the clock: a ring inscribed in the window.
#[derive(Clone, Copy, Debug, PartialEq, Eq, Structural)]
pub struct ClockFace {
    pub clock_circle_coords: Rect,
}

impl ClockFace {
    /// The face for a window of size `size`: its ring fills the window.
    pub fn new(size: &WindowSize) -> (r: ClockFace)
        ensures
            r.clock_circle_coords == (Rect { x: 0, y: 0, width: size.width, height: size.height }),
    {
        ClockFace {
            clock_circle_coords: Rect { x: 0, y: 0, width: size.width, height: size.height },
        }
    }

    /// The radius of the label circle in a window of size `size`.
    pub fn label_radius(size: &WindowSize) -> (r: u32)
        ensures
            r == label_radius_of(*size),
    {
        let half = if size.width <= size.height {
            size.width / 2
        } else {
            size.height / 2
        };
        if half >= LABEL_INSET {
            half - LABEL_INSET
        } else {
            0
        }
    }

    /// The ring and the ten labels, "0" at twelve o'clock and the rest
    /// clockwise every 36 degrees.
    pub fn draw(&self, size: &WindowSize) -> (r: FaceDrawing)
        ensures
            r.is_face_of(self.clock_circle_coords, *size),
    {
        let mut labels: Vec<Label> = Vec::new();
        let mut i: u32 = 0;
        while i < LABEL_COUNT
            invariant
                i <= 10,
                labels@ == Seq::new(i as nat, |j: int| label_of(j)),
            decreases 10 - i,
        {
            labels.push(Label { digit: i as u8, angle: 3600 * i });
            i = i + 1;
            assert(labels@ =~= Seq::new(i as nat, |j: int| label_of(j)));
        }
        let (center_x, center_y) = size.center();
        FaceDrawing {
            ring: self.clock_circle_coords,
            center_x,
            center_y,
            label_radius: Self::label_radius(size),
            labels,
        }
    }
}

/// In a window wider and taller than 40 pixels the ring is the whole window,
/// and every label stands inside it: the square of half-side `radius` about
/// the centre, which holds the label circle, lies at least the inset away from
/// every edge.
pub proof fn lemma_face_fits_window(size: WindowSize, f: ClockFace, d: FaceDrawing)
    requires
        size.width > 40,
        size.height > 40,
        f.clock_circle_coords == (Rect { x: 0, y: 0, width: size.width, height: size.height }),
        d.is_face_of(f.clock_circle_coords, size),
    ensures
        d.ring == (Rect { x: 0, y: 0, width: size.width, height: size.height }),
        d.labels@.len() == 10,
        20 <= d.center_x - d.label_radius,
        d.center_x + d.label_radius + 20 <= size.width,
        20 <= d.center_y - d.label_radius,
        d.center_y + d.label_radius + 20 <= size.height,
        forall|i: int| 0 <= i < 10 ==> (#[trigger] d.labels@[i]).angle == 3600 * i,
{
}

} // verus!
