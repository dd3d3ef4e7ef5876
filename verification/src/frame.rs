use vstd::prelude::*;

verus! {

/// An axis-aligned rectangle of picture cells (the detected face).
#[derive(Clone, Copy, PartialEq, Eq, Debug, Structural)]
pub struct Rect {
    pub x: i32,
    pub y: i32,
    pub width: i32,
    pub height: i32,
}

/// Whether `(x, y)` lies in the rectangle: from its left and top edges
/// inclusive to its right and bottom edges exclusive.
pub open spec fn rect_contains_spec(r: Rect, x: i32, y: i32) -> bool {
    &&& r.x <= x < r.x + r.width
    &&& r.y <= y < r.y + r.height
}

impl Rect {
    /// Whether the cell `(x, y)` lies in the rectangle.
    pub fn contains(&self, x: i32, y: i32) -> (b: bool)
        ensures
            b == rect_contains_spec(*self, x, y),
    {
        let right = self.x as i64 + self.width as i64;
        let bottom = self.y as i64 + self.height as i64;
        x >= self.x && (x as i64) < right && y >= self.y && (y as i64) < bottom
    }
}

/// Whether `(x, y)` lies in the detected face; with no face detected, no cell does.
pub fn face_contains(face: Option<Rect>, x: i32, y: i32) -> (b: bool)
    ensures
        b == match face {
            Some(r) => rect_contains_spec(r, x, y),
            None => false,
        },
{
    match face {
        Some(r) => r.contains(x, y),
        None => false,
    }
}

/// The dark and light pixel counts of a frame, for the status bar.
pub struct FrameCounts {
    dark: u32,
    light: u32,
    total: u32,
}

impl FrameCounts {
    /// Every counted pixel is either dark or light.
    #[verifier::type_invariant]
    spec fn inv(self) -> bool {
        self.dark + self.light == self.total
    }

    /// Number of dark pixels counted.
    pub closed spec fn dark_count(self) -> nat {
        self.dark as nat
    }

    /// Number of light pixels counted.
    pub closed spec fn light_count(self) -> nat {
        self.light as nat
    }

    /// Number of pixels counted.
    pub closed spec fn total_count(self) -> nat {
        self.total as nat
    }

    /// No pixel counted yet.
    pub fn new() -> (c: FrameCounts)
        ensures
            c.dark_count() == 0,
            c.light_count() == 0,
            c.total_count() == 0,
    {
        FrameCounts { dark: 0, light: 0, total: 0 }
    }

    /// Counts one more pixel, as dark or as light.
    pub fn record(&mut self, is_dark: bool)
        requires
            old(self).total_count() < u32::MAX,
        ensures
            final(self).total_count() == old(self).total_count() + 1,
            final(self).dark_count() == old(self).dark_count() + (if is_dark {
                1int
            } else {
                0int
            }),
            final(self).light_count() == old(self).light_count() + (if is_dark {
                0int
            } else {
                1int
            }),
            final(self).dark_count() + final(self).light_count() == final(self).total_count(),
    {
        proof {
            use_type_invariant(&*self);
        }
        if is_dark {
            *self = FrameCounts { dark: self.dark + 1, light: self.light, total: self.total + 1 };
        } else {
            *self = FrameCounts { dark: self.dark, light: self.light + 1, total: self.total + 1 };
        }
    }

    /// The number of dark pixels.
    pub fn dark(&self) -> (n: u32)
        ensures
            n == self.dark_count(),
    {
        self.dark
    }

    /// The number of light pixels.
    pub fn light(&self) -> (n: u32)
        ensures
            n == self.light_count(),
    {
        self.light
    }

    /// The number of pixels counted: every counted pixel is dark or light,
    /// so this is the dark count plus the light count.
    pub fn total(&self) -> (n: u32)
        ensures
            n == self.total_count(),
            n == self.dark_count() + self.light_count(),
    {
        proof {
            use_type_invariant(self);
        }
        self.total
    }
}

/// A cell is in the face rectangle exactly when it is neither left of it,
/// nor above it, nor at or past its right or bottom edge; an empty
/// rectangle holds no cell, and no cell is in the face when none is detected.
pub proof fn lemma_rect_edges(r: Rect, x: i32, y: i32)
    ensures
        x < r.x ==> !rect_contains_spec(r, x, y),
        y < r.y ==> !rect_contains_spec(r, x, y),
        x >= r.x + r.width ==> !rect_contains_spec(r, x, y),
        y >= r.y + r.height ==> !rect_contains_spec(r, x, y),
        r.width <= 0 || r.height <= 0 ==> !rect_contains_spec(r, x, y),
        (r.x <= x && x - r.x < r.width && r.y <= y && y - r.y < r.height) ==> rect_contains_spec(
            r,
            x,
            y,
        ),
{
}

} // verus!
