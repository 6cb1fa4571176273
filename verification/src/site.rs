//! The mutable state of the visualization: one site (focus and directrix),
//! plus the per-draw clip rectangle handed in by the UI layer.

use vstd::prelude::*;

verus! {

/// A Voronoi site in the directrix construction: the parabola's focus point
/// and the y coordinate of the horizontal directrix line.
///
/// No invariant is enforced: `focus_y == directrix_y` is allowed and makes
/// the parabola degenerate (the renderer then draws no curve).
#[derive(Clone, Copy, Debug, PartialEq, Eq, Structural)]
pub struct Site {
    pub focus_x: i32,
    pub focus_y: i32,
    pub directrix_y: i32,
}

/// The currently visible region of the canvas, as supplied per draw call.
/// It may be smaller than the canvas, e.g. during a partial repaint.
#[derive(Clone, Copy, Debug, PartialEq, Eq, Structural)]
pub struct ClipRect {
    pub x_min: i32,
    pub y_min: i32,
    pub x_max: i32,
    pub y_max: i32,
}

impl Site {
    /// Builds a site from its three coordinates.
    pub fn new(focus_x: i32, focus_y: i32, directrix_y: i32) -> (s: Site)
        ensures
            s.focus_x == focus_x,
            s.focus_y == focus_y,
            s.directrix_y == directrix_y,
    {
        Site { focus_x, focus_y, directrix_y }
    }

    /// Overwrites the focus; the directrix is untouched.
    pub fn set_focus(&mut self, x: i32, y: i32)
        ensures
            final(self).focus_x == x,
            final(self).focus_y == y,
            final(self).directrix_y == old(self).directrix_y,
    {
        self.focus_x = x;
        self.focus_y = y;
    }

    /// Overwrites the directrix y coordinate; the focus is untouched.
    pub fn set_directrix(&mut self, y: i32)
        ensures
            final(self).directrix_y == y,
            final(self).focus_x == old(self).focus_x,
            final(self).focus_y == old(self).focus_y,
    {
        self.directrix_y = y;
    }
}

} // verus!
