//! The drawing commands one redraw emits.
//!
//! The renderer does not touch a surface itself: it returns the exact list of
//! commands a surface should execute, in order. The UI layer replays them on
//! its 2D context and may ignore individual drawing failures (best-effort
//! visualization), which cannot change what the rest of the list asks for.

use vstd::prelude::*;

use crate::parabola::Rat;

verus! {

/// One drawing command. Coordinates are integers except for curve heights,
/// which are exact rationals.
#[derive(Clone, Copy, Debug, PartialEq, Eq, Structural)]
pub enum Cmd {
    /// Select the stroke color, channels in 0..=255.
    SetColor { red: u8, green: u8, blue: u8, alpha: u8 },
    /// Discard the current path and start a new, empty one.
    NewPath,
    /// Add a full circle centered at `(cx, cy)` to the current path.
    Circle { cx: i64, cy: i64, radius: i64 },
    /// Move the pen to `(x, y)` without drawing.
    MoveTo { x: i64, y: Rat },
    /// Extend the current subpath with a line to `(x, y)`.
    LineTo { x: i64, y: Rat },
    /// Stroke the current path.
    Stroke,
    /// Draw the focus label at `(left, baseline)`, showing the focus coordinates.
    FocusLabel { left: i64, baseline: i64, focus_x: i64, focus_y: i64 },
    /// Draw the directrix label at `(left, baseline)`, showing the directrix y.
    DirectrixLabel { left: i64, baseline: i64, directrix_y: i64 },
}

} // verus!
