//! Exact arithmetic for the parabola defined by a focus and a horizontal
//! directrix.
//!
//! For a focus `(fx, fy)` and directrix `dy`, the curve is
//! `y = (x - fx)^2 / (2 (fy - dy)) + (fy + dy) / 2`, i.e. the rational
//! `((x - fx)^2 + (fy - dy)(fy + dy)) / (2 (fy - dy))`. With integer inputs
//! that value is represented exactly as a [`Rat`], sign-normalized so that
//! the denominator is positive. When `fy == dy` the divisor is zero and the
//! curve has no value at any x.

use vstd::prelude::*;

use crate::site::Site;

verus! {

/// An exact rational number `num / den`. Well-formed values keep `den > 0`.
#[derive(Clone, Copy, Debug, PartialEq, Eq, Structural)]
pub struct Rat {
    pub num: i128,
    pub den: i128,
}

impl Rat {
    /// Well-formedness: the denominator is positive, so comparisons against
    /// an integer bound `b` reduce to `num <ordering> b * den`.
    pub open spec fn wf(self) -> bool {
        self.den > 0
    }

    /// `self > b`, as rationals (valid when `self.wf()`).
    pub open spec fn gt_int(self, b: int) -> bool {
        self.num > b * self.den
    }

    /// `self < b`, as rationals (valid when `self.wf()`).
    pub open spec fn lt_int(self, b: int) -> bool {
        self.num < b * self.den
    }

    /// `self == b`, as rationals (valid when `self.wf()`).
    pub open spec fn eq_int(self, b: int) -> bool {
        self.num == b * self.den
    }
}

/// A rational with value exactly the integer `v`.
pub open spec fn rat_int(v: int) -> Rat {
    Rat { num: v as i128, den: 1 }
}

/// Denominator of the closed-form parabola value: `2 (fy - dy)`.
pub open spec fn parabola_den(s: Site) -> int {
    2 * (s.focus_y - s.directrix_y)
}

/// Numerator of the closed-form parabola value at `x`:
/// `(x - fx)^2 + (fy - dy)(fy + dy)`.
pub open spec fn parabola_num(s: Site, x: int) -> int {
    (x - s.focus_x) * (x - s.focus_x)
        + (s.focus_y - s.directrix_y) * (s.focus_y + s.directrix_y)
}

/// Sign-normalized denominator: `|2 (fy - dy)|`, positive whenever the site
/// is not degenerate.
pub open spec fn norm_den(s: Site) -> int {
    if s.focus_y >= s.directrix_y {
        parabola_den(s)
    } else {
        -parabola_den(s)
    }
}

/// Sign-normalized numerator, negated exactly when the denominator was.
pub open spec fn norm_num(s: Site, x: int) -> int {
    if s.focus_y >= s.directrix_y {
        parabola_num(s, x)
    } else {
        -parabola_num(s, x)
    }
}

/// The parabola value at `x` as a sign-normalized exact rational.
pub open spec fn rat_at(s: Site, x: int) -> Rat {
    Rat { num: norm_num(s, x) as i128, den: norm_den(s) as i128 }
}

/// Bound on sample positions for which the fixed-width arithmetic below is
/// exact; it comfortably covers every x the renderer ever samples.
pub open spec fn sample_in_range(x: int) -> bool {
    -0x100_0000_0000 <= x <= 0x100_0000_0000
}

/// The normalized numerator and denominator at an in-range x fit in `i128`
/// with ample margin, so the casts inside `rat_at` do not truncate.
pub proof fn lemma_rat_at_exact(s: Site, x: int)
    requires
        sample_in_range(x),
    ensures
        -0x1_0000_0000_0000_0000_0000_0000 <= norm_num(s, x)
            <= 0x1_0000_0000_0000_0000_0000_0000,
        -0x2_0000_0000 <= norm_den(s) <= 0x2_0000_0000,
        rat_at(s, x).num == norm_num(s, x),
        rat_at(s, x).den == norm_den(s),
{
    let dx = x - s.focus_x;
    assert(-0x101_0000_0000 <= dx <= 0x101_0000_0000);
    assert(dx * dx <= 0x101_0000_0000 * 0x101_0000_0000) by (nonlinear_arith)
        requires
            -0x101_0000_0000 <= dx <= 0x101_0000_0000,
    ;
    assert(dx * dx >= 0) by (nonlinear_arith);
    let d = s.focus_y - s.directrix_y;
    let t = s.focus_y + s.directrix_y;
    assert(-0x1_0000_0000 * 0x1_0000_0000 <= d * t <= 0x1_0000_0000 * 0x1_0000_0000)
        by (nonlinear_arith)
        requires
            -0x1_0000_0000 <= d <= 0x1_0000_0000,
            -0x1_0000_0000 <= t <= 0x1_0000_0000,
    ;
}

/// Computes the exact parabola value at `x` for this site; `None` exactly
/// when the focus lies on the directrix, where the curve is degenerate and
/// has no value.
pub fn sample_y(s: &Site, x: i64) -> (r: Option<Rat>)
    requires
        sample_in_range(x as int),
    ensures
        r is Some <==> s.focus_y != s.directrix_y,
        r is Some ==> r->Some_0 == rat_at(*s, x as int) && r->Some_0.wf(),
{
    if s.focus_y == s.directrix_y {
        return None;
    }
    proof {
        lemma_rat_at_exact(*s, x as int);
    }
    let dx: i128 = (x as i128) - (s.focus_x as i128);
    let d: i128 = (s.focus_y as i128) - (s.directrix_y as i128);
    let t: i128 = (s.focus_y as i128) + (s.directrix_y as i128);
    assert(dx * dx <= 0x101_0000_0000 * 0x101_0000_0000 && dx * dx >= 0) by (nonlinear_arith)
        requires
            -0x101_0000_0000 <= dx <= 0x101_0000_0000,
    ;
    assert(-0x1_0000_0000 * 0x1_0000_0000 <= d * t <= 0x1_0000_0000 * 0x1_0000_0000)
        by (nonlinear_arith)
        requires
            -0x1_0000_0000 <= d <= 0x1_0000_0000,
            -0x1_0000_0000 <= t <= 0x1_0000_0000,
    ;
    let num: i128 = dx * dx + d * t;
    let den: i128 = 2 * d;
    let r = if d > 0 {
        Rat { num, den }
    } else {
        Rat { num: -num, den: -den }
    };
    Some(r)
}

} // verus!
