//! The renderer: one redraw of a site, as an exact list of drawing commands.
//!
//! The curve is sampled at a fixed horizontal step across the clip rectangle
//! (one extra step of margin on each side). A three-state tracing policy
//! decides which samples become the one stroked polyline: tracing begins at
//! the first sample whose height enters the open band `(0, clip.y_max)`,
//! anchored at the most recent out-of-band sample so the line enters from
//! just outside the visible band; once tracing, every sample extends the
//! polyline until the height first leaves the canvas range `[0, height]`,
//! after which no further sample is drawn.

use vstd::prelude::*;

use crate::commands::Cmd;
use crate::parabola::{norm_den, norm_num, rat_at, rat_int, sample_in_range, lemma_rat_at_exact, Rat};
use crate::site::{ClipRect, Site};

verus! {

/// Horizontal distance between two consecutive curve samples.
pub const PARABOLA_X_STEP: i64 = 5;

/// First sampled x: one step left of the clip, never negative.
pub open spec fn start_x(clip: ClipRect) -> int {
    if clip.x_min - 5 >= 0 {
        clip.x_min - 5
    } else {
        0
    }
}

/// Upper bound of the sampled range: one step right of the clip.
pub open spec fn end_x(clip: ClipRect) -> int {
    clip.x_max + 5
}

/// How many x positions are sampled for this clip.
pub open spec fn sample_count(clip: ClipRect) -> int {
    if start_x(clip) > end_x(clip) {
        0
    } else {
        (end_x(clip) - start_x(clip)) / 5 + 1
    }
}

/// The i-th sampled x position for this clip.
pub open spec fn sample_x(clip: ClipRect, i: int) -> int {
    start_x(clip) + 5 * i
}

/// The sample height at `x` lies in the open vertical band `(0, band_max)`,
/// where tracing may begin. Valid when the site is not degenerate.
pub open spec fn in_band(s: Site, x: int, band_max: int) -> bool {
    norm_num(s, x) > 0 && norm_num(s, x) < band_max * norm_den(s)
}

/// The sample height at `x` lies outside the canvas vertical range
/// `[0, height]`, where tracing stops. Valid when the site is not degenerate.
pub open spec fn off_canvas(s: Site, x: int, height: int) -> bool {
    norm_num(s, x) < 0 || norm_num(s, x) > height * norm_den(s)
}

/// The polyline commands the tracing policy emits from sample `x` on, given
/// whether a subpath is already being traced and the most recent out-of-band
/// sample. One recursive step per sample, in ascending x.
pub open spec fn trace(
    s: Site,
    height: int,
    band_max: int,
    x: int,
    end: int,
    rendering: bool,
    prev: Option<(int, Rat)>,
) -> Seq<Cmd>
    decreases end + 5 - x,
{
    if x > end {
        Seq::empty()
    } else if rendering {
        let step = seq![Cmd::LineTo { x: x as i64, y: rat_at(s, x) }];
        if off_canvas(s, x, height) {
            step
        } else {
            step + trace(s, height, band_max, x + 5, end, true, prev)
        }
    } else if in_band(s, x, band_max) {
        let anchor = match prev {
            Some((px, py)) => seq![Cmd::MoveTo { x: px as i64, y: py }],
            None => seq![Cmd::MoveTo { x: x as i64, y: rat_at(s, x) }],
        };
        if off_canvas(s, x, height) {
            anchor
        } else {
            anchor + trace(s, height, band_max, x + 5, end, true, prev)
        }
    } else {
        trace(s, height, band_max, x + 5, end, false, Some((x, rat_at(s, x))))
    }
}

/// Where a subpath that begins at the j-th sample after `x` anchors its
/// initial pen move: at the sample just before it (the most recent
/// out-of-band sample) when there is one, else at the remembered `prev`
/// sample, else at the starting sample itself.
pub open spec fn subpath_anchor(s: Site, x: int, j: int, prev: Option<(int, Rat)>) -> Cmd {
    if j > 0 {
        Cmd::MoveTo { x: (x + 5 * (j - 1)) as i64, y: rat_at(s, x + 5 * (j - 1)) }
    } else {
        match prev {
            Some((px, py)) => Cmd::MoveTo { x: px as i64, y: py },
            None => Cmd::MoveTo { x: x as i64, y: rat_at(s, x) },
        }
    }
}

/// The curve polyline for one redraw: empty when the site is degenerate,
/// otherwise the trace across the sampled range, starting with nothing traced.
pub open spec fn curve_path(s: Site, height: i32, clip: ClipRect) -> Seq<Cmd> {
    if s.focus_y == s.directrix_y {
        Seq::empty()
    } else {
        trace(s, height as int, clip.y_max as int, start_x(clip), end_x(clip), false, None)
    }
}

/// Commands for the focus marker: a small stroked circle at the focus.
pub open spec fn focus_marker_commands(s: Site) -> Seq<Cmd> {
    seq![
        Cmd::SetColor { red: 255, green: 0, blue: 0, alpha: 255 },
        Cmd::NewPath,
        Cmd::Circle { cx: s.focus_x as i64, cy: s.focus_y as i64, radius: 2 },
        Cmd::Stroke,
    ]
}

/// Commands for the directrix: a horizontal line across the full canvas
/// width (deliberately not clipped — it is a reference line).
pub open spec fn directrix_commands(s: Site, width: i32) -> Seq<Cmd> {
    seq![
        Cmd::SetColor { red: 0, green: 0, blue: 0, alpha: 255 },
        Cmd::NewPath,
        Cmd::MoveTo { x: 1, y: rat_int(s.directrix_y as int) },
        Cmd::LineTo { x: width as i64, y: rat_int(s.directrix_y as int) },
        Cmd::Stroke,
    ]
}

/// Commands for the parabola: color, fresh path, traced polyline, stroke.
pub open spec fn curve_commands(s: Site, height: i32, clip: ClipRect) -> Seq<Cmd> {
    seq![
        Cmd::SetColor { red: 0, green: 255, blue: 0, alpha: 255 },
        Cmd::NewPath,
    ] + curve_path(s, height, clip) + seq![Cmd::Stroke]
}

/// Commands for the two fixed-position text labels at the top left.
pub open spec fn label_commands(s: Site) -> Seq<Cmd> {
    seq![
        Cmd::SetColor { red: 0, green: 0, blue: 0, alpha: 255 },
        Cmd::FocusLabel {
            left: 8,
            baseline: 20,
            focus_x: s.focus_x as i64,
            focus_y: s.focus_y as i64,
        },
        Cmd::DirectrixLabel { left: 8, baseline: 34, directrix_y: s.directrix_y as i64 },
    ]
}

/// Everything one redraw of a site emits, in order.
pub open spec fn draw_commands(s: Site, width: i32, height: i32, clip: ClipRect) -> Seq<Cmd> {
    focus_marker_commands(s) + directrix_commands(s, width) + curve_commands(s, height, clip)
        + label_commands(s)
}

/// Maps the executable tracing state to the spec-level one.
pub open spec fn prev_as_int(prev: Option<(i64, Rat)>) -> Option<(int, Rat)> {
    match prev {
        None => None,
        Some((px, py)) => Some((px as int, py)),
    }
}

/// Lists every x position the renderer samples for this clip, in ascending
/// order: from `start_x` up to `end_x` inclusive, stepping by
/// `PARABOLA_X_STEP`.
pub fn sample_positions(clip: &ClipRect) -> (xs: Vec<i64>)
    ensures
        xs@.len() == sample_count(*clip),
        forall|i: int| 0 <= i < xs@.len() ==> xs@[i] == sample_x(*clip, i),
{
    let mut xs: Vec<i64> = Vec::new();
    let start: i64 = if clip.x_min >= 5 {
        (clip.x_min - 5) as i64
    } else {
        0
    };
    let end: i64 = clip.x_max as i64 + 5;
    if start > end {
        return xs;
    }
    let mut x: i64 = start;
    while x <= end
        invariant
            start == start_x(*clip),
            end == end_x(*clip),
            start <= x <= end + 5,
            (x - start) % 5 == 0,
            xs@.len() == (x - start) / 5,
            forall|i: int| 0 <= i < xs@.len() ==> xs@[i] == sample_x(*clip, i),
        decreases end + 5 - x,
    {
        proof {
            vstd::arithmetic::div_mod::lemma_fundamental_div_mod(x - start, 5);
        }
        xs.push(x);
        x = x + 5;
    }
    proof {
        vstd::arithmetic::div_mod::lemma_fundamental_div_mod(end_x(*clip) - start_x(*clip), 5);
        vstd::arithmetic::div_mod::lemma_mod_bound(end_x(*clip) - start_x(*clip), 5);
    }
    xs
}

/// Computes one curve sample exactly; callers guarantee a non-degenerate
/// site, so the value exists.
fn sample_rat(s: &Site, x: i64) -> (r: Rat)
    requires
        s.focus_y != s.directrix_y,
        sample_in_range(x as int),
    ensures
        r == rat_at(*s, x as int),
        r.wf(),
{
    let r = crate::parabola::sample_y(s, x);
    match r {
        Some(y) => y,
        None => {
            proof {
                assert(false);
            }
            Rat { num: 0, den: 1 }
        },
    }
}

/// Decides `in_band` and `off_canvas` for one sample, over the exact
/// rational computed by `sample_rat`.
fn classify_sample(s: &Site, x: i64, height: i32, band_max: i32) -> (r: (Rat, bool, bool))
    requires
        s.focus_y != s.directrix_y,
        sample_in_range(x as int),
    ensures
        r.0 == rat_at(*s, x as int),
        r.0.wf(),
        r.1 == in_band(*s, x as int, band_max as int),
        r.2 == off_canvas(*s, x as int, height as int),
{
    let y = sample_rat(s, x);
    proof {
        lemma_rat_at_exact(*s, x as int);
        assert(y.num == norm_num(*s, x as int) && y.den == norm_den(*s));
        assert(-0x2_0000_0000_0000_0000 <= (band_max as int) * (y.den as int)
            <= 0x2_0000_0000_0000_0000) by (nonlinear_arith)
            requires
                -0x2_0000_0000 <= y.den <= 0x2_0000_0000,
                -0x1_0000_0000 <= band_max <= 0x1_0000_0000,
        ;
        assert(-0x2_0000_0000_0000_0000 <= (height as int) * (y.den as int)
            <= 0x2_0000_0000_0000_0000) by (nonlinear_arith)
            requires
                -0x2_0000_0000 <= y.den <= 0x2_0000_0000,
                -0x1_0000_0000 <= height <= 0x1_0000_0000,
        ;
    }
    let band: bool = y.num > 0 && y.num < (band_max as i128) * y.den;
    let off: bool = y.num < 0 || y.num > (height as i128) * y.den;
    (y, band, off)
}

impl Site {
    /// Renders the current directrix-based representation of the site: the
    /// full, exact list of drawing commands for one redraw with canvas size
    /// `width x height` and visible region `clip`.
    pub fn draw(&self, width: i32, height: i32, clip: &ClipRect) -> (cmds: Vec<Cmd>)
        ensures
            cmds@ == draw_commands(*self, width, height, *clip),
    {
        let mut cmds: Vec<Cmd> = Vec::new();
        // the focus marker
        cmds.push(Cmd::SetColor { red: 255, green: 0, blue: 0, alpha: 255 });
        cmds.push(Cmd::NewPath);
        cmds.push(Cmd::Circle { cx: self.focus_x as i64, cy: self.focus_y as i64, radius: 2 });
        cmds.push(Cmd::Stroke);
        // the directrix line, across the full canvas width
        cmds.push(Cmd::SetColor { red: 0, green: 0, blue: 0, alpha: 255 });
        cmds.push(Cmd::NewPath);
        cmds.push(Cmd::MoveTo { x: 1, y: Rat { num: self.directrix_y as i128, den: 1 } });
        cmds.push(Cmd::LineTo {
            x: width as i64,
            y: Rat { num: self.directrix_y as i128, den: 1 },
        });
        cmds.push(Cmd::Stroke);
        // the parabola
        cmds.push(Cmd::SetColor { red: 0, green: 255, blue: 0, alpha: 255 });
        cmds.push(Cmd::NewPath);
        let mut curve = self.curve_path_cmds(height, clip);
        cmds.append(&mut curve);
        cmds.push(Cmd::Stroke);
        // the text labels
        cmds.push(Cmd::SetColor { red: 0, green: 0, blue: 0, alpha: 255 });
        cmds.push(Cmd::FocusLabel {
            left: 8,
            baseline: 20,
            focus_x: self.focus_x as i64,
            focus_y: self.focus_y as i64,
        });
        cmds.push(Cmd::DirectrixLabel {
            left: 8,
            baseline: 34,
            directrix_y: self.directrix_y as i64,
        });
        proof {
            assert(cmds@ =~= draw_commands(*self, width, height, *clip));
        }
        cmds
    }

    /// The traced polyline alone, as `curve_path` describes it.
    fn curve_path_cmds(&self, height: i32, clip: &ClipRect) -> (out: Vec<Cmd>)
        ensures
            out@ == curve_path(*self, height, *clip),
    {
        let mut out: Vec<Cmd> = Vec::new();
        if self.focus_y == self.directrix_y {
            proof {
                assert(out@ =~= curve_path(*self, height, *clip));
            }
            return out;
        }
        let start: i64 = if clip.x_min >= 5 {
            (clip.x_min - 5) as i64
        } else {
            0
        };
        let end: i64 = clip.x_max as i64 + 5;
        assert(start == start_x(*clip) && end == end_x(*clip));
        let mut x: i64 = start;
        let mut rendering: bool = false;
        let mut prev: Option<(i64, Rat)> = None;
        let ghost whole = curve_path(*self, height, *clip);
        while x <= end
            invariant_except_break
                self.focus_y != self.directrix_y,
                end == end_x(*clip),
                0 <= x,
                whole == curve_path(*self, height, *clip),
                whole == out@ + trace(
                    *self,
                    height as int,
                    clip.y_max as int,
                    x as int,
                    end as int,
                    rendering,
                    prev_as_int(prev),
                ),
            ensures
                out@ == whole,
            decreases end + 5 - x,
        {
            let (y, band, off) = classify_sample(self, x, height, clip.y_max);
            if rendering {
                out.push(Cmd::LineTo { x, y });
                if off {
                    break;
                }
            } else if band {
                match prev {
                    Some((px, py)) => out.push(Cmd::MoveTo { x: px, y: py }),
                    None => out.push(Cmd::MoveTo { x, y }),
                }
                rendering = true;
                if off {
                    break;
                }
            } else {
                prev = Some((x, y));
            }
            x = x + 5;
        }
        out
    }
}

} // verus!
