//! The general guarantees of the renderer, each stated and proved once over
//! the spec functions the executable contracts use.

use vstd::prelude::*;

use crate::commands::Cmd;
use crate::parabola::{norm_den, norm_num, parabola_den, parabola_num, rat_at, Rat};
use crate::render::{
    curve_path, draw_commands, end_x, in_band, off_canvas, sample_count, sample_x, start_x,
    subpath_anchor, trace,
};
use crate::site::{ClipRect, Site};

verus! {

/// At every x, the sign-normalized rational the renderer computes equals the
/// closed-form parabola-from-focus-and-directrix value
/// `((x - fx)^2 + (fy - dy)(fy + dy)) / (2 (fy - dy))`, as rationals.
pub proof fn lemma_sample_matches_closed_form(s: Site, x: int)
    requires
        s.focus_y != s.directrix_y,
    ensures
        norm_den(s) > 0,
        norm_num(s, x) * parabola_den(s) == parabola_num(s, x) * norm_den(s),
{
    if s.focus_y < s.directrix_y {
        let n = parabola_num(s, x);
        let d = parabola_den(s);
        assert((-n) * d == n * (-d)) by (nonlinear_arith);
    }
}

/// Sampling bounds: for a clip with a sane horizontal range, the first
/// sampled x is `max(clip.x_min - 5, 0)` and the last lies one step at most
/// past the clip: strictly greater than `clip.x_max` and at most
/// `clip.x_max + 5`.
pub proof fn lemma_sampling_bounds(clip: ClipRect)
    requires
        clip.x_min <= clip.x_max,
        0 <= clip.x_max,
    ensures
        sample_count(clip) >= 1,
        sample_x(clip, 0) == if clip.x_min - 5 >= 0 { clip.x_min - 5 } else { 0 },
        sample_x(clip, sample_count(clip) - 1) > clip.x_max,
        sample_x(clip, sample_count(clip) - 1) <= clip.x_max + 5,
{
    let span = end_x(clip) - start_x(clip);
    assert(span >= 5);
    vstd::arithmetic::div_mod::lemma_fundamental_div_mod(span, 5);
    vstd::arithmetic::div_mod::lemma_mod_bound(span, 5);
    assert(sample_x(clip, sample_count(clip) - 1) == end_x(clip) - span % 5);
}

/// Degenerate input: when the focus lies on the directrix, the traced curve
/// is empty — the redraw strokes no curve segment at all, for any clip.
pub proof fn lemma_degenerate_site_draws_no_curve(s: Site, height: i32, clip: ClipRect)
    requires
        s.focus_y == s.directrix_y,
    ensures
        curve_path(s, height, clip) == Seq::<Cmd>::empty(),
{
}

/// Once a subpath is being traced, the remembered out-of-band sample no
/// longer matters: the trace emits the same commands whatever it holds.
pub proof fn lemma_trace_ignores_prev_while_tracing(
    s: Site,
    height: int,
    band_max: int,
    x: int,
    end: int,
    p1: Option<(int, Rat)>,
    p2: Option<(int, Rat)>,
)
    ensures
        trace(s, height, band_max, x, end, true, p1) == trace(s, height, band_max, x, end, true, p2),
    decreases end + 5 - x,
{
    if x <= end && !off_canvas(s, x, height) {
        lemma_trace_ignores_prev_while_tracing(s, height, band_max, x + 5, end, p1, p2);
    }
}

/// While a subpath is being traced, every sample extends it with one line,
/// up to and including the first sample whose height leaves the canvas
/// range; nothing at all is emitted after that sample.
pub proof fn lemma_tracing_extends_to_first_off_canvas(
    s: Site,
    height: int,
    band_max: int,
    x: int,
    end: int,
    j: nat,
    prev: Option<(int, Rat)>,
)
    requires
        x + 5 * j <= end,
        off_canvas(s, x + 5 * j, height),
        forall|i: int| 0 <= i < j ==> !(#[trigger] off_canvas(s, x + 5 * i, height)),
    ensures
        trace(s, height, band_max, x, end, true, prev) == Seq::new(
            j + 1,
            |i: int| Cmd::LineTo { x: (x + 5 * i) as i64, y: rat_at(s, x + 5 * i) },
        ),
    decreases j,
{
    let f = |i: int| Cmd::LineTo { x: (x + 5 * i) as i64, y: rat_at(s, x + 5 * i) };
    if j == 0 {
        assert(off_canvas(s, x, height));
        assert(trace(s, height, band_max, x, end, true, prev) =~= Seq::new(1, f));
    } else {
        assert(!off_canvas(s, x + 5 * 0, height));
        assert forall|i: int| 0 <= i < j - 1 implies !(#[trigger] off_canvas(s, (x + 5) + 5 * i, height)) by {
            assert((x + 5) + 5 * i == x + 5 * (i + 1));
            assert(!off_canvas(s, x + 5 * (i + 1), height));
        }
        assert((x + 5) + 5 * (j - 1) == x + 5 * j);
        lemma_tracing_extends_to_first_off_canvas(
            s,
            height,
            band_max,
            x + 5,
            end,
            (j - 1) as nat,
            prev,
        );
        let g = |i: int| Cmd::LineTo { x: ((x + 5) + 5 * i) as i64, y: rat_at(s, (x + 5) + 5 * i) };
        assert(trace(s, height, band_max, x + 5, end, true, prev) == Seq::new(j, g));
        assert forall|i: int| 0 <= i < j + 1 implies #[trigger] (seq![f(0)] + Seq::new(j, g))[i] == f(i) by {
            if i > 0 {
                assert((x + 5) + 5 * (i - 1) == x + 5 * i);
            }
        }
        assert(trace(s, height, band_max, x, end, true, prev) =~= Seq::new(j + 1, f));
    }
}

/// Before any subpath exists, samples are only remembered, until the first
/// sample whose height enters the open band: there the subpath begins, with
/// one pen move to its anchor, and tracing takes over.
pub proof fn lemma_search_starts_at_first_in_band(
    s: Site,
    height: int,
    band_max: int,
    x: int,
    end: int,
    j: nat,
    prev: Option<(int, Rat)>,
)
    requires
        x + 5 * j <= end,
        in_band(s, x + 5 * j, band_max),
        forall|i: int| 0 <= i < j ==> !(#[trigger] in_band(s, x + 5 * i, band_max)),
    ensures
        trace(s, height, band_max, x, end, false, prev) == seq![
            subpath_anchor(s, x, j as int, prev),
        ] + if off_canvas(s, x + 5 * j, height) {
            Seq::<Cmd>::empty()
        } else {
            trace(s, height, band_max, x + 5 * j + 5, end, true, None)
        },
    decreases j,
{
    if j == 0 {
        assert(in_band(s, x, band_max));
        if off_canvas(s, x, height) {
            assert(trace(s, height, band_max, x, end, false, prev) =~= seq![
                subpath_anchor(s, x, 0, prev),
            ] + Seq::<Cmd>::empty());
        } else {
            lemma_trace_ignores_prev_while_tracing(s, height, band_max, x + 5, end, prev, None);
        }
    } else {
        assert(!in_band(s, x + 5 * 0, band_max));
        assert(!in_band(s, x, band_max));
        assert forall|i: int| 0 <= i < j - 1 implies !(#[trigger] in_band(s, (x + 5) + 5 * i, band_max)) by {
            assert((x + 5) + 5 * i == x + 5 * (i + 1));
            assert(!in_band(s, x + 5 * (i + 1), band_max));
        }
        assert((x + 5) + 5 * (j - 1) == x + 5 * j);
        let remembered = Some((x, rat_at(s, x)));
        lemma_search_starts_at_first_in_band(
            s,
            height,
            band_max,
            x + 5,
            end,
            (j - 1) as nat,
            remembered,
        );
        assert(subpath_anchor(s, x + 5, j - 1, remembered) == subpath_anchor(s, x, j as int, prev));
        assert((x + 5) + 5 * (j - 1) + 5 == x + 5 * j + 5);
    }
}

/// While a subpath is being traced and no remaining sample's height leaves
/// the canvas range, every remaining sample extends it with one line.
pub proof fn lemma_tracing_runs_to_last_sample(
    s: Site,
    height: int,
    band_max: int,
    x: int,
    end: int,
    j: nat,
    prev: Option<(int, Rat)>,
)
    requires
        x + 5 * j <= end,
        end < x + 5 * j + 5,
        forall|i: int| 0 <= i <= j ==> !(#[trigger] off_canvas(s, x + 5 * i, height)),
    ensures
        trace(s, height, band_max, x, end, true, prev) == Seq::new(
            j + 1,
            |i: int| Cmd::LineTo { x: (x + 5 * i) as i64, y: rat_at(s, x + 5 * i) },
        ),
    decreases j,
{
    let f = |i: int| Cmd::LineTo { x: (x + 5 * i) as i64, y: rat_at(s, x + 5 * i) };
    assert(!off_canvas(s, x + 5 * 0, height));
    if j == 0 {
        assert(trace(s, height, band_max, x + 5, end, true, prev) =~= Seq::<Cmd>::empty());
        assert(trace(s, height, band_max, x, end, true, prev) =~= Seq::new(1, f));
    } else {
        assert forall|i: int| 0 <= i <= j - 1 implies !(#[trigger] off_canvas(
            s,
            (x + 5) + 5 * i,
            height,
        )) by {
            assert((x + 5) + 5 * i == x + 5 * (i + 1));
            assert(!off_canvas(s, x + 5 * (i + 1), height));
        }
        assert((x + 5) + 5 * (j - 1) == x + 5 * j);
        lemma_tracing_runs_to_last_sample(s, height, band_max, x + 5, end, (j - 1) as nat, prev);
        let g = |i: int| Cmd::LineTo { x: ((x + 5) + 5 * i) as i64, y: rat_at(s, (x + 5) + 5 * i) };
        assert(trace(s, height, band_max, x + 5, end, true, prev) == Seq::new(j, g));
        assert forall|i: int| 0 <= i < j + 1 implies #[trigger] (seq![f(0)] + Seq::new(j, g))[i]
            == f(i) by {
            if i > 0 {
                assert((x + 5) + 5 * (i - 1) == x + 5 * i);
            }
        }
        assert(trace(s, height, band_max, x, end, true, prev) =~= Seq::new(j + 1, f));
    }
}

/// When no remaining sample's height enters the open band, no subpath ever
/// begins and nothing is emitted.
pub proof fn lemma_search_never_starts(
    s: Site,
    height: int,
    band_max: int,
    x: int,
    end: int,
    j: nat,
    prev: Option<(int, Rat)>,
)
    requires
        x + 5 * j <= end,
        end < x + 5 * j + 5,
        forall|i: int| 0 <= i <= j ==> !(#[trigger] in_band(s, x + 5 * i, band_max)),
    ensures
        trace(s, height, band_max, x, end, false, prev) == Seq::<Cmd>::empty(),
    decreases j,
{
    assert(!in_band(s, x + 5 * 0, band_max));
    assert(!in_band(s, x, band_max));
    if j == 0 {
        assert(trace(s, height, band_max, x + 5, end, false, Some((x, rat_at(s, x))))
            =~= Seq::<Cmd>::empty());
    } else {
        assert forall|i: int| 0 <= i <= j - 1 implies !(#[trigger] in_band(
            s,
            (x + 5) + 5 * i,
            band_max,
        )) by {
            assert((x + 5) + 5 * i == x + 5 * (i + 1));
            assert(!in_band(s, x + 5 * (i + 1), band_max));
        }
        assert((x + 5) + 5 * (j - 1) == x + 5 * j);
        lemma_search_never_starts(
            s,
            height,
            band_max,
            x + 5,
            end,
            (j - 1) as nat,
            Some((x, rat_at(s, x))),
        );
    }
}

/// The index of the last sample: one less than the sample count, and the
/// only index whose sample lies within one step of `end_x`.
proof fn lemma_last_sample_index(clip: ClipRect)
    requires
        start_x(clip) <= end_x(clip),
    ensures
        sample_count(clip) >= 1,
        start_x(clip) + 5 * (sample_count(clip) - 1) <= end_x(clip),
        end_x(clip) < start_x(clip) + 5 * (sample_count(clip) - 1) + 5,
{
    let span = end_x(clip) - start_x(clip);
    vstd::arithmetic::div_mod::lemma_fundamental_div_mod(span, 5);
    vstd::arithmetic::div_mod::lemma_mod_bound(span, 5);
}

/// When no sample's height enters the open band `(0, clip.y_max)`, the
/// redraw strokes no curve segment at all.
pub proof fn lemma_curve_empty_when_band_never_entered(s: Site, height: i32, clip: ClipRect)
    requires
        s.focus_y != s.directrix_y,
        start_x(clip) <= end_x(clip),
        forall|i: int|
            0 <= i < sample_count(clip) ==> !in_band(
                s,
                #[trigger] sample_x(clip, i),
                clip.y_max as int,
            ),
    ensures
        curve_path(s, height, clip) == Seq::<Cmd>::empty(),
{
    lemma_last_sample_index(clip);
    let j = (sample_count(clip) - 1) as nat;
    let st = start_x(clip);
    assert forall|i: int| 0 <= i <= j implies !(#[trigger] in_band(
        s,
        st + 5 * i,
        clip.y_max as int,
    )) by {
        assert(st + 5 * i == sample_x(clip, i));
    }
    lemma_search_never_starts(s, height as int, clip.y_max as int, st, end_x(clip), j, None);
}

/// When the subpath begins and no later sample's height leaves the canvas
/// range, the polyline runs through every remaining sample to the last one.
pub proof fn lemma_subpath_runs_to_last_sample(s: Site, height: i32, clip: ClipRect, jf: nat)
    requires
        s.focus_y != s.directrix_y,
        jf < sample_count(clip),
        in_band(s, sample_x(clip, jf as int), clip.y_max as int),
        forall|i: int| 0 <= i < jf ==> !in_band(s, #[trigger] sample_x(clip, i), clip.y_max as int),
        forall|i: int|
            jf <= i < sample_count(clip) ==> !off_canvas(
                s,
                #[trigger] sample_x(clip, i),
                height as int,
            ),
    ensures
        curve_path(s, height, clip) == seq![
            subpath_anchor(s, start_x(clip), jf as int, None),
        ] + Seq::new(
            (sample_count(clip) - 1 - jf) as nat,
            |i: int| Cmd::LineTo {
                x: sample_x(clip, jf + 1 + i) as i64,
                y: rat_at(s, sample_x(clip, jf + 1 + i)),
            },
        ),
{
    let st = start_x(clip);
    let band_max = clip.y_max as int;
    let h = height as int;
    let last = sample_count(clip) - 1;
    assert(start_x(clip) <= end_x(clip));
    lemma_last_sample_index(clip);
    assert(st + 5 * jf == sample_x(clip, jf as int));
    assert(st + 5 * jf <= st + 5 * last) by (nonlinear_arith)
        requires
            jf <= last,
    ;
    assert forall|i: int| 0 <= i < jf implies !(#[trigger] in_band(s, st + 5 * i, band_max)) by {
        assert(st + 5 * i == sample_x(clip, i));
    }
    lemma_search_starts_at_first_in_band(s, h, band_max, st, end_x(clip), jf, None);
    assert(!off_canvas(s, sample_x(clip, jf as int), h));
    assert(!off_canvas(s, st + 5 * jf, h));
    let target = |i: int| Cmd::LineTo {
        x: sample_x(clip, jf + 1 + i) as i64,
        y: rat_at(s, sample_x(clip, jf + 1 + i)),
    };
    if jf == last {
        assert(end_x(clip) < st + 5 * jf + 5);
        assert(curve_path(s, height, clip) =~= seq![subpath_anchor(s, st, jf as int, None)]
            + Seq::new((last - jf) as nat, target));
    } else {
        let x1 = st + 5 * jf + 5;
        let j1 = (last - jf - 1) as nat;
        assert(x1 + 5 * j1 == st + 5 * last);
        assert forall|i: int| 0 <= i <= j1 implies !(#[trigger] off_canvas(s, x1 + 5 * i, h)) by {
            assert(x1 + 5 * i == sample_x(clip, jf + 1 + i));
            assert(jf <= jf + 1 + i < sample_count(clip));
            assert(!off_canvas(s, sample_x(clip, jf + 1 + i), h));
        }
        lemma_tracing_runs_to_last_sample(s, h, band_max, x1, end_x(clip), j1, None);
        let g = |i: int| Cmd::LineTo { x: (x1 + 5 * i) as i64, y: rat_at(s, x1 + 5 * i) };
        assert forall|i: int| 0 <= i < last - jf implies #[trigger] g(i) == target(i) by {
            assert(x1 + 5 * i == sample_x(clip, jf + 1 + i));
        }
        assert(Seq::new((last - jf) as nat, g) =~= Seq::new((last - jf) as nat, target));
        assert(curve_path(s, height, clip) =~= seq![subpath_anchor(s, st, jf as int, None)]
            + Seq::new((last - jf) as nat, target));
    }
}

/// Subpath start and stop: when some sample's height enters the open band
/// `(0, clip.y_max)` and a later sample's height leaves the canvas range,
/// the traced subpath begins exactly at the first in-band sample — one pen
/// move to the prior out-of-band sample when there is one, else to that
/// sample itself — extends through every following sample, and stops
/// irrevocably at the first off-canvas sample: no further sample is drawn,
/// even where the curve would re-enter the visible range.
pub proof fn lemma_subpath_start_and_stop(s: Site, height: i32, clip: ClipRect, jf: nat, jo: nat)
    requires
        s.focus_y != s.directrix_y,
        jf <= jo,
        sample_x(clip, jo as int) <= end_x(clip),
        in_band(s, sample_x(clip, jf as int), clip.y_max as int),
        forall|i: int| 0 <= i < jf ==> !in_band(s, #[trigger] sample_x(clip, i), clip.y_max as int),
        off_canvas(s, sample_x(clip, jo as int), height as int),
        forall|i: int| jf <= i < jo ==> !off_canvas(s, #[trigger] sample_x(clip, i), height as int),
    ensures
        curve_path(s, height, clip) == seq![
            subpath_anchor(s, start_x(clip), jf as int, None),
        ] + Seq::new(
            (jo - jf) as nat,
            |i: int| Cmd::LineTo {
                x: sample_x(clip, jf + 1 + i) as i64,
                y: rat_at(s, sample_x(clip, jf + 1 + i)),
            },
        ),
{
    let st = start_x(clip);
    let band_max = clip.y_max as int;
    let h = height as int;
    assert(st + 5 * jf == sample_x(clip, jf as int));
    assert(st + 5 * jf <= st + 5 * jo) by (nonlinear_arith)
        requires
            jf <= jo,
    ;
    assert forall|i: int| 0 <= i < jf implies !(#[trigger] in_band(s, st + 5 * i, band_max)) by {
        assert(st + 5 * i == sample_x(clip, i));
    }
    lemma_search_starts_at_first_in_band(s, h, band_max, st, end_x(clip), jf, None);
    if jo == jf {
        assert(off_canvas(s, st + 5 * jf, h));
        assert(curve_path(s, height, clip) =~= seq![subpath_anchor(s, st, jf as int, None)]
            + Seq::new(
            (jo - jf) as nat,
            |i: int| Cmd::LineTo {
                x: sample_x(clip, jf + 1 + i) as i64,
                y: rat_at(s, sample_x(clip, jf + 1 + i)),
            },
        ));
    } else {
        assert(!off_canvas(s, sample_x(clip, jf as int), h));
        assert(!off_canvas(s, st + 5 * jf, h));
        let x1 = st + 5 * jf + 5;
        assert(x1 + 5 * ((jo - jf - 1) as nat) == sample_x(clip, jo as int));
        assert(off_canvas(s, x1 + 5 * ((jo - jf - 1) as nat), h));
        assert forall|i: int| 0 <= i < jo - jf - 1 implies !(#[trigger] off_canvas(s, x1 + 5 * i, h)) by {
            assert(x1 + 5 * i == sample_x(clip, jf + 1 + i));
            assert(jf <= jf + 1 + i < jo);
            assert(!off_canvas(s, sample_x(clip, jf + 1 + i), h));
        }
        lemma_tracing_extends_to_first_off_canvas(
            s,
            h,
            band_max,
            x1,
            end_x(clip),
            (jo - jf - 1) as nat,
            None,
        );
        let g = |i: int| Cmd::LineTo { x: (x1 + 5 * i) as i64, y: rat_at(s, x1 + 5 * i) };
        let target = |i: int| Cmd::LineTo {
            x: sample_x(clip, jf + 1 + i) as i64,
            y: rat_at(s, sample_x(clip, jf + 1 + i)),
        };
        assert forall|i: int| 0 <= i < jo - jf implies #[trigger] g(i) == target(i) by {
            assert(x1 + 5 * i == sample_x(clip, jf + 1 + i));
        }
        assert(Seq::new((jo - jf) as nat, g) =~= Seq::new((jo - jf) as nat, target));
        assert(curve_path(s, height, clip) =~= seq![subpath_anchor(s, st, jf as int, None)]
            + Seq::new((jo - jf) as nat, target));
    }
}

/// Idempotence: a redraw is a function of site, canvas size and clip alone,
/// so two calls with unchanged inputs emit the same command sequence.
pub proof fn lemma_draw_deterministic(
    a: Seq<Cmd>,
    b: Seq<Cmd>,
    s: Site,
    width: i32,
    height: i32,
    clip: ClipRect,
)
    requires
        a == draw_commands(s, width, height, clip),
        b == draw_commands(s, width, height, clip),
    ensures
        a == b,
{
}

} // verus!

