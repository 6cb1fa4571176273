use directrix::commands::Cmd;
use directrix::parabola::{sample_y, Rat};
use directrix::render::{sample_positions, PARABOLA_X_STEP};
use directrix::site::{ClipRect, Site};

fn clip(x_min: i32, y_min: i32, x_max: i32, y_max: i32) -> ClipRect {
    ClipRect { x_min, y_min, x_max, y_max }
}

/// The slice of one redraw's commands that holds the traced curve polyline:
/// everything between the curve's NewPath and its Stroke.
fn curve_slice(cmds: &[Cmd]) -> &[Cmd] {
    assert_eq!(cmds[10], Cmd::NewPath);
    assert_eq!(cmds[cmds.len() - 4], Cmd::Stroke);
    &cmds[11..cmds.len() - 4]
}

#[test]
fn parabola_value_matches_closed_form() {
    // focus (300, 200), directrix 260: at x = 300 the value is (200+260)/2 = 230
    let s: Site = Site::new(300, 200, 260);
    let y: Rat = sample_y(&s, 300).unwrap();
    assert!(y.den > 0);
    assert_eq!(y.num, 230 * y.den);
    // at x = 310: 100 / (2 * -60) + 230 = 230 - 5/6 = 1375/6
    let y: Rat = sample_y(&s, 310).unwrap();
    assert_eq!(y.num * 6, 1375 * y.den);
    // an upward-opening pair as well: focus (0, 10), directrix 0: y = x^2/20 + 5
    let s: Site = Site::new(0, 10, 0);
    let y: Rat = sample_y(&s, 10).unwrap();
    assert_eq!(y.num, 10 * y.den);
}

#[test]
fn degenerate_site_has_no_value() {
    let s: Site = Site::new(300, 200, 200);
    assert_eq!(sample_y(&s, 0), None);
    assert_eq!(sample_y(&s, 300), None);
}

#[test]
fn sampling_bounds() {
    // for clip (50, 0, 550, 400) the first sampled x is 45 and the last lies
    // in (550, 555]
    let xs: Vec<i64> = sample_positions(&clip(50, 0, 550, 400));
    assert_eq!(xs[0], 45);
    let last: i64 = xs[xs.len() - 1];
    assert!(last > 550 && last <= 550 + PARABOLA_X_STEP);
    for i in 0..xs.len() - 1 {
        assert_eq!(xs[i + 1] - xs[i], PARABOLA_X_STEP);
    }
    // near the left canvas edge the start clamps to zero
    let xs: Vec<i64> = sample_positions(&clip(3, 0, 20, 40));
    assert_eq!(xs[0], 0);
}

#[test]
fn subpath_starts_and_stops() {
    // focus (150, 50), directrix 150: y = (20000 - (x-150)^2) / 200.
    // Within clip (0, 0, 300, 400) on a 600x400 canvas, y first enters
    // (0, 400) at x = 10 and first leaves the canvas (y < 0) at x = 295.
    let s: Site = Site::new(150, 50, 150);
    let cmds: Vec<Cmd> = s.draw(600, 400, &clip(0, 0, 300, 400));
    let curve: &[Cmd] = curve_slice(&cmds);
    // the subpath begins at the first in-band sample, anchored at the
    // previous (out-of-band) sample x = 5
    assert_eq!(curve[0], Cmd::MoveTo { x: 5, y: Rat { num: -1025, den: 200 } });
    // tracing then extends from the following sample on
    assert_eq!(curve[1], Cmd::LineTo { x: 15, y: Rat { num: 1775, den: 200 } });
    // every later sample extends the line, to the first off-canvas sample
    for (i, cmd) in curve.iter().enumerate().skip(1) {
        let x: i64 = 15 + 5 * (i as i64 - 1);
        let num: i128 = 20000 - ((x as i128) - 150) * ((x as i128) - 150);
        assert_eq!(*cmd, Cmd::LineTo { x, y: Rat { num, den: 200 } });
    }
    // it stops exactly at x = 295, though sampling runs to 305
    assert_eq!(curve[curve.len() - 1], Cmd::LineTo { x: 295, y: Rat { num: -1025, den: 200 } });
    assert_eq!(curve.len(), 58);
}

#[test]
fn subpath_starts_at_first_sample_without_anchor() {
    // focus (100, 50), directrix 150: y = (20000 - (x-100)^2) / 200 is
    // already in band at the very first sample x = 0, so the pen moves to
    // that sample itself.
    let s: Site = Site::new(100, 50, 150);
    let cmds: Vec<Cmd> = s.draw(600, 400, &clip(0, 0, 200, 400));
    let curve: &[Cmd] = curve_slice(&cmds);
    assert_eq!(curve[0], Cmd::MoveTo { x: 0, y: Rat { num: 10000, den: 200 } });
    assert_eq!(curve[1], Cmd::LineTo { x: 5, y: Rat { num: 10975, den: 200 } });
    // no sample in 0..=205 leaves the canvas, so the polyline runs through
    // every remaining sample to the last one
    assert_eq!(curve.len(), 42);
    assert_eq!(curve[curve.len() - 1], Cmd::LineTo { x: 205, y: Rat { num: 8975, den: 200 } });
}

#[test]
fn curve_that_never_enters_band_is_empty() {
    // focus (150, 350), directrix 250: y = (x-150)^2/200 + 300 never drops
    // below 300, so with clip.y_max = 200 no sample enters the band
    let s: Site = Site::new(150, 350, 250);
    let cmds: Vec<Cmd> = s.draw(600, 400, &clip(0, 0, 300, 200));
    let curve: &[Cmd] = curve_slice(&cmds);
    assert_eq!(curve.len(), 0);
}

#[test]
fn degenerate_site_draws_no_curve() {
    // focus on the directrix: no crash, and no curve segment at all
    let s: Site = Site::new(100, 100, 100);
    let cmds: Vec<Cmd> = s.draw(600, 400, &clip(0, 0, 600, 400));
    let curve: &[Cmd] = curve_slice(&cmds);
    assert_eq!(curve.len(), 0);
    assert_eq!(cmds.len(), 15);
}

#[test]
fn redraw_is_idempotent() {
    let s: Site = Site::new(300, 200, 260);
    let c: ClipRect = clip(50, 0, 550, 400);
    let first: Vec<Cmd> = s.draw(600, 400, &c);
    let second: Vec<Cmd> = s.draw(600, 400, &c);
    assert_eq!(first, second);
}

#[test]
fn marker_directrix_and_labels() {
    let s: Site = Site::new(300, 200, 210);
    let cmds: Vec<Cmd> = s.draw(600, 400, &clip(0, 0, 600, 400));
    // the focus marker: a stroked circle of radius 2 at the focus
    assert_eq!(cmds[2], Cmd::Circle { cx: 300, cy: 200, radius: 2 });
    assert_eq!(cmds[3], Cmd::Stroke);
    // the directrix: a horizontal line from x = 1 to the full canvas width
    assert_eq!(cmds[6], Cmd::MoveTo { x: 1, y: Rat { num: 210, den: 1 } });
    assert_eq!(cmds[7], Cmd::LineTo { x: 600, y: Rat { num: 210, den: 1 } });
    // the two fixed-position labels at the top left
    let n: usize = cmds.len();
    assert_eq!(cmds[n - 2], Cmd::FocusLabel { left: 8, baseline: 20, focus_x: 300, focus_y: 200 });
    assert_eq!(cmds[n - 1], Cmd::DirectrixLabel { left: 8, baseline: 34, directrix_y: 210 });
}

#[test]
fn mutators_touch_only_their_fields() {
    let mut s: Site = Site::new(300, 200, 210);
    s.set_focus(7, -9);
    assert_eq!((s.focus_x, s.focus_y, s.directrix_y), (7, -9, 210));
    s.set_directrix(123);
    assert_eq!((s.focus_x, s.focus_y, s.directrix_y), (7, -9, 123));
}

#[test]
fn pointer_events_end_to_end() {
    // starting state: focus (300, 200), directrix 210, canvas 600x400
    let mut s: Site = Site::new(300, 200, 210);
    // pointer release at (100, 50) overwrites the focus only
    s.set_focus(100, 50);
    assert_eq!((s.focus_x, s.focus_y), (100, 50));
    assert_eq!(s.directrix_y, 210);
    // pointer move at y = 350 overwrites the directrix only
    s.set_directrix(350);
    assert_eq!(s.directrix_y, 350);
    assert_eq!((s.focus_x, s.focus_y), (100, 50));
}
