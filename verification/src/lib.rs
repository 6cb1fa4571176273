//! Interactive visualization core for a single parabola defined by a focus
//! point and a horizontal directrix line — the geometric construction behind
//! Fortune's sweep line for Voronoi diagrams.
//!
//! The library computes, exactly, which drawing commands one redraw of a site
//! issues: a small circle at the focus, the directrix as a full-width line,
//! the visible portion of the parabola as one clipped polyline, and two text
//! labels. Coordinates are integers and curve heights are exact rationals, so
//! every decision the renderer takes (where the polyline starts, where it
//! stops) is stated and proved. A thin UI layer replays the command list on an
//! actual drawing surface and feeds pointer events back into the site.

pub mod commands;
pub mod laws;
pub mod parabola;
pub mod render;
pub mod site;
