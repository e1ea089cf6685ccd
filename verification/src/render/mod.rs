use crate::render::widget_config::Color;
use vstd::prelude::*;

/// Per-widget configuration: the keyed property store and the redraw flags.
pub mod widget_config;

/// The callbacks of a widget: what is due, and the slots the handlers are kept in.
pub mod callbacks;

/// What every widget has, and the plainest widget.
pub mod widget;

/// A widget of any kind, as the cache keeps it.
pub mod widget_store;

/// The widgets of an application: hit test, event delivery and the draw list.
pub mod widget_cache;

/// What a layout manager is.
pub mod layout;

/// The layouts of an application.
pub mod layout_cache;

/// The steps of painting a widget.
pub mod draw;

/// What a press and a release over a button amount to, seen from the engine.
pub mod clicks;

/// The record of the picture a widget draws on.
pub mod texture_store;

/// The event engine: routing of events, the frame steps and the frame pacing.
pub mod engine;

verus! {

/// A pair of coordinates: X and Y.
pub type Points = [i32; 2];

/// Index of the X coordinate in `Points`.
pub const POINT_X: usize = 0;

/// Index of the Y coordinate in `Points`.
pub const POINT_Y: usize = 1;

/// A pair of extents: width and height.
pub type Size = [u32; 2];

/// Index of the width in `Size`.
pub const SIZE_WIDTH: usize = 0;

/// Index of the height in `Size`.
pub const SIZE_HEIGHT: usize = 1;

/// The coordinates `(x, y)`.
pub fn make_points(x: i32, y: i32) -> (p: Points)
    ensures
        p[0] == x,
        p[1] == y,
{
    [x, y]
}

/// The coordinates of the origin, `(0, 0)`.
pub fn make_points_origin() -> (p: Points)
    ensures
        p[0] == 0,
        p[1] == 0,
{
    [0, 0]
}

/// The extents `(w, h)`.
pub fn make_size(w: u32, h: u32) -> (s: Size)
    ensures
        s[0] == w,
        s[1] == h,
{
    [w, h]
}

/// The color whose red, green and blue are what `color`'s lack to 255. It is
/// opaque.
pub open spec fn spec_inverse_color(color: Color) -> Color {
    Color { r: (255 - color.r) as u8, g: (255 - color.g) as u8, b: (255 - color.b) as u8, a: 255 }
}

/// The color whose red, green and blue are what `color`'s lack to 255. It is
/// opaque.
#[verifier::when_used_as_spec(spec_inverse_color)]
pub fn inverse_color(color: Color) -> (c: Color)
    ensures
        c == spec_inverse_color(color),
{
    Color::RGB(255 - color.r, 255 - color.g, 255 - color.b)
}

} // verus!
