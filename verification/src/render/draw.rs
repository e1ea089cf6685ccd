use crate::render::layout::{clamp_i32, clamped};
use crate::render::widget::Rect;
use crate::render::widget_config::{Color, CompassPosition};
use crate::widgets::text_widget::{FontStyle, TextJustify};
use vstd::prelude::*;

verus! {

/// One step of painting a widget, in the coordinates of the screen.
#[derive(Clone, Debug, PartialEq, Eq)]
pub enum DrawCommand {
    /// Fill `area` with `color`.
    Fill { area: Rect, color: Color },
    /// Draw the outline of `area` in `color`.
    Outline { area: Rect, color: Color },
    /// Draw a line from `(x1, y1)` to `(x2, y2)` in `color`.
    Line { x1: i32, y1: i32, x2: i32, y2: i32, color: Color },
    /// Write `msg` in `color` and in the given font into `area`, wrapped at
    /// `wrap_width` and justified in the width of `area`.
    Text {
        area: Rect,
        wrap_width: u32,
        font_name: String,
        font_style: FontStyle,
        font_size: i32,
        justification: TextJustify,
        color: Color,
        msg: String,
    },
    /// Show the image `image_name` in `area`: over the whole of it if `scaled`, else
    /// in its own size at `position`.
    Image { area: Rect, image_name: String, scaled: bool, position: CompassPosition },
}

/// A step of painting as a mathematical value.
pub enum DrawCommandView {
    Fill { area: Rect, color: Color },
    Outline { area: Rect, color: Color },
    Line { x1: i32, y1: i32, x2: i32, y2: i32, color: Color },
    Text {
        area: Rect,
        wrap_width: u32,
        font_name: Seq<char>,
        font_style: FontStyle,
        font_size: i32,
        justification: TextJustify,
        color: Color,
        msg: Seq<char>,
    },
    Image { area: Rect, image_name: Seq<char>, scaled: bool, position: CompassPosition },
}

impl View for DrawCommand {
    type V = DrawCommandView;

    open spec fn view(&self) -> DrawCommandView {
        match self {
            DrawCommand::Fill { area, color } => DrawCommandView::Fill {
                area: *area,
                color: *color,
            },
            DrawCommand::Outline { area, color } => DrawCommandView::Outline {
                area: *area,
                color: *color,
            },
            DrawCommand::Line { x1, y1, x2, y2, color } => DrawCommandView::Line {
                x1: *x1,
                y1: *y1,
                x2: *x2,
                y2: *y2,
                color: *color,
            },
            DrawCommand::Text {
                area,
                wrap_width,
                font_name,
                font_style,
                font_size,
                justification,
                color,
                msg,
            } => DrawCommandView::Text {
                area: *area,
                wrap_width: *wrap_width,
                font_name: font_name@,
                font_style: *font_style,
                font_size: *font_size,
                justification: *justification,
                color: *color,
                msg: msg@,
            },
            DrawCommand::Image { area, image_name, scaled, position } => DrawCommandView::Image {
                area: *area,
                image_name: image_name@,
                scaled: *scaled,
                position: *position,
            },
        }
    }
}

/// The steps of `commands` as mathematical values.
pub open spec fn steps(commands: Seq<DrawCommand>) -> Seq<DrawCommandView> {
    commands.map_values(|c: DrawCommand| c@)
}

/// The coordinate that lies `offset` from `origin`, or the nearest the screen has.
pub open spec fn moved(origin: i32, offset: int) -> i32 {
    clamped(origin + offset)
}

/// The coordinate that lies `offset` from `origin`, or the nearest the screen has.
pub fn move_by(origin: i32, offset: i64) -> (r: i32)
    requires
        -0x4000_0000_0000_0000 <= offset <= 0x4000_0000_0000_0000,
    ensures
        r == moved(origin, offset as int),
{
    clamp_i32(origin as i64 + offset)
}

/// The rectangle that lies `inset` inside `area` at each of its four sides, and
/// is empty where `area` is too small for that.
pub open spec fn ring(area: Rect, inset: int) -> Rect {
    Rect {
        x: moved(area.x, inset),
        y: moved(area.y, inset),
        w: (if area.w >= 2 * inset {
            area.w - 2 * inset
        } else {
            0
        }) as u32,
        h: (if area.h >= 2 * inset {
            area.h - 2 * inset
        } else {
            0
        }) as u32,
    }
}

/// The outlines of a border `width` wide inside `area`, from the outermost inwards,
/// of which the first `n` are given.
pub open spec fn border_rings(area: Rect, color: Color, n: nat) -> Seq<DrawCommandView>
    decreases n,
{
    if n == 0 {
        Seq::<DrawCommandView>::empty()
    } else {
        border_rings(area, color, (n - 1) as nat).push(
            DrawCommandView::Outline { area: ring(area, n - 1), color },
        )
    }
}

/// The border of a widget: no outline where the border has no width or the color
/// of the body, else one outline for each unit of its width.
pub open spec fn border(area: Rect, base: Color, color: Color, width: i32) -> Seq<DrawCommandView> {
    if width > 0 && base != color {
        border_rings(area, color, width as nat)
    } else {
        Seq::<DrawCommandView>::empty()
    }
}

/// Adds `command` to `commands`.
pub fn add_step(commands: &mut Vec<DrawCommand>, command: DrawCommand)
    ensures
        steps(final(commands)@) == steps(old(commands)@).push(command@),
{
    commands.push(command);
    assert(steps(commands@) =~= steps(old(commands)@).push(command@));
}

/// Adds the commands of `more` to `commands`.
pub fn add_steps(commands: &mut Vec<DrawCommand>, more: Vec<DrawCommand>)
    ensures
        steps(final(commands)@) == steps(old(commands)@) + steps(more@),
{
    let mut more = more;
    let ghost added = more@;
    commands.append(&mut more);
    assert(steps(commands@) =~= steps(old(commands)@) + steps(added));
}

/// Adds the border of a widget to `commands`.
pub fn add_border(
    commands: &mut Vec<DrawCommand>,
    area: Rect,
    base: Color,
    color: Color,
    width: i32,
)
    ensures
        steps(final(commands)@) == steps(old(commands)@) + border(area, base, color, width),
{
    if width > 0 && !(base == color) {
        let mut inset: i32 = 0;
        assert(steps(commands@) =~= steps(old(commands)@) + border_rings(area, color, 0));
        while inset < width
            invariant
                0 <= inset <= width,
                steps(commands@) == steps(old(commands)@) + border_rings(area, color, inset as nat),
            decreases width - inset,
        {
            let twice: u64 = 2 * (inset as u64);
            let w: u32 = if area.w as u64 >= twice {
                (area.w as u64 - twice) as u32
            } else {
                0
            };
            let h: u32 = if area.h as u64 >= twice {
                (area.h as u64 - twice) as u32
            } else {
                0
            };
            let ghost before = steps(commands@);
            add_step(
                commands,
                DrawCommand::Outline {
                    area: Rect {
                        x: move_by(area.x, inset as i64),
                        y: move_by(area.y, inset as i64),
                        w,
                        h,
                    },
                    color,
                },
            );
            inset = inset + 1;
            assert(steps(commands@) =~= steps(old(commands)@) + border_rings(
                area,
                color,
                inset as nat,
            ));
        }
    } else {
        assert(steps(commands@) =~= steps(old(commands)@) + border(area, base, color, width));
    }
}

} // verus!
