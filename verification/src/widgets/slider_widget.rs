use crate::render::{Points, Size};
use crate::render::callbacks::{Callback, CallbackRegistry};
use crate::render::draw::{add_step, DrawCommand, DrawCommandView, move_by, moved, steps};
use crate::render::layout::minus;
use crate::render::widget::{Rect, Widget};
use crate::render::widget_config::{
    Color, Config, CONFIG_COLOR_BASE, CONFIG_ORIGIN, CONFIG_SIZE, ConfigValue, WidgetConfig,
    WidgetConfigView,
};
use vstd::prelude::*;

verus! {

/// The direction a slider moves in.
#[derive(Clone, Copy, Debug, PartialEq, Eq, Structural)]
pub enum SliderOrientation {
    /// From left to right.
    SliderHorizontal,
    /// From top to bottom.
    SliderVertical,
}

/// `value`, or the largest 32-bit number where it is larger.
pub open spec fn capped_u32(value: int) -> u32 {
    if value > u32::MAX {
        u32::MAX
    } else {
        value as u32
    }
}

/// The share of `range` that corresponds to the position `position` on a track
/// `extent` long, rounded down. A position before the track gives 0, and so does a
/// track without length.
pub open spec fn scaled(position: int, extent: u32, range: u32) -> u32 {
    if position <= 0 || extent == 0 {
        0
    } else {
        capped_u32((position * range) / (extent as int))
    }
}

/// The value `current`, moved by `delta` and kept between `min` and `max`: `max`
/// where the sum reaches it, else `min` where the sum goes down to it.
pub open spec fn moved_by(current: u32, delta: int, min: u32, max: u32) -> u32 {
    if current + delta >= max {
        max
    } else if current + delta <= min {
        min
    } else {
        (current + delta) as u32
    }
}

/// Where the handle of a slider begins on a track `extent` long, for a handle 30
/// long whose middle sits at the share of the track that `current` has of the
/// range from `min` to `max`. The handle stays on the track.
pub open spec fn handle_start(extent: u32, min: u32, max: u32, current: u32) -> int {
    let range = minus(max as int, min as int);
    let center = if range == 0 {
        0
    } else {
        (extent * minus(current as int, min as int)) / range
    };
    if center >= minus(extent as int, 15) {
        minus(extent as int, 30)
    } else if center <= 15 {
        0
    } else {
        center - 15
    }
}

/// A slider as a mathematical value.
pub struct SliderWidgetView<H> {
    pub config: WidgetConfigView,
    pub callbacks: CallbackRegistry<H>,
    pub min: u32,
    pub max: u32,
    pub current: u32,
    pub orientation: SliderOrientation,
    pub in_bounds: bool,
    pub active: bool,
    pub originated: bool,
    pub on_value_changed: Option<H>,
}

/// A handle on a track that is dragged or scrolled to a value between a minimum and
/// a maximum. Every change of the value makes the value callback due.
pub struct SliderWidget<H> {
    config: WidgetConfig,
    callback_registry: CallbackRegistry<H>,
    min: u32,
    max: u32,
    current: u32,
    orientation: SliderOrientation,
    in_bounds: bool,
    active: bool,
    originated: bool,
    on_value_changed: Option<H>,
}

impl<H> View for SliderWidget<H> {
    type V = SliderWidgetView<H>;

    closed spec fn view(&self) -> SliderWidgetView<H> {
        SliderWidgetView {
            config: self.config@,
            callbacks: self.callback_registry,
            min: self.min,
            max: self.max,
            current: self.current,
            orientation: self.orientation,
            in_bounds: self.in_bounds,
            active: self.active,
            originated: self.originated,
            on_value_changed: self.on_value_changed,
        }
    }
}

impl<H> Widget<H> for SliderWidget<H> {
    open spec fn config_of(v: SliderWidgetView<H>) -> WidgetConfigView {
        v.config
    }

    open spec fn callbacks_of(v: SliderWidgetView<H>) -> CallbackRegistry<H> {
        v.callbacks
    }

    open spec fn with_config(v: SliderWidgetView<H>, c: WidgetConfigView) -> SliderWidgetView<H> {
        SliderWidgetView { config: c, ..v }
    }

    open spec fn with_callbacks(v: SliderWidgetView<H>, r: CallbackRegistry<H>) -> SliderWidgetView<H> {
        SliderWidgetView { callbacks: r, ..v }
    }

    open spec fn config_changed(v: SliderWidgetView<H>, k: u8, value: ConfigValue) -> SliderWidgetView<H> {
        v
    }

    fn config(&self) -> (c: &WidgetConfig) {
        &self.config
    }

    fn get_config(&mut self) -> (c: &mut WidgetConfig) {
        &mut self.config
    }

    fn callbacks(&self) -> (r: &CallbackRegistry<H>) {
        &self.callback_registry
    }

    fn get_callbacks(&mut self) -> (r: &mut CallbackRegistry<H>) {
        &mut self.callback_registry
    }

    fn on_config_changed(&mut self, k: u8, v: Config) {
    }
}

impl<H> SliderWidgetView<H> {
    /// The value callback with `value`, where a handler is in its slot.
    pub open spec fn value_fired(self, value: u32) -> Seq<Callback> {
        if self.on_value_changed is Some {
            seq![Callback::ValueChanged { value }]
        } else {
            Seq::<Callback>::empty()
        }
    }

    /// The pointer comes into the bounds.
    pub open spec fn mouse_entered(self) -> (SliderWidgetView<H>, Seq<Callback>) {
        (SliderWidgetView { in_bounds: true, ..self }, Seq::<Callback>::empty())
    }

    /// The pointer leaves the bounds.
    pub open spec fn mouse_exited(self) -> (SliderWidgetView<H>, Seq<Callback>) {
        (SliderWidgetView { in_bounds: false, ..self }, Seq::<Callback>::empty())
    }

    /// Whether the slider follows the pointer: the pointer is inside its bounds
    /// and the left button is held since a press on the slider.
    pub open spec fn is_dragged(self) -> bool {
        self.in_bounds && self.active && self.originated
    }

    /// The value that belongs to a pointer at `(x, y)` on the screen: the minimum,
    /// and on top of it the share of the range that the pointer has gone along the
    /// slider's width (or height, for a vertical slider), no more than 32 bits hold.
    pub open spec fn value_at(self, x: i32, y: i32) -> u32 {
        let range = minus(self.max as int, self.min as int) as u32;
        let actual = match self.orientation {
            SliderOrientation::SliderHorizontal => scaled(
                x - self.config.origin().0,
                self.config.extent().0,
                range,
            ),
            SliderOrientation::SliderVertical => scaled(
                y - self.config.origin().1,
                self.config.extent().1,
                range,
            ),
        };
        capped_u32(self.min + actual)
    }

    /// The pointer moves to `(x, y)`. A slider that is dragged takes the value that
    /// belongs to the pointer's place, asks for a redraw, and its value callback
    /// is due.
    pub open spec fn mouse_moved(self, x: i32, y: i32) -> (SliderWidgetView<H>, Seq<Callback>) {
        if self.is_dragged() {
            (
                SliderWidgetView {
                    current: self.value_at(x, y),
                    config: self.config.invalidate(),
                    ..self
                },
                self.value_fired(self.value_at(x, y)),
            )
        } else {
            (self, Seq::<Callback>::empty())
        }
    }

    /// The value after the wheel turned by `(x, y)`: a horizontal slider moves by
    /// `x`, a vertical one by `-y`, and neither beyond the minimum or the maximum.
    pub open spec fn value_scrolled(self, x: i32, y: i32) -> u32 {
        match self.orientation {
            SliderOrientation::SliderHorizontal => moved_by(self.current, x as int, self.min, self.max),
            SliderOrientation::SliderVertical => moved_by(self.current, -y, self.min, self.max),
        }
    }

    /// The wheel turns by `(x, y)`. The slider takes the scrolled value, asks for a
    /// redraw, and its value callback is due.
    pub open spec fn mouse_scrolled(self, x: i32, y: i32) -> (SliderWidgetView<H>, Seq<Callback>) {
        (
            SliderWidgetView {
                current: self.value_scrolled(x, y),
                config: self.config.invalidate(),
                ..self
            },
            self.value_fired(self.value_scrolled(x, y)),
        )
    }

    /// A mouse button goes down (`state`) or up. A press of the left button begins
    /// a drag on this slider, its release ends it; either asks for a redraw.
    pub open spec fn button_clicked(self, button: u8, clicks: u8, state: bool) -> (
        SliderWidgetView<H>,
        Seq<Callback>,
    ) {
        let clicked = self.callbacks.fired(Callback::MouseClicked { button, clicks, state });
        if button != 1 {
            (self, clicked)
        } else {
            (
                SliderWidgetView {
                    active: state,
                    originated: state,
                    config: self.config.invalidate(),
                    ..self
                },
                clicked,
            )
        }
    }

    /// Where the handle begins on the track, counted from the slider's origin.
    pub open spec fn handle_start(self) -> int {
        match self.orientation {
            SliderOrientation::SliderHorizontal => handle_start(
                self.config.extent().0,
                self.min,
                self.max,
                self.current,
            ),
            SliderOrientation::SliderVertical => handle_start(
                self.config.extent().1,
                self.min,
                self.max,
                self.current,
            ),
        }
    }
}

/// The share of `range` that corresponds to `position` on a track `extent` long.
fn scale(position: i64, extent: u32, range: u32) -> (r: u32)
    requires
        i32::MIN as int - i32::MAX as int <= position <= i32::MAX as int - i32::MIN as int,
    ensures
        r == scaled(position as int, extent, range),
{
    if position <= 0 || extent == 0 {
        0
    } else {
        assert(position * range <= 0xffff_ffff * 0xffff_ffff) by (nonlinear_arith)
            requires
                0 < position <= 0xffff_ffff,
                range <= 0xffff_ffff,
        ;
        let share: u64 = (position as u64 * range as u64) / (extent as u64);
        if share > u32::MAX as u64 {
            u32::MAX
        } else {
            share as u32
        }
    }
}

impl<H> SliderWidget<H> {
    /// A slider at `points` of size `size` for the values from `min` to `max`,
    /// set to `current`, that moves along `orientation`.
    pub fn new(
        points: Points,
        size: Size,
        min: u32,
        max: u32,
        current: u32,
        orientation: SliderOrientation,
    ) -> (w: SliderWidget<H>)
        ensures
            w@ == (SliderWidgetView {
                config: WidgetConfigView::initial(points[0], points[1], size[0], size[1]),
                callbacks: CallbackRegistry::<H>::empty(),
                min,
                max,
                current,
                orientation,
                in_bounds: false,
                active: false,
                originated: false,
                on_value_changed: None,
            }),
    {
        SliderWidget {
            config: WidgetConfig::new(points[0], points[1], size[0], size[1]),
            callback_registry: CallbackRegistry::new(),
            min,
            max,
            current,
            orientation,
            in_bounds: false,
            active: false,
            originated: false,
            on_value_changed: None,
        }
    }

    /// Sets the handler that runs when the value changes.
    pub fn on_value_changed(&mut self, callback: H)
        ensures
            final(self)@ == (SliderWidgetView { on_value_changed: Some(callback), ..old(self)@ }),
    {
        self.on_value_changed = Some(callback);
    }

    /// Takes the value handler out of its slot, to run it.
    pub fn take_on_value_changed(&mut self) -> (handler: Option<H>)
        ensures
            handler == old(self)@.on_value_changed,
            final(self)@ == (SliderWidgetView { on_value_changed: None, ..old(self)@ }),
    {
        self.on_value_changed.take()
    }

    /// The value of the slider.
    pub fn get_current(&self) -> (v: u32)
        ensures
            v == self@.current,
    {
        self.current
    }

    /// The direction the slider moves in.
    pub fn get_orientation(&self) -> (o: SliderOrientation)
        ensures
            o == self@.orientation,
    {
        self.orientation
    }

    /// The smallest value of the slider.
    pub fn get_min(&self) -> (v: u32)
        ensures
            v == self@.min,
    {
        self.min
    }

    /// The largest value of the slider.
    pub fn get_max(&self) -> (v: u32)
        ensures
            v == self@.max,
    {
        self.max
    }

    /// The value callback with the value at hand, where a handler is in its slot.
    fn call_value_changed_callback(&self) -> (fired: Vec<Callback>)
        ensures
            fired@ == self@.value_fired(self@.current),
    {
        let mut fired: Vec<Callback> = Vec::new();
        if self.on_value_changed.is_some() {
            fired.push(Callback::ValueChanged { value: self.current });
        }
        fired
    }

    /// The pointer comes into the bounds.
    pub fn mouse_entered(&mut self) -> (fired: Vec<Callback>)
        ensures
            (final(self)@, fired@) == old(self)@.mouse_entered(),
    {
        self.in_bounds = true;
        Vec::new()
    }

    /// The pointer leaves the bounds.
    pub fn mouse_exited(&mut self) -> (fired: Vec<Callback>)
        ensures
            (final(self)@, fired@) == old(self)@.mouse_exited(),
    {
        self.in_bounds = false;
        Vec::new()
    }

    /// The pointer moves to `points` on the screen.
    pub fn mouse_moved(&mut self, points: Points) -> (fired: Vec<Callback>)
        ensures
            (final(self)@, fired@) == old(self)@.mouse_moved(points[0], points[1]),
    {
        if self.in_bounds && self.active && self.originated {
            let origin = self.config.get_point(CONFIG_ORIGIN);
            let size = self.config.get_size(CONFIG_SIZE);
            let full_range = self.max.saturating_sub(self.min);
            let actual = match self.orientation {
                SliderOrientation::SliderHorizontal => scale(
                    points[0] as i64 - origin[0] as i64,
                    size[0],
                    full_range,
                ),
                SliderOrientation::SliderVertical => scale(
                    points[1] as i64 - origin[1] as i64,
                    size[1],
                    full_range,
                ),
            };
            self.current = self.min.saturating_add(actual);
            self.config.set_invalidated(true);
            self.call_value_changed_callback()
        } else {
            Vec::new()
        }
    }

    /// The wheel turns by `points`.
    pub fn mouse_scrolled(&mut self, points: Points) -> (fired: Vec<Callback>)
        ensures
            (final(self)@, fired@) == old(self)@.mouse_scrolled(points[0], points[1]),
    {
        let delta: i64 = match self.orientation {
            SliderOrientation::SliderHorizontal => points[0] as i64,
            SliderOrientation::SliderVertical => -(points[1] as i64),
        };
        let moved: i64 = self.current as i64 + delta;
        if moved >= self.max as i64 {
            self.current = self.max;
        } else if moved <= self.min as i64 {
            self.current = self.min;
        } else {
            self.current = moved as u32;
        }
        self.config.set_invalidated(true);
        self.call_value_changed_callback()
    }

    /// A mouse button goes down (`state`) or up.
    pub fn button_clicked(&mut self, button: u8, clicks: u8, state: bool) -> (fired: Vec<Callback>)
        ensures
            (final(self)@, fired@) == old(self)@.button_clicked(button, clicks, state),
    {
        if button == 1 {
            if state {
                self.active = true;
                self.originated = true;
            } else {
                self.active = false;
                self.originated = false;
            }
            self.config.set_invalidated(true);
        }
        self.button_clicked_callback(button, clicks, state)
    }

    /// Where the handle begins on the track, counted from the slider's origin.
    pub fn slider_start(&self) -> (start: u32)
        ensures
            start == self@.handle_start(),
    {
        let size = self.config.get_size(CONFIG_SIZE);
        let extent: u32 = match self.orientation {
            SliderOrientation::SliderHorizontal => size[0],
            SliderOrientation::SliderVertical => size[1],
        };
        let full_range = self.max.saturating_sub(self.min);
        let offset = self.current.saturating_sub(self.min);
        assert(extent * offset <= 0xffff_ffff * 0xffff_ffff) by (nonlinear_arith)
            requires
                extent <= 0xffff_ffff,
                offset <= 0xffff_ffff,
        ;
        let slider_center: u64 = if full_range == 0 {
            0
        } else {
            (extent as u64 * offset as u64) / (full_range as u64)
        };
        if slider_center >= extent.saturating_sub(15) as u64 {
            extent.saturating_sub(30)
        } else if slider_center <= 15 {
            0
        } else {
            (slider_center - 15) as u32
        }
    }
}

/// The grey of the track of a slider.
pub open spec fn track_color() -> Color {
    Color { r: 192, g: 192, b: 192, a: 255 }
}

impl<H> SliderWidgetView<H> {
    /// The line of the track that lies `offset` beside the middle of the slider,
    /// from one end of the slider to the other.
    pub open spec fn track_line(self, offset: int) -> DrawCommandView {
        let x = self.config.origin().0;
        let y = self.config.origin().1;
        let w = self.config.extent().0;
        let h = self.config.extent().1;
        match self.orientation {
            SliderOrientation::SliderHorizontal => DrawCommandView::Line {
                x1: x,
                y1: moved(y, h / 2 + offset),
                x2: moved(x, w as int),
                y2: moved(y, h / 2 + offset),
                color: track_color(),
            },
            SliderOrientation::SliderVertical => DrawCommandView::Line {
                x1: moved(x, w / 2 + offset),
                y1: y,
                x2: moved(x, w / 2 + offset),
                y2: moved(y, h as int),
                color: track_color(),
            },
        }
    }

    /// The handle: 30 long on the track, from where it begins, and as wide as the
    /// slider.
    pub open spec fn handle(self) -> Rect {
        match self.orientation {
            SliderOrientation::SliderHorizontal => Rect {
                x: moved(self.config.origin().0, self.handle_start()),
                y: self.config.origin().1,
                w: 30,
                h: self.config.extent().1,
            },
            SliderOrientation::SliderVertical => Rect {
                x: self.config.origin().0,
                y: moved(self.config.origin().1, self.handle_start()),
                w: self.config.extent().0,
                h: 30,
            },
        }
    }

    /// The steps of painting the widget: its body, the three lines of the track
    /// (the middle one first, then the one before and the one behind it), and the
    /// handle with its black outline.
    pub open spec fn drawn(self) -> Seq<DrawCommandView> {
        seq![
            DrawCommandView::Fill {
                area: self.config.area(),
                color: self.config.color(CONFIG_COLOR_BASE),
            },
            self.track_line(0),
            self.track_line(-1),
            self.track_line(1),
            DrawCommandView::Fill {
                area: self.handle(),
                color: self.config.color(CONFIG_COLOR_BASE),
            },
            DrawCommandView::Outline { area: self.handle(), color: Color::black() },
        ]
    }
}

impl<H> SliderWidget<H> {
    /// The line of the track that lies `offset` beside the middle of the slider.
    fn track_line(&self, offset: i64) -> (line: DrawCommand)
        requires
            -1 <= offset <= 1,
        ensures
            line@ == self@.track_line(offset as int),
    {
        let area = self.config.area();
        match self.orientation {
            SliderOrientation::SliderHorizontal => {
                let y = move_by(area.y, (area.h / 2) as i64 + offset);
                DrawCommand::Line {
                    x1: area.x,
                    y1: y,
                    x2: move_by(area.x, area.w as i64),
                    y2: y,
                    color: Color::RGB(192, 192, 192),
                }
            },
            SliderOrientation::SliderVertical => {
                let x = move_by(area.x, (area.w / 2) as i64 + offset);
                DrawCommand::Line {
                    x1: x,
                    y1: area.y,
                    x2: x,
                    y2: move_by(area.y, area.h as i64),
                    color: Color::RGB(192, 192, 192),
                }
            },
        }
    }

    /// The steps of painting the widget.
    pub fn draw(&self) -> (commands: Vec<DrawCommand>)
        ensures
            steps(commands@) == self@.drawn(),
    {
        let area = self.config.area();
        let base_color = self.config.get_color(CONFIG_COLOR_BASE);
        let start = self.slider_start();
        let handle = match self.orientation {
            SliderOrientation::SliderHorizontal => Rect {
                x: move_by(area.x, start as i64),
                y: area.y,
                w: 30,
                h: area.h,
            },
            SliderOrientation::SliderVertical => Rect {
                x: area.x,
                y: move_by(area.y, start as i64),
                w: area.w,
                h: 30,
            },
        };
        let mut commands: Vec<DrawCommand> = Vec::new();
        add_step(&mut commands, DrawCommand::Fill { area, color: base_color });
        add_step(&mut commands, self.track_line(0));
        add_step(&mut commands, self.track_line(-1));
        add_step(&mut commands, self.track_line(1));
        add_step(&mut commands, DrawCommand::Fill { area: handle, color: base_color });
        add_step(&mut commands, DrawCommand::Outline { area: handle, color: Color::RGB(0, 0, 0) });
        assert(steps(commands@) =~= self@.drawn());
        commands
    }
}

} // verus!
