use crate::render::{Points, Size};
use crate::render::callbacks::CallbackRegistry;
use crate::render::draw::{add_step, DrawCommand, DrawCommandView, steps};
use crate::render::layout::minus;
use crate::render::widget::{Rect, Widget};
use crate::render::widget_config::{
    Color, Config, CONFIG_COLOR_BASE, ConfigValue, WidgetConfig, WidgetConfigView,
};
use vstd::prelude::*;

verus! {

/// A viewport as a mathematical value.
pub struct ViewportWidgetView<H> {
    pub config: WidgetConfigView,
    pub callbacks: CallbackRegistry<H>,
    pub view_point: Points,
    pub view_size: Size,
}

/// A window onto a larger area: it shows the part of the area that begins at its
/// view point.
pub struct ViewportWidget<H> {
    config: WidgetConfig,
    callback_registry: CallbackRegistry<H>,
    view_point: Points,
    view_size: Size,
}

impl<H> View for ViewportWidget<H> {
    type V = ViewportWidgetView<H>;

    closed spec fn view(&self) -> ViewportWidgetView<H> {
        ViewportWidgetView {
            config: self.config@,
            callbacks: self.callback_registry,
            view_point: self.view_point,
            view_size: self.view_size,
        }
    }
}

impl<H> Widget<H> for ViewportWidget<H> {
    open spec fn config_of(v: ViewportWidgetView<H>) -> WidgetConfigView {
        v.config
    }

    open spec fn callbacks_of(v: ViewportWidgetView<H>) -> CallbackRegistry<H> {
        v.callbacks
    }

    open spec fn with_config(v: ViewportWidgetView<H>, c: WidgetConfigView) -> ViewportWidgetView<H> {
        ViewportWidgetView { config: c, ..v }
    }

    open spec fn with_callbacks(v: ViewportWidgetView<H>, r: CallbackRegistry<H>) -> ViewportWidgetView<H> {
        ViewportWidgetView { callbacks: r, ..v }
    }

    open spec fn config_changed(v: ViewportWidgetView<H>, k: u8, value: ConfigValue) -> ViewportWidgetView<H> {
        v
    }

    fn config(&self) -> (c: &WidgetConfig) {
        &self.config
    }

    fn get_config(&mut self) -> (c: &mut WidgetConfig) {
        &mut self.config
    }

    fn callbacks(&self) -> (r: &CallbackRegistry<H>) {
        &self.callback_registry
    }

    fn get_callbacks(&mut self) -> (r: &mut CallbackRegistry<H>) {
        &mut self.callback_registry
    }

    fn on_config_changed(&mut self, k: u8, v: Config) {
    }
}

impl<H> ViewportWidget<H> {
    /// A viewport at `points` of size `size` that shows the area from its origin on.
    pub fn new(points: Points, size: Size) -> (w: ViewportWidget<H>)
        ensures
            w@.config == WidgetConfigView::initial(points[0], points[1], size[0], size[1]),
            w@.callbacks == CallbackRegistry::<H>::empty(),
            w@.view_point[0] == 0,
            w@.view_point[1] == 0,
            w@.view_size == size,
    {
        ViewportWidget {
            config: WidgetConfig::new(points[0], points[1], size[0], size[1]),
            callback_registry: CallbackRegistry::new(),
            view_point: [0, 0],
            view_size: size,
        }
    }

    /// Shows the area from `points` on, and asks for a redraw.
    pub fn move_viewport(&mut self, points: Points)
        ensures
            final(self)@ == (ViewportWidgetView {
                view_point: points,
                config: old(self)@.config.invalidate(),
                ..old(self)@
            }),
    {
        self.view_point = points;
        self.config.set_invalidated(true);
    }

    /// Where the shown part of the area begins.
    pub fn get_view_point(&self) -> (p: Points)
        ensures
            p == self@.view_point,
    {
        self.view_point
    }

    /// The size of the shown part of the area.
    pub fn get_view_size(&self) -> (s: Size)
        ensures
            s == self@.view_size,
    {
        self.view_size
    }
}

impl<H> ViewportWidgetView<H> {
    /// The frame of the shown part: the bounds less 28 at the right and at the
    /// bottom, where the scroll bars go.
    pub open spec fn frame(self) -> Rect {
        Rect {
            x: self.config.origin().0,
            y: self.config.origin().1,
            w: minus(self.config.extent().0 as int, 28) as u32,
            h: minus(self.config.extent().1 as int, 28) as u32,
        }
    }

    /// The steps of painting the widget: its body, then its frame in black.
    pub open spec fn drawn(self) -> Seq<DrawCommandView> {
        seq![
            DrawCommandView::Fill {
                area: self.config.area(),
                color: self.config.color(CONFIG_COLOR_BASE),
            },
            DrawCommandView::Outline { area: self.frame(), color: Color::black() },
        ]
    }
}

impl<H> ViewportWidget<H> {
    /// The steps of painting the widget.
    pub fn draw(&self) -> (commands: Vec<DrawCommand>)
        ensures
            steps(commands@) == self@.drawn(),
    {
        let area = self.config.area();
        let frame = Rect {
            x: area.x,
            y: area.y,
            w: area.w.saturating_sub(28),
            h: area.h.saturating_sub(28),
        };
        let mut commands: Vec<DrawCommand> = Vec::new();
        add_step(
            &mut commands,
            DrawCommand::Fill { area, color: self.config.get_color(CONFIG_COLOR_BASE) },
        );
        add_step(&mut commands, DrawCommand::Outline { area: frame, color: Color::RGB(0, 0, 0) });
        assert(steps(commands@) =~= self@.drawn());
        commands
    }
}

} // verus!
