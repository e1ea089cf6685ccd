use crate::render::{Points, Size};
use crate::render::callbacks::CallbackRegistry;
use crate::render::draw::{add_step, DrawCommand, DrawCommandView, move_by, moved, steps};
use crate::render::layout::minus;
use crate::render::widget::{Rect, Widget};
use crate::render::widget_config::{
    Color, Config, CONFIG_COLOR_BORDER, CONFIG_COLOR_SECONDARY, CONFIG_SIZE, ConfigValue,
    WidgetConfig, WidgetConfigView,
};
use vstd::prelude::*;

verus! {

/// A progress widget as a mathematical value.
pub struct ProgressWidgetView<H> {
    pub config: WidgetConfigView,
    pub callbacks: CallbackRegistry<H>,
    pub progress: u8,
}

/// A bar that is filled from the left, by a share of its width from 0 to 100 percent.
pub struct ProgressWidget<H> {
    config: WidgetConfig,
    callback_registry: CallbackRegistry<H>,
    progress: u8,
}

impl<H> View for ProgressWidget<H> {
    type V = ProgressWidgetView<H>;

    closed spec fn view(&self) -> ProgressWidgetView<H> {
        ProgressWidgetView {
            config: self.config@,
            callbacks: self.callback_registry,
            progress: self.progress,
        }
    }
}

impl<H> Widget<H> for ProgressWidget<H> {
    open spec fn config_of(v: ProgressWidgetView<H>) -> WidgetConfigView {
        v.config
    }

    open spec fn callbacks_of(v: ProgressWidgetView<H>) -> CallbackRegistry<H> {
        v.callbacks
    }

    open spec fn with_config(v: ProgressWidgetView<H>, c: WidgetConfigView) -> ProgressWidgetView<H> {
        ProgressWidgetView { config: c, ..v }
    }

    open spec fn with_callbacks(v: ProgressWidgetView<H>, r: CallbackRegistry<H>) -> ProgressWidgetView<H> {
        ProgressWidgetView { callbacks: r, ..v }
    }

    open spec fn config_changed(v: ProgressWidgetView<H>, k: u8, value: ConfigValue) -> ProgressWidgetView<H> {
        v
    }

    fn config(&self) -> (c: &WidgetConfig) {
        &self.config
    }

    fn get_config(&mut self) -> (c: &mut WidgetConfig) {
        &mut self.config
    }

    fn callbacks(&self) -> (r: &CallbackRegistry<H>) {
        &self.callback_registry
    }

    fn get_callbacks(&mut self) -> (r: &mut CallbackRegistry<H>) {
        &mut self.callback_registry
    }

    fn on_config_changed(&mut self, k: u8, v: Config) {
    }
}

/// A progress value as the widget keeps it: no more than 100.
pub open spec fn capped(progress: u8) -> u8 {
    if progress > 100 {
        100
    } else {
        progress
    }
}

/// The width of the filled part of a bar `width` wide at `progress` percent,
/// rounded down.
pub open spec fn filled_width(width: u32, progress: u8) -> int {
    (width * progress) / 100
}

impl<H> ProgressWidget<H> {
    /// A progress widget at `points` of size `size` that shows `progress` percent.
    pub fn new(points: Points, size: Size, progress: u8) -> (w: ProgressWidget<H>)
        ensures
            w@ == (ProgressWidgetView {
                config: WidgetConfigView::initial(points[0], points[1], size[0], size[1]),
                callbacks: CallbackRegistry::<H>::empty(),
                progress,
            }),
    {
        ProgressWidget {
            config: WidgetConfig::new(points[0], points[1], size[0], size[1]),
            callback_registry: CallbackRegistry::new(),
            progress,
        }
    }

    /// Shows `progress` percent from now on, 100 where `progress` is more, and
    /// asks for a redraw.
    pub fn set_progress(&mut self, progress: u8)
        ensures
            final(self)@ == (ProgressWidgetView {
                progress: capped(progress),
                config: old(self)@.config.invalidate(),
                ..old(self)@
            }),
    {
        if progress > 100 {
            self.progress = 100;
        } else {
            self.progress = progress;
        }
        self.config.set_invalidated(true);
    }

    /// The percentage the widget shows.
    pub fn get_progress(&self) -> (p: u8)
        ensures
            p == self@.progress,
    {
        self.progress
    }

    /// The width of the filled part of the bar.
    pub fn progress_width(&self) -> (w: u64)
        ensures
            w == filled_width(self@.config.extent().0, self@.progress),
    {
        let width = self.config.get_size(CONFIG_SIZE)[0];
        assert(width * self.progress <= 0xffff_ffff * 0xff) by (nonlinear_arith)
            requires
                width <= 0xffff_ffff,
                self.progress <= 0xff,
        ;
        (width as u64 * self.progress as u64) / 100
    }
}

impl<H> ProgressWidgetView<H> {
    /// The filled part of the bar: it keeps 1 from the upper, lower and left edge.
    pub open spec fn bar(self) -> Rect {
        let filled = filled_width(self.config.extent().0, self.progress);
        Rect {
            x: moved(self.config.origin().0, 1),
            y: moved(self.config.origin().1, 1),
            w: (if filled > u32::MAX {
                u32::MAX as int
            } else {
                filled
            }) as u32,
            h: minus(self.config.extent().1 as int, 2) as u32,
        }
    }

    /// The steps of painting the widget: a white body, the filled part of the bar
    /// in the secondary color, and the outline in the color of the border.
    pub open spec fn drawn(self) -> Seq<DrawCommandView> {
        seq![
            DrawCommandView::Fill { area: self.config.area(), color: Color::white() },
            DrawCommandView::Fill {
                area: self.bar(),
                color: self.config.color(CONFIG_COLOR_SECONDARY),
            },
            DrawCommandView::Outline {
                area: self.config.area(),
                color: self.config.color(CONFIG_COLOR_BORDER),
            },
        ]
    }
}

impl<H> ProgressWidget<H> {
    /// The steps of painting the widget.
    pub fn draw(&self) -> (commands: Vec<DrawCommand>)
        ensures
            steps(commands@) == self@.drawn(),
    {
        let area = self.config.area();
        let filled = self.progress_width();
        let bar = Rect {
            x: move_by(area.x, 1),
            y: move_by(area.y, 1),
            w: if filled > u32::MAX as u64 {
                u32::MAX
            } else {
                filled as u32
            },
            h: area.h.saturating_sub(2),
        };
        let mut commands: Vec<DrawCommand> = Vec::new();
        add_step(&mut commands, DrawCommand::Fill { area, color: Color::RGB(255, 255, 255) });
        add_step(
            &mut commands,
            DrawCommand::Fill { area: bar, color: self.config.get_color(CONFIG_COLOR_SECONDARY) },
        );
        add_step(
            &mut commands,
            DrawCommand::Outline { area, color: self.config.get_color(CONFIG_COLOR_BORDER) },
        );
        assert(steps(commands@) =~= self@.drawn());
        commands
    }
}

} // verus!
