use crate::render::callbacks::CallbackRegistry;
use crate::render::draw::{add_step, DrawCommand, DrawCommandView, move_by, moved, steps};
use crate::render::widget::Widget;
use crate::render::widget_config::{
    Color, Config, CONFIG_COLOR_BASE, ConfigValue, WidgetConfig, WidgetConfigView,
};
use vstd::prelude::*;

verus! {

/// A tab widget as a mathematical value.
pub struct TabWidgetView<H> {
    pub config: WidgetConfigView,
    pub callbacks: CallbackRegistry<H>,
    pub tabs: Seq<Seq<char>>,
    pub selected_tab: i32,
}

/// The body below a row of tabs. It hears the mouse and does nothing about it.
pub struct TabWidget<H> {
    config: WidgetConfig,
    callback_registry: CallbackRegistry<H>,
    tabs: Vec<String>,
    selected_tab: i32,
}

impl<H> View for TabWidget<H> {
    type V = TabWidgetView<H>;

    closed spec fn view(&self) -> TabWidgetView<H> {
        TabWidgetView {
            config: self.config@,
            callbacks: self.callback_registry,
            tabs: self.tabs@.map_values(|s: String| s@),
            selected_tab: self.selected_tab,
        }
    }
}

impl<H> Widget<H> for TabWidget<H> {
    open spec fn config_of(v: TabWidgetView<H>) -> WidgetConfigView {
        v.config
    }

    open spec fn callbacks_of(v: TabWidgetView<H>) -> CallbackRegistry<H> {
        v.callbacks
    }

    open spec fn with_config(v: TabWidgetView<H>, c: WidgetConfigView) -> TabWidgetView<H> {
        TabWidgetView { config: c, ..v }
    }

    open spec fn with_callbacks(v: TabWidgetView<H>, r: CallbackRegistry<H>) -> TabWidgetView<H> {
        TabWidgetView { callbacks: r, ..v }
    }

    open spec fn config_changed(v: TabWidgetView<H>, k: u8, value: ConfigValue) -> TabWidgetView<H> {
        v
    }

    fn config(&self) -> (c: &WidgetConfig) {
        &self.config
    }

    fn get_config(&mut self) -> (c: &mut WidgetConfig) {
        &mut self.config
    }

    fn callbacks(&self) -> (r: &CallbackRegistry<H>) {
        &self.callback_registry
    }

    fn get_callbacks(&mut self) -> (r: &mut CallbackRegistry<H>) {
        &mut self.callback_registry
    }

    fn on_config_changed(&mut self, k: u8, v: Config) {
    }
}

impl<H> TabWidget<H> {
    /// A tab widget at `(x, y)` of size `w` by `h`, without tabs.
    pub fn new(x: i32, y: i32, w: u32, h: u32) -> (t: TabWidget<H>)
        ensures
            t@ == (TabWidgetView {
                config: WidgetConfigView::initial(x, y, w, h),
                callbacks: CallbackRegistry::<H>::empty(),
                tabs: Seq::<Seq<char>>::empty(),
                selected_tab: 0,
            }),
    {
        let t = TabWidget {
            config: WidgetConfig::new(x, y, w, h),
            callback_registry: CallbackRegistry::new(),
            tabs: Vec::new(),
            selected_tab: 0,
        };
        assert(t@.tabs =~= Seq::<Seq<char>>::empty());
        t
    }

    /// The number of the selected tab.
    pub fn get_selected_tab(&self) -> (i: i32)
        ensures
            i == self@.selected_tab,
    {
        self.selected_tab
    }
}

impl<H> TabWidgetView<H> {
    /// The steps of painting the widget: its body, then a black line along its
    /// lower edge.
    pub open spec fn drawn(self) -> Seq<DrawCommandView> {
        seq![
            DrawCommandView::Fill {
                area: self.config.area(),
                color: self.config.color(CONFIG_COLOR_BASE),
            },
            DrawCommandView::Line {
                x1: self.config.origin().0,
                y1: moved(self.config.origin().1, self.config.extent().1 - 1),
                x2: moved(self.config.origin().0, self.config.extent().0 as int),
                y2: moved(self.config.origin().1, self.config.extent().1 - 1),
                color: Color::black(),
            },
        ]
    }
}

impl<H> TabWidget<H> {
    /// The steps of painting the widget.
    pub fn draw(&self) -> (commands: Vec<DrawCommand>)
        ensures
            steps(commands@) == self@.drawn(),
    {
        let area = self.config.area();
        let bottom = move_by(area.y, area.h as i64 - 1);
        let mut commands: Vec<DrawCommand> = Vec::new();
        add_step(
            &mut commands,
            DrawCommand::Fill { area, color: self.config.get_color(CONFIG_COLOR_BASE) },
        );
        add_step(
            &mut commands,
            DrawCommand::Line {
                x1: area.x,
                y1: bottom,
                x2: move_by(area.x, area.w as i64),
                y2: bottom,
                color: Color::RGB(0, 0, 0),
            },
        );
        assert(steps(commands@) =~= self@.drawn());
        commands
    }
}

} // verus!
