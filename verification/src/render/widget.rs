use crate::render::{Points, Size};
use crate::render::callbacks::{Callback, CallbackRegistry};
use crate::render::draw::{add_border, add_step, border, DrawCommand, DrawCommandView, steps};
use crate::render::widget_config::{
    Color, CompassPosition, Config, CONFIG_BORDER_WIDTH, CONFIG_COLOR_BASE, CONFIG_COLOR_BORDER,
    CONFIG_ORIGIN, CONFIG_SIZE, ConfigValue, WidgetConfig, WidgetConfigView,
};
use vstd::prelude::*;

verus! {

/// A rectangle on the screen: its upper left-hand corner, width and height.
#[derive(Clone, Copy, Debug, PartialEq, Eq, Structural)]
pub struct Rect {
    pub x: i32,
    pub y: i32,
    pub w: u32,
    pub h: u32,
}

/// What every widget has: a configuration and a callback registry, and the
/// operations that need no more than these two.
///
/// A widget is described by its view. The four functions `config_of`,
/// `callbacks_of`, `with_config` and `with_callbacks` say where the two parts sit
/// in that view; `config_changed` says what the widget makes of a property that
/// was set through one of the setters below.
pub trait Widget<H>: View + Sized {
    /// The configuration in the widget `v`.
    spec fn config_of(v: Self::V) -> WidgetConfigView;

    /// The callback registry in the widget `v`.
    spec fn callbacks_of(v: Self::V) -> CallbackRegistry<H>;

    /// The widget `v` with the configuration `c` in place of its own.
    spec fn with_config(v: Self::V, c: WidgetConfigView) -> Self::V;

    /// The widget `v` with the callback registry `r` in place of its own.
    spec fn with_callbacks(v: Self::V, r: CallbackRegistry<H>) -> Self::V;

    /// The widget `v` after it was told that `value` was set under key `k`.
    spec fn config_changed(v: Self::V, k: u8, value: ConfigValue) -> Self::V;

    /// The widget's configuration.
    fn config(&self) -> (c: &WidgetConfig)
        ensures
            c@ == Self::config_of(self@),
    ;

    /// The widget's configuration, to change it.
    fn get_config(&mut self) -> (c: &mut WidgetConfig)
        ensures
            c@ == Self::config_of(old(self)@),
            final(self)@ == Self::with_config(old(self)@, final(c)@),
    ;

    /// The widget's callback registry.
    fn callbacks(&self) -> (r: &CallbackRegistry<H>)
        ensures
            *r == Self::callbacks_of(self@),
    ;

    /// The widget's callback registry, to change it.
    fn get_callbacks(&mut self) -> (r: &mut CallbackRegistry<H>)
        ensures
            *r == Self::callbacks_of(old(self)@),
            final(self)@ == Self::with_callbacks(old(self)@, *final(r)),
    ;

    /// Tells the widget that `v` was set under key `k` by one of the setters of
    /// this trait.
    fn on_config_changed(&mut self, k: u8, v: Config)
        ensures
            final(self)@ == Self::config_changed(old(self)@, k, v@),
    ;

    /// Stores the coordinates `(x, y)` under `config`.
    fn set_point(&mut self, config: u8, x: i32, y: i32)
        ensures
            final(self)@ == Self::config_changed(
                Self::with_config(
                    old(self)@,
                    Self::config_of(old(self)@).set(config, ConfigValue::Points { x, y }),
                ),
                config,
                ConfigValue::Points { x, y },
            ),
    {
        self.get_config().set_point(config, x, y);
        self.on_config_changed(config, Config::Points([x, y]));
    }

    /// Stores `color` under `config`.
    fn set_color(&mut self, config: u8, color: Color)
        ensures
            final(self)@ == Self::config_changed(
                Self::with_config(
                    old(self)@,
                    Self::config_of(old(self)@).set(config, ConfigValue::Color(color)),
                ),
                config,
                ConfigValue::Color(color),
            ),
    {
        self.get_config().set_color(config, color);
        self.on_config_changed(config, Config::Color(color));
    }

    /// Stores the number `value` under `config`.
    fn set_numeric(&mut self, config: u8, value: i32)
        ensures
            final(self)@ == Self::config_changed(
                Self::with_config(
                    old(self)@,
                    Self::config_of(old(self)@).set(config, ConfigValue::Numeric(value)),
                ),
                config,
                ConfigValue::Numeric(value),
            ),
    {
        self.get_config().set_numeric(config, value);
        self.on_config_changed(config, Config::Numeric(value));
    }

    /// Stores `text` under `config`.
    fn set_text(&mut self, config: u8, text: String)
        ensures
            final(self)@ == Self::config_changed(
                Self::with_config(
                    old(self)@,
                    Self::config_of(old(self)@).set(config, ConfigValue::Text(text@)),
                ),
                config,
                ConfigValue::Text(text@),
            ),
    {
        self.get_config().set_text(config, text.clone());
        self.on_config_changed(config, Config::Text(text));
    }

    /// Stores `flag` under `config`.
    fn set_toggle(&mut self, config: u8, flag: bool)
        ensures
            final(self)@ == Self::config_changed(
                Self::with_config(
                    old(self)@,
                    Self::config_of(old(self)@).set(config, ConfigValue::Toggle(flag)),
                ),
                config,
                ConfigValue::Toggle(flag),
            ),
    {
        self.get_config().set_toggle(config, flag);
        self.on_config_changed(config, Config::Toggle(flag));
    }

    /// Stores the compass position `value` under `config`.
    fn set_compass(&mut self, config: u8, value: CompassPosition)
        ensures
            final(self)@ == Self::config_changed(
                Self::with_config(
                    old(self)@,
                    Self::config_of(old(self)@).set(config, ConfigValue::CompassPosition(value)),
                ),
                config,
                ConfigValue::CompassPosition(value),
            ),
    {
        self.get_config().set_compass(config, value);
        self.on_config_changed(config, Config::CompassPosition(value));
    }

    /// The coordinates under `k`, or `(0, 0)`.
    fn get_point(&self, k: u8) -> (p: Points)
        ensures
            p[0] == Self::config_of(self@).point(k).0,
            p[1] == Self::config_of(self@).point(k).1,
    {
        self.config().get_point(k)
    }

    /// The extents under `k`, or `(0, 0)`.
    fn get_size(&self, k: u8) -> (s: Size)
        ensures
            s[0] == Self::config_of(self@).size(k).0,
            s[1] == Self::config_of(self@).size(k).1,
    {
        self.config().get_size(k)
    }

    /// The color under `k`, or white.
    fn get_color(&self, k: u8) -> (c: Color)
        ensures
            c == Self::config_of(self@).color(k),
    {
        self.config().get_color(k)
    }

    /// The number under `k`, or 0.
    fn get_numeric(&self, k: u8) -> (n: i32)
        ensures
            n == Self::config_of(self@).numeric(k),
    {
        self.config().get_numeric(k)
    }

    /// The text under `k`, or the empty text.
    fn get_text(&self, k: u8) -> (t: String)
        ensures
            t@ == Self::config_of(self@).text(k),
    {
        self.config().get_text(k)
    }

    /// The flag under `k`, or `false`.
    fn get_toggle(&self, k: u8) -> (b: bool)
        ensures
            b == Self::config_of(self@).toggle(k),
    {
        self.config().get_toggle(k)
    }

    /// The compass position under `k`, or `W`.
    fn get_compass(&self, k: u8) -> (p: CompassPosition)
        ensures
            p == Self::config_of(self@).compass(k),
    {
        self.config().get_compass(k)
    }

    /// Moves the widget to `origin`. A new origin asks for a redraw; the origin
    /// the widget already has changes nothing.
    fn set_origin(&mut self, origin: Points)
        ensures
            final(self)@ == Self::with_config(
                old(self)@,
                Self::config_of(old(self)@).set(
                    CONFIG_ORIGIN,
                    ConfigValue::Points { x: origin[0], y: origin[1] },
                ),
            ),
    {
        self.get_config().set_point(CONFIG_ORIGIN, origin[0], origin[1]);
    }

    /// Resizes the widget to `size`. A new size asks for a redraw; the size the
    /// widget already has changes nothing.
    fn set_size(&mut self, size: Size)
        ensures
            final(self)@ == Self::with_config(
                old(self)@,
                Self::config_of(old(self)@).set(
                    CONFIG_SIZE,
                    ConfigValue::Size { w: size[0], h: size[1] },
                ),
            ),
    {
        self.get_config().set_size(CONFIG_SIZE, size[0], size[1]);
    }

    /// The bounds of the widget on the screen.
    fn get_drawing_area(&self) -> (r: Rect)
        ensures
            r.x == Self::config_of(self@).origin().0,
            r.y == Self::config_of(self@).origin().1,
            r.w == Self::config_of(self@).extent().0,
            r.h == Self::config_of(self@).extent().1,
    {
        let origin = self.config().get_point(CONFIG_ORIGIN);
        let size = self.config().get_size(CONFIG_SIZE);
        Rect { x: origin[0], y: origin[1], w: size[0], h: size[1] }
    }

    /// Whether the widget is due for a redraw.
    fn is_invalidated(&self) -> (b: bool)
        ensures
            b == Self::config_of(self@).invalidated,
    {
        self.config().invalidated()
    }

    /// Sets the redraw flag of the widget.
    fn set_invalidated(&mut self, flag: bool)
        ensures
            final(self)@ == Self::with_config(
                old(self)@,
                Self::config_of(old(self)@).with_invalidated(flag),
            ),
    {
        self.get_config().set_invalidated(flag);
    }

    /// The tick callback, where it is due.
    fn tick_callback(&self) -> (fired: Vec<Callback>)
        ensures
            fired@ == Self::callbacks_of(self@).fired(Callback::Tick),
    {
        self.callbacks().fire(Callback::Tick)
    }

    /// The callback for the pointer coming in, where it is due.
    fn mouse_entered_callback(&self) -> (fired: Vec<Callback>)
        ensures
            fired@ == Self::callbacks_of(self@).fired(Callback::MouseEntered),
    {
        self.callbacks().fire(Callback::MouseEntered)
    }

    /// The callback for the pointer leaving, where it is due.
    fn mouse_exited_callback(&self) -> (fired: Vec<Callback>)
        ensures
            fired@ == Self::callbacks_of(self@).fired(Callback::MouseExited),
    {
        self.callbacks().fire(Callback::MouseExited)
    }

    /// The callback for pointer movement, where it is due.
    fn mouse_moved_callback(&self, points: Points) -> (fired: Vec<Callback>)
        ensures
            fired@ == Self::callbacks_of(self@).fired(
                Callback::MouseMoved { x: points[0], y: points[1] },
            ),
    {
        self.callbacks().fire(Callback::MouseMoved { x: points[0], y: points[1] })
    }

    /// The callback for the wheel, where it is due.
    fn mouse_scrolled_callback(&self, points: Points) -> (fired: Vec<Callback>)
        ensures
            fired@ == Self::callbacks_of(self@).fired(
                Callback::MouseScrolled { x: points[0], y: points[1] },
            ),
    {
        self.callbacks().fire(Callback::MouseScrolled { x: points[0], y: points[1] })
    }

    /// The callback for a mouse button, where it is due.
    fn button_clicked_callback(&self, button: u8, clicks: u8, state: bool) -> (fired: Vec<
        Callback,
    >)
        ensures
            fired@ == Self::callbacks_of(self@).fired(
                Callback::MouseClicked { button, clicks, state },
            ),
    {
        self.callbacks().fire(Callback::MouseClicked { button, clicks, state })
    }
}

/// A widget as a mathematical value, for the widgets that are no more than a
/// configuration and a callback registry.
pub struct BaseWidgetView<H> {
    pub config: WidgetConfigView,
    pub callbacks: CallbackRegistry<H>,
}

/// The plainest widget: a filled rectangle with a border. It is the background of
/// a window, and the body of widgets that are built on it.
pub struct BaseWidget<H> {
    config: WidgetConfig,
    callback_registry: CallbackRegistry<H>,
}

impl<H> View for BaseWidget<H> {
    type V = BaseWidgetView<H>;

    closed spec fn view(&self) -> BaseWidgetView<H> {
        BaseWidgetView { config: self.config@, callbacks: self.callback_registry }
    }
}

impl<H> BaseWidget<H> {
    /// A base widget at `points` of size `size`, without handlers.
    pub fn new(points: Points, size: Size) -> (w: BaseWidget<H>)
        ensures
            w@ == (BaseWidgetView {
                config: WidgetConfigView::initial(points[0], points[1], size[0], size[1]),
                callbacks: CallbackRegistry::<H>::empty(),
            }),
    {
        BaseWidget {
            config: WidgetConfig::new(points[0], points[1], size[0], size[1]),
            callback_registry: CallbackRegistry::new(),
        }
    }
}

impl<H> Widget<H> for BaseWidget<H> {
    open spec fn config_of(v: BaseWidgetView<H>) -> WidgetConfigView {
        v.config
    }

    open spec fn callbacks_of(v: BaseWidgetView<H>) -> CallbackRegistry<H> {
        v.callbacks
    }

    open spec fn with_config(v: BaseWidgetView<H>, c: WidgetConfigView) -> BaseWidgetView<H> {
        BaseWidgetView { config: c, ..v }
    }

    open spec fn with_callbacks(v: BaseWidgetView<H>, r: CallbackRegistry<H>) -> BaseWidgetView<
        H,
    > {
        BaseWidgetView { callbacks: r, ..v }
    }

    open spec fn config_changed(v: BaseWidgetView<H>, k: u8, value: ConfigValue) -> BaseWidgetView<
        H,
    > {
        v
    }

    fn config(&self) -> (c: &WidgetConfig) {
        &self.config
    }

    fn get_config(&mut self) -> (c: &mut WidgetConfig) {
        &mut self.config
    }

    fn callbacks(&self) -> (r: &CallbackRegistry<H>) {
        &self.callback_registry
    }

    fn get_callbacks(&mut self) -> (r: &mut CallbackRegistry<H>) {
        &mut self.callback_registry
    }

    fn on_config_changed(&mut self, k: u8, v: Config) {
    }
}

impl<H> BaseWidgetView<H> {
    /// The steps of painting the widget: its body, then its border.
    pub open spec fn drawn(self) -> Seq<DrawCommandView> {
        seq![
            DrawCommandView::Fill {
                area: self.config.area(),
                color: self.config.color(CONFIG_COLOR_BASE),
            },
        ] + border(
            self.config.area(),
            self.config.color(CONFIG_COLOR_BASE),
            self.config.color(CONFIG_COLOR_BORDER),
            self.config.numeric(CONFIG_BORDER_WIDTH),
        )
    }
}

impl<H> BaseWidget<H> {
    /// The steps of painting the widget.
    pub fn draw(&self) -> (commands: Vec<DrawCommand>)
        ensures
            steps(commands@) == self@.drawn(),
    {
        let area = self.config.area();
        let base_color = self.config.get_color(CONFIG_COLOR_BASE);
        let mut commands: Vec<DrawCommand> = Vec::new();
        add_step(&mut commands, DrawCommand::Fill { area, color: base_color });
        add_border(
            &mut commands,
            area,
            base_color,
            self.config.get_color(CONFIG_COLOR_BORDER),
            self.config.get_numeric(CONFIG_BORDER_WIDTH),
        );
        assert(steps(commands@) =~= self@.drawn());
        commands
    }
}

} // verus!
