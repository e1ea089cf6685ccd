use crate::render::Points;
use crate::render::callbacks::{Callback, CallbackRegistry, CallbackSlot};
use crate::render::draw::{DrawCommand, DrawCommandView, steps};
use crate::render::widget::{BaseWidget, BaseWidgetView, Widget};
use crate::render::widget_config::{Config, ConfigValue, WidgetConfig, WidgetConfigView};
use crate::widgets::checkbox_widget::{CheckboxWidget, CheckboxWidgetView};
use crate::widgets::grid_widget::{GridWidget, GridWidgetView};
use crate::widgets::image_button_widget::{ImageButtonWidget, ImageButtonWidgetView};
use crate::widgets::image_widget::{ImageWidget, ImageWidgetView};
use crate::widgets::list_widget::{ListWidget, ListWidgetView};
use crate::widgets::progress_widget::{ProgressWidget, ProgressWidgetView};
use crate::widgets::push_button_widget::{PushButtonWidget, PushButtonWidgetView};
use crate::widgets::slider_widget::{SliderWidget, SliderWidgetView};
use crate::widgets::tab_bar_widget::{TabBarWidget, TabBarWidgetView};
use crate::widgets::tab_widget::{TabWidget, TabWidgetView};
use crate::widgets::text_widget::{TextWidget, TextWidgetView};
use crate::widgets::tile_widget::{TileWidget, TileWidgetView};
use crate::widgets::timer_widget::{TimerWidget, TimerWidgetView};
use crate::widgets::toggle_button_widget::{ToggleButtonWidget, ToggleButtonWidgetView};
use crate::widgets::viewport_widget::{ViewportWidget, ViewportWidgetView};
use vstd::prelude::*;

verus! {

/// A widget of any of the kinds the library has.
///
/// The cache keeps its widgets in this form, so that an event reaches the hook of
/// the widget's own kind. A kind without a hook of its own for an event passes the
/// event on to the callback registry.
pub enum WidgetStore<H> {
    /// A filled rectangle with a border.
    Base(BaseWidget<H>),
    /// A text.
    Text(TextWidget<H>),
    /// An image.
    Image(ImageWidget<H>),
    /// A progress bar.
    Progress(ProgressWidget<H>),
    /// A timer. Of all events it hears the tick alone.
    Timer(TimerWidget<H>),
    /// A button with a text.
    PushButton(PushButtonWidget<H>),
    /// A button that stays selected or not.
    ToggleButton(ToggleButtonWidget<H>),
    /// A button with an image and a text.
    ImageButton(ImageButtonWidget<H>),
    /// A box that can be checked.
    Checkbox(CheckboxWidget<H>),
    /// A slider.
    Slider(SliderWidget<H>),
    /// A grid of lines.
    Grid(GridWidget<H>),
    /// A list of texts.
    List(ListWidget<H>),
    /// A tile with an image and a text.
    Tile(TileWidget<H>),
    /// A row of tabs.
    TabBar(TabBarWidget<H>),
    /// The body below a row of tabs. It hears every event and does nothing about any.
    Tab(TabWidget<H>),
    /// A window onto a larger area.
    Viewport(ViewportWidget<H>),
}

/// A widget of any kind as a mathematical value.
pub enum WidgetStoreView<H> {
    Base(BaseWidgetView<H>),
    Text(TextWidgetView<H>),
    Image(ImageWidgetView<H>),
    Progress(ProgressWidgetView<H>),
    Timer(TimerWidgetView<H>),
    PushButton(PushButtonWidgetView<H>),
    ToggleButton(ToggleButtonWidgetView<H>),
    ImageButton(ImageButtonWidgetView<H>),
    Checkbox(CheckboxWidgetView<H>),
    Slider(SliderWidgetView<H>),
    Grid(GridWidgetView<H>),
    List(ListWidgetView<H>),
    Tile(TileWidgetView<H>),
    TabBar(TabBarWidgetView<H>),
    Tab(TabWidgetView<H>),
    Viewport(ViewportWidgetView<H>),
}

impl<H> View for WidgetStore<H> {
    type V = WidgetStoreView<H>;

    open spec fn view(&self) -> WidgetStoreView<H> {
        match self {
            WidgetStore::Base(w) => WidgetStoreView::Base(w@),
            WidgetStore::Text(w) => WidgetStoreView::Text(w@),
            WidgetStore::Image(w) => WidgetStoreView::Image(w@),
            WidgetStore::Progress(w) => WidgetStoreView::Progress(w@),
            WidgetStore::Timer(w) => WidgetStoreView::Timer(w@),
            WidgetStore::PushButton(w) => WidgetStoreView::PushButton(w@),
            WidgetStore::ToggleButton(w) => WidgetStoreView::ToggleButton(w@),
            WidgetStore::ImageButton(w) => WidgetStoreView::ImageButton(w@),
            WidgetStore::Checkbox(w) => WidgetStoreView::Checkbox(w@),
            WidgetStore::Slider(w) => WidgetStoreView::Slider(w@),
            WidgetStore::Grid(w) => WidgetStoreView::Grid(w@),
            WidgetStore::List(w) => WidgetStoreView::List(w@),
            WidgetStore::Tile(w) => WidgetStoreView::Tile(w@),
            WidgetStore::TabBar(w) => WidgetStoreView::TabBar(w@),
            WidgetStore::Tab(w) => WidgetStoreView::Tab(w@),
            WidgetStore::Viewport(w) => WidgetStoreView::Viewport(w@),
        }
    }
}

impl<H> WidgetStoreView<H> {
    /// The configuration of the widget.
    pub open spec fn config(self) -> WidgetConfigView {
        match self {
            WidgetStoreView::Base(v) => v.config,
            WidgetStoreView::Text(v) => v.config,
            WidgetStoreView::Image(v) => v.config,
            WidgetStoreView::Progress(v) => v.config,
            WidgetStoreView::Timer(v) => v.config,
            WidgetStoreView::PushButton(v) => v.config,
            WidgetStoreView::ToggleButton(v) => v.config,
            WidgetStoreView::ImageButton(v) => v.config,
            WidgetStoreView::Checkbox(v) => v.config,
            WidgetStoreView::Slider(v) => v.config,
            WidgetStoreView::Grid(v) => v.config,
            WidgetStoreView::List(v) => v.config,
            WidgetStoreView::Tile(v) => v.config,
            WidgetStoreView::TabBar(v) => v.config,
            WidgetStoreView::Tab(v) => v.config,
            WidgetStoreView::Viewport(v) => v.config,
        }
    }

    /// The callback registry of the widget.
    pub open spec fn callbacks(self) -> CallbackRegistry<H> {
        match self {
            WidgetStoreView::Base(v) => v.callbacks,
            WidgetStoreView::Text(v) => v.callbacks,
            WidgetStoreView::Image(v) => v.callbacks,
            WidgetStoreView::Progress(v) => v.callbacks,
            WidgetStoreView::Timer(v) => v.callbacks,
            WidgetStoreView::PushButton(v) => v.callbacks,
            WidgetStoreView::ToggleButton(v) => v.callbacks,
            WidgetStoreView::ImageButton(v) => v.callbacks,
            WidgetStoreView::Checkbox(v) => v.callbacks,
            WidgetStoreView::Slider(v) => v.callbacks,
            WidgetStoreView::Grid(v) => v.callbacks,
            WidgetStoreView::List(v) => v.callbacks,
            WidgetStoreView::Tile(v) => v.callbacks,
            WidgetStoreView::TabBar(v) => v.callbacks,
            WidgetStoreView::Tab(v) => v.callbacks,
            WidgetStoreView::Viewport(v) => v.callbacks,
        }
    }

    /// The widget with the configuration `c` in place of its own.
    pub open spec fn with_config(self, c: WidgetConfigView) -> WidgetStoreView<H> {
        match self {
            WidgetStoreView::Base(v) => WidgetStoreView::Base(BaseWidgetView { config: c, ..v }),
            WidgetStoreView::Text(v) => WidgetStoreView::Text(TextWidgetView { config: c, ..v }),
            WidgetStoreView::Image(v) => WidgetStoreView::Image(ImageWidgetView { config: c, ..v }),
            WidgetStoreView::Progress(v) => WidgetStoreView::Progress(ProgressWidgetView { config: c, ..v }),
            WidgetStoreView::Timer(v) => WidgetStoreView::Timer(TimerWidgetView { config: c, ..v }),
            WidgetStoreView::PushButton(v) => WidgetStoreView::PushButton(PushButtonWidgetView { config: c, ..v }),
            WidgetStoreView::ToggleButton(v) => WidgetStoreView::ToggleButton(ToggleButtonWidgetView { config: c, ..v }),
            WidgetStoreView::ImageButton(v) => WidgetStoreView::ImageButton(ImageButtonWidgetView { config: c, ..v }),
            WidgetStoreView::Checkbox(v) => WidgetStoreView::Checkbox(CheckboxWidgetView { config: c, ..v }),
            WidgetStoreView::Slider(v) => WidgetStoreView::Slider(SliderWidgetView { config: c, ..v }),
            WidgetStoreView::Grid(v) => WidgetStoreView::Grid(GridWidgetView { config: c, ..v }),
            WidgetStoreView::List(v) => WidgetStoreView::List(ListWidgetView { config: c, ..v }),
            WidgetStoreView::Tile(v) => WidgetStoreView::Tile(TileWidgetView { config: c, ..v }),
            WidgetStoreView::TabBar(v) => WidgetStoreView::TabBar(TabBarWidgetView { config: c, ..v }),
            WidgetStoreView::Tab(v) => WidgetStoreView::Tab(TabWidgetView { config: c, ..v }),
            WidgetStoreView::Viewport(v) => WidgetStoreView::Viewport(ViewportWidgetView { config: c, ..v }),
        }
    }

    /// The widget with the callback registry `r` in place of its own.
    pub open spec fn with_callbacks(self, r: CallbackRegistry<H>) -> WidgetStoreView<H> {
        match self {
            WidgetStoreView::Base(v) => WidgetStoreView::Base(BaseWidgetView { callbacks: r, ..v }),
            WidgetStoreView::Text(v) => WidgetStoreView::Text(TextWidgetView { callbacks: r, ..v }),
            WidgetStoreView::Image(v) => WidgetStoreView::Image(ImageWidgetView { callbacks: r, ..v }),
            WidgetStoreView::Progress(v) => WidgetStoreView::Progress(ProgressWidgetView { callbacks: r, ..v }),
            WidgetStoreView::Timer(v) => WidgetStoreView::Timer(TimerWidgetView { callbacks: r, ..v }),
            WidgetStoreView::PushButton(v) => WidgetStoreView::PushButton(PushButtonWidgetView { callbacks: r, ..v }),
            WidgetStoreView::ToggleButton(v) => WidgetStoreView::ToggleButton(ToggleButtonWidgetView { callbacks: r, ..v }),
            WidgetStoreView::ImageButton(v) => WidgetStoreView::ImageButton(ImageButtonWidgetView { callbacks: r, ..v }),
            WidgetStoreView::Checkbox(v) => WidgetStoreView::Checkbox(CheckboxWidgetView { callbacks: r, ..v }),
            WidgetStoreView::Slider(v) => WidgetStoreView::Slider(SliderWidgetView { callbacks: r, ..v }),
            WidgetStoreView::Grid(v) => WidgetStoreView::Grid(GridWidgetView { callbacks: r, ..v }),
            WidgetStoreView::List(v) => WidgetStoreView::List(ListWidgetView { callbacks: r, ..v }),
            WidgetStoreView::Tile(v) => WidgetStoreView::Tile(TileWidgetView { callbacks: r, ..v }),
            WidgetStoreView::TabBar(v) => WidgetStoreView::TabBar(TabBarWidgetView { callbacks: r, ..v }),
            WidgetStoreView::Tab(v) => WidgetStoreView::Tab(TabWidgetView { callbacks: r, ..v }),
            WidgetStoreView::Viewport(v) => WidgetStoreView::Viewport(ViewportWidgetView { callbacks: r, ..v }),
        }
    }

    /// The widget after it was told that `value` was set under key `k`.
    pub open spec fn config_changed(self, k: u8, value: ConfigValue) -> WidgetStoreView<H> {
        match self {
            WidgetStoreView::Base(v) => WidgetStoreView::Base(<BaseWidget<H> as Widget<H>>::config_changed(v, k, value)),
            WidgetStoreView::Text(v) => WidgetStoreView::Text(<TextWidget<H> as Widget<H>>::config_changed(v, k, value)),
            WidgetStoreView::Image(v) => WidgetStoreView::Image(<ImageWidget<H> as Widget<H>>::config_changed(v, k, value)),
            WidgetStoreView::Progress(v) => WidgetStoreView::Progress(<ProgressWidget<H> as Widget<H>>::config_changed(v, k, value)),
            WidgetStoreView::Timer(v) => WidgetStoreView::Timer(<TimerWidget<H> as Widget<H>>::config_changed(v, k, value)),
            WidgetStoreView::PushButton(v) => WidgetStoreView::PushButton(<PushButtonWidget<H> as Widget<H>>::config_changed(v, k, value)),
            WidgetStoreView::ToggleButton(v) => WidgetStoreView::ToggleButton(<ToggleButtonWidget<H> as Widget<H>>::config_changed(v, k, value)),
            WidgetStoreView::ImageButton(v) => WidgetStoreView::ImageButton(<ImageButtonWidget<H> as Widget<H>>::config_changed(v, k, value)),
            WidgetStoreView::Checkbox(v) => WidgetStoreView::Checkbox(<CheckboxWidget<H> as Widget<H>>::config_changed(v, k, value)),
            WidgetStoreView::Slider(v) => WidgetStoreView::Slider(<SliderWidget<H> as Widget<H>>::config_changed(v, k, value)),
            WidgetStoreView::Grid(v) => WidgetStoreView::Grid(<GridWidget<H> as Widget<H>>::config_changed(v, k, value)),
            WidgetStoreView::List(v) => WidgetStoreView::List(<ListWidget<H> as Widget<H>>::config_changed(v, k, value)),
            WidgetStoreView::Tile(v) => WidgetStoreView::Tile(<TileWidget<H> as Widget<H>>::config_changed(v, k, value)),
            WidgetStoreView::TabBar(v) => WidgetStoreView::TabBar(<TabBarWidget<H> as Widget<H>>::config_changed(v, k, value)),
            WidgetStoreView::Tab(v) => WidgetStoreView::Tab(<TabWidget<H> as Widget<H>>::config_changed(v, k, value)),
            WidgetStoreView::Viewport(v) => WidgetStoreView::Viewport(<ViewportWidget<H> as Widget<H>>::config_changed(v, k, value)),
        }
    }

    /// The handler in the slot of the widget's own kind; none where the kind has no such slot.
    pub open spec fn own_handler(self) -> Option<H> {
        match self {
            WidgetStoreView::Base(v) => None,
            WidgetStoreView::Text(v) => None,
            WidgetStoreView::Image(v) => None,
            WidgetStoreView::Progress(v) => None,
            WidgetStoreView::Timer(v) => v.on_timeout,
            WidgetStoreView::PushButton(v) => v.on_click,
            WidgetStoreView::ToggleButton(v) => v.on_toggle,
            WidgetStoreView::ImageButton(v) => v.on_click,
            WidgetStoreView::Checkbox(v) => v.on_toggle,
            WidgetStoreView::Slider(v) => v.on_value_changed,
            WidgetStoreView::Grid(v) => None,
            WidgetStoreView::List(v) => v.on_selected,
            WidgetStoreView::Tile(v) => v.on_click,
            WidgetStoreView::TabBar(v) => v.on_tab_selected,
            WidgetStoreView::Tab(v) => None,
            WidgetStoreView::Viewport(v) => None,
        }
    }

    /// The widget with `handler` in the slot of its own kind; the widget itself where the kind has no such slot.
    pub open spec fn with_own_handler(self, handler: Option<H>) -> WidgetStoreView<H> {
        match self {
            WidgetStoreView::Base(v) => WidgetStoreView::Base(v),
            WidgetStoreView::Text(v) => WidgetStoreView::Text(v),
            WidgetStoreView::Image(v) => WidgetStoreView::Image(v),
            WidgetStoreView::Progress(v) => WidgetStoreView::Progress(v),
            WidgetStoreView::Timer(v) => WidgetStoreView::Timer(TimerWidgetView { on_timeout: handler, ..v }),
            WidgetStoreView::PushButton(v) => WidgetStoreView::PushButton(PushButtonWidgetView { on_click: handler, ..v }),
            WidgetStoreView::ToggleButton(v) => WidgetStoreView::ToggleButton(ToggleButtonWidgetView { on_toggle: handler, ..v }),
            WidgetStoreView::ImageButton(v) => WidgetStoreView::ImageButton(ImageButtonWidgetView { on_click: handler, ..v }),
            WidgetStoreView::Checkbox(v) => WidgetStoreView::Checkbox(CheckboxWidgetView { on_toggle: handler, ..v }),
            WidgetStoreView::Slider(v) => WidgetStoreView::Slider(SliderWidgetView { on_value_changed: handler, ..v }),
            WidgetStoreView::Grid(v) => WidgetStoreView::Grid(v),
            WidgetStoreView::List(v) => WidgetStoreView::List(ListWidgetView { on_selected: handler, ..v }),
            WidgetStoreView::Tile(v) => WidgetStoreView::Tile(TileWidgetView { on_click: handler, ..v }),
            WidgetStoreView::TabBar(v) => WidgetStoreView::TabBar(TabBarWidgetView { on_tab_selected: handler, ..v }),
            WidgetStoreView::Tab(v) => WidgetStoreView::Tab(v),
            WidgetStoreView::Viewport(v) => WidgetStoreView::Viewport(v),
        }
    }

    /// The handler in `slot`.
    pub open spec fn handler(self, slot: CallbackSlot) -> Option<H> {
        if slot == CallbackSlot::Widget {
            self.own_handler()
        } else {
            self.callbacks().handler(slot)
        }
    }

    /// The widget with `handler` in `slot`.
    pub open spec fn with_handler(self, slot: CallbackSlot, handler: Option<H>) -> WidgetStoreView<H> {
        if slot == CallbackSlot::Widget {
            self.with_own_handler(handler)
        } else {
            self.with_callbacks(self.callbacks().with_handler(slot, handler))
        }
    }

    /// What an event does to a widget without a hook of its own for it: the widget
    /// stays as it is, and `callback` is due where its handler is set.
    pub open spec fn passed_on(self, callback: Callback) -> (WidgetStoreView<H>, Seq<Callback>) {
        (self, self.callbacks().fired(callback))
    }

    /// Whether the widget is hit by a pointer at `(x, y)`: it is shown, enabled,
    /// and the point lies inside its bounds.
    pub open spec fn is_hit(self, x: int, y: int) -> bool {
        !self.config().hidden && self.config().enabled && self.config().contains_point(x, y)
    }

    /// The pointer comes into the widget's bounds.
    pub open spec fn mouse_entered(self) -> (WidgetStoreView<H>, Seq<Callback>) {
        match self {
            WidgetStoreView::Timer(v) => (self, Seq::<Callback>::empty()),
            WidgetStoreView::PushButton(v) => {
                let (after, fired) = v.mouse_entered();
                (WidgetStoreView::PushButton(after), fired)
            },
            WidgetStoreView::ToggleButton(v) => {
                let (after, fired) = v.mouse_entered();
                (WidgetStoreView::ToggleButton(after), fired)
            },
            WidgetStoreView::ImageButton(v) => {
                let (after, fired) = v.mouse_entered();
                (WidgetStoreView::ImageButton(after), fired)
            },
            WidgetStoreView::Checkbox(v) => {
                let (after, fired) = v.mouse_entered();
                (WidgetStoreView::Checkbox(after), fired)
            },
            WidgetStoreView::Slider(v) => {
                let (after, fired) = v.mouse_entered();
                (WidgetStoreView::Slider(after), fired)
            },
            WidgetStoreView::List(v) => {
                let (after, fired) = v.mouse_entered();
                (WidgetStoreView::List(after), fired)
            },
            WidgetStoreView::Tile(v) => {
                let (after, fired) = v.mouse_entered();
                (WidgetStoreView::Tile(after), fired)
            },
            WidgetStoreView::TabBar(v) => {
                let (after, fired) = v.mouse_entered();
                (WidgetStoreView::TabBar(after), fired)
            },
            WidgetStoreView::Tab(v) => (self, Seq::<Callback>::empty()),
            _ => self.passed_on(Callback::MouseEntered),
        }
    }

    /// The pointer leaves the widget's bounds.
    pub open spec fn mouse_exited(self) -> (WidgetStoreView<H>, Seq<Callback>) {
        match self {
            WidgetStoreView::Timer(v) => (self, Seq::<Callback>::empty()),
            WidgetStoreView::PushButton(v) => {
                let (after, fired) = v.mouse_exited();
                (WidgetStoreView::PushButton(after), fired)
            },
            WidgetStoreView::ToggleButton(v) => {
                let (after, fired) = v.mouse_exited();
                (WidgetStoreView::ToggleButton(after), fired)
            },
            WidgetStoreView::ImageButton(v) => {
                let (after, fired) = v.mouse_exited();
                (WidgetStoreView::ImageButton(after), fired)
            },
            WidgetStoreView::Checkbox(v) => {
                let (after, fired) = v.mouse_exited();
                (WidgetStoreView::Checkbox(after), fired)
            },
            WidgetStoreView::Slider(v) => {
                let (after, fired) = v.mouse_exited();
                (WidgetStoreView::Slider(after), fired)
            },
            WidgetStoreView::List(v) => {
                let (after, fired) = v.mouse_exited();
                (WidgetStoreView::List(after), fired)
            },
            WidgetStoreView::Tile(v) => {
                let (after, fired) = v.mouse_exited();
                (WidgetStoreView::Tile(after), fired)
            },
            WidgetStoreView::TabBar(v) => {
                let (after, fired) = v.mouse_exited();
                (WidgetStoreView::TabBar(after), fired)
            },
            WidgetStoreView::Tab(v) => (self, Seq::<Callback>::empty()),
            _ => self.passed_on(Callback::MouseExited),
        }
    }

    /// The pointer moves to `(x, y)` over the widget.
    pub open spec fn mouse_moved(self, x: i32, y: i32) -> (WidgetStoreView<H>, Seq<Callback>) {
        match self {
            WidgetStoreView::Timer(v) => (self, Seq::<Callback>::empty()),
            WidgetStoreView::Slider(v) => {
                let (after, fired) = v.mouse_moved(x, y);
                (WidgetStoreView::Slider(after), fired)
            },
            WidgetStoreView::List(v) => {
                let (after, fired) = v.mouse_moved(x, y);
                (WidgetStoreView::List(after), fired)
            },
            WidgetStoreView::TabBar(v) => {
                let (after, fired) = v.mouse_moved(x, y);
                (WidgetStoreView::TabBar(after), fired)
            },
            WidgetStoreView::Tab(v) => (self, Seq::<Callback>::empty()),
            _ => self.passed_on(Callback::MouseMoved { x, y }),
        }
    }

    /// The wheel turns by `(x, y)` over the widget.
    pub open spec fn mouse_scrolled(self, x: i32, y: i32) -> (WidgetStoreView<H>, Seq<Callback>) {
        match self {
            WidgetStoreView::Timer(v) => (self, Seq::<Callback>::empty()),
            WidgetStoreView::Slider(v) => {
                let (after, fired) = v.mouse_scrolled(x, y);
                (WidgetStoreView::Slider(after), fired)
            },
            WidgetStoreView::Tab(v) => (self, Seq::<Callback>::empty()),
            _ => self.passed_on(Callback::MouseScrolled { x, y }),
        }
    }

    /// A mouse button goes down (`state`) or up.
    pub open spec fn button_clicked(self, button: u8, clicks: u8, state: bool) -> (WidgetStoreView<H>, Seq<Callback>) {
        match self {
            WidgetStoreView::Timer(v) => (self, Seq::<Callback>::empty()),
            WidgetStoreView::PushButton(v) => {
                let (after, fired) = v.button_clicked(button, clicks, state);
                (WidgetStoreView::PushButton(after), fired)
            },
            WidgetStoreView::ToggleButton(v) => {
                let (after, fired) = v.button_clicked(button, clicks, state);
                (WidgetStoreView::ToggleButton(after), fired)
            },
            WidgetStoreView::ImageButton(v) => {
                let (after, fired) = v.button_clicked(button, clicks, state);
                (WidgetStoreView::ImageButton(after), fired)
            },
            WidgetStoreView::Checkbox(v) => {
                let (after, fired) = v.button_clicked(button, clicks, state);
                (WidgetStoreView::Checkbox(after), fired)
            },
            WidgetStoreView::Slider(v) => {
                let (after, fired) = v.button_clicked(button, clicks, state);
                (WidgetStoreView::Slider(after), fired)
            },
            WidgetStoreView::List(v) => {
                let (after, fired) = v.button_clicked(button, clicks, state);
                (WidgetStoreView::List(after), fired)
            },
            WidgetStoreView::Tile(v) => {
                let (after, fired) = v.button_clicked(button, clicks, state);
                (WidgetStoreView::Tile(after), fired)
            },
            WidgetStoreView::TabBar(v) => {
                let (after, fired) = v.button_clicked(button, clicks, state);
                (WidgetStoreView::TabBar(after), fired)
            },
            WidgetStoreView::Tab(v) => (self, Seq::<Callback>::empty()),
            _ => self.passed_on(Callback::MouseClicked { button, clicks, state }),
        }
    }

    /// A frame goes by, at the time `now` in milliseconds.
    pub open spec fn tick(self, now: u64) -> (WidgetStoreView<H>, Seq<Callback>) {
        match self {
            WidgetStoreView::Timer(v) => {
                let (after, fired) = v.tick(now);
                (WidgetStoreView::Timer(after), fired)
            },
            WidgetStoreView::Tab(v) => (self, Seq::<Callback>::empty()),
            _ => self.passed_on(Callback::Tick),
        }
    }

}

impl<H> Widget<H> for WidgetStore<H> {
    open spec fn config_of(v: WidgetStoreView<H>) -> WidgetConfigView {
        v.config()
    }

    open spec fn callbacks_of(v: WidgetStoreView<H>) -> CallbackRegistry<H> {
        v.callbacks()
    }

    open spec fn with_config(v: WidgetStoreView<H>, c: WidgetConfigView) -> WidgetStoreView<H> {
        v.with_config(c)
    }

    open spec fn with_callbacks(v: WidgetStoreView<H>, r: CallbackRegistry<H>) -> WidgetStoreView<H> {
        v.with_callbacks(r)
    }

    open spec fn config_changed(v: WidgetStoreView<H>, k: u8, value: ConfigValue) -> WidgetStoreView<H> {
        v.config_changed(k, value)
    }

    fn config(&self) -> (c: &WidgetConfig) {
        match self {
            WidgetStore::Base(w) => w.config(),
            WidgetStore::Text(w) => w.config(),
            WidgetStore::Image(w) => w.config(),
            WidgetStore::Progress(w) => w.config(),
            WidgetStore::Timer(w) => w.config(),
            WidgetStore::PushButton(w) => w.config(),
            WidgetStore::ToggleButton(w) => w.config(),
            WidgetStore::ImageButton(w) => w.config(),
            WidgetStore::Checkbox(w) => w.config(),
            WidgetStore::Slider(w) => w.config(),
            WidgetStore::Grid(w) => w.config(),
            WidgetStore::List(w) => w.config(),
            WidgetStore::Tile(w) => w.config(),
            WidgetStore::TabBar(w) => w.config(),
            WidgetStore::Tab(w) => w.config(),
            WidgetStore::Viewport(w) => w.config(),
        }
    }

    fn get_config(&mut self) -> (c: &mut WidgetConfig) {
        match self {
            WidgetStore::Base(w) => w.get_config(),
            WidgetStore::Text(w) => w.get_config(),
            WidgetStore::Image(w) => w.get_config(),
            WidgetStore::Progress(w) => w.get_config(),
            WidgetStore::Timer(w) => w.get_config(),
            WidgetStore::PushButton(w) => w.get_config(),
            WidgetStore::ToggleButton(w) => w.get_config(),
            WidgetStore::ImageButton(w) => w.get_config(),
            WidgetStore::Checkbox(w) => w.get_config(),
            WidgetStore::Slider(w) => w.get_config(),
            WidgetStore::Grid(w) => w.get_config(),
            WidgetStore::List(w) => w.get_config(),
            WidgetStore::Tile(w) => w.get_config(),
            WidgetStore::TabBar(w) => w.get_config(),
            WidgetStore::Tab(w) => w.get_config(),
            WidgetStore::Viewport(w) => w.get_config(),
        }
    }

    fn callbacks(&self) -> (r: &CallbackRegistry<H>) {
        match self {
            WidgetStore::Base(w) => w.callbacks(),
            WidgetStore::Text(w) => w.callbacks(),
            WidgetStore::Image(w) => w.callbacks(),
            WidgetStore::Progress(w) => w.callbacks(),
            WidgetStore::Timer(w) => w.callbacks(),
            WidgetStore::PushButton(w) => w.callbacks(),
            WidgetStore::ToggleButton(w) => w.callbacks(),
            WidgetStore::ImageButton(w) => w.callbacks(),
            WidgetStore::Checkbox(w) => w.callbacks(),
            WidgetStore::Slider(w) => w.callbacks(),
            WidgetStore::Grid(w) => w.callbacks(),
            WidgetStore::List(w) => w.callbacks(),
            WidgetStore::Tile(w) => w.callbacks(),
            WidgetStore::TabBar(w) => w.callbacks(),
            WidgetStore::Tab(w) => w.callbacks(),
            WidgetStore::Viewport(w) => w.callbacks(),
        }
    }

    fn get_callbacks(&mut self) -> (r: &mut CallbackRegistry<H>) {
        match self {
            WidgetStore::Base(w) => w.get_callbacks(),
            WidgetStore::Text(w) => w.get_callbacks(),
            WidgetStore::Image(w) => w.get_callbacks(),
            WidgetStore::Progress(w) => w.get_callbacks(),
            WidgetStore::Timer(w) => w.get_callbacks(),
            WidgetStore::PushButton(w) => w.get_callbacks(),
            WidgetStore::ToggleButton(w) => w.get_callbacks(),
            WidgetStore::ImageButton(w) => w.get_callbacks(),
            WidgetStore::Checkbox(w) => w.get_callbacks(),
            WidgetStore::Slider(w) => w.get_callbacks(),
            WidgetStore::Grid(w) => w.get_callbacks(),
            WidgetStore::List(w) => w.get_callbacks(),
            WidgetStore::Tile(w) => w.get_callbacks(),
            WidgetStore::TabBar(w) => w.get_callbacks(),
            WidgetStore::Tab(w) => w.get_callbacks(),
            WidgetStore::Viewport(w) => w.get_callbacks(),
        }
    }

    fn on_config_changed(&mut self, k: u8, v: Config) {
        match self {
            WidgetStore::Base(w) => w.on_config_changed(k, v),
            WidgetStore::Text(w) => w.on_config_changed(k, v),
            WidgetStore::Image(w) => w.on_config_changed(k, v),
            WidgetStore::Progress(w) => w.on_config_changed(k, v),
            WidgetStore::Timer(w) => w.on_config_changed(k, v),
            WidgetStore::PushButton(w) => w.on_config_changed(k, v),
            WidgetStore::ToggleButton(w) => w.on_config_changed(k, v),
            WidgetStore::ImageButton(w) => w.on_config_changed(k, v),
            WidgetStore::Checkbox(w) => w.on_config_changed(k, v),
            WidgetStore::Slider(w) => w.on_config_changed(k, v),
            WidgetStore::Grid(w) => w.on_config_changed(k, v),
            WidgetStore::List(w) => w.on_config_changed(k, v),
            WidgetStore::Tile(w) => w.on_config_changed(k, v),
            WidgetStore::TabBar(w) => w.on_config_changed(k, v),
            WidgetStore::Tab(w) => w.on_config_changed(k, v),
            WidgetStore::Viewport(w) => w.on_config_changed(k, v),
        }
    }
}

impl<H> WidgetStore<H> {
    /// The pointer comes into the widget's bounds.
    pub fn mouse_entered(&mut self) -> (fired: Vec<Callback>)
        ensures
            (final(self)@, fired@) == old(self)@.mouse_entered(),
    {
        match self {
            WidgetStore::Timer(_) => Vec::new(),
            WidgetStore::PushButton(w) => w.mouse_entered(),
            WidgetStore::ToggleButton(w) => w.mouse_entered(),
            WidgetStore::ImageButton(w) => w.mouse_entered(),
            WidgetStore::Checkbox(w) => w.mouse_entered(),
            WidgetStore::Slider(w) => w.mouse_entered(),
            WidgetStore::List(w) => w.mouse_entered(),
            WidgetStore::Tile(w) => w.mouse_entered(),
            WidgetStore::TabBar(w) => w.mouse_entered(),
            WidgetStore::Tab(_) => Vec::new(),
            _ => self.callbacks().fire(Callback::MouseEntered),
        }
    }

    /// The pointer leaves the widget's bounds.
    pub fn mouse_exited(&mut self) -> (fired: Vec<Callback>)
        ensures
            (final(self)@, fired@) == old(self)@.mouse_exited(),
    {
        match self {
            WidgetStore::Timer(_) => Vec::new(),
            WidgetStore::PushButton(w) => w.mouse_exited(),
            WidgetStore::ToggleButton(w) => w.mouse_exited(),
            WidgetStore::ImageButton(w) => w.mouse_exited(),
            WidgetStore::Checkbox(w) => w.mouse_exited(),
            WidgetStore::Slider(w) => w.mouse_exited(),
            WidgetStore::List(w) => w.mouse_exited(),
            WidgetStore::Tile(w) => w.mouse_exited(),
            WidgetStore::TabBar(w) => w.mouse_exited(),
            WidgetStore::Tab(_) => Vec::new(),
            _ => self.callbacks().fire(Callback::MouseExited),
        }
    }

    /// The pointer moves to `points` over the widget.
    pub fn mouse_moved(&mut self, points: Points) -> (fired: Vec<Callback>)
        ensures
            (final(self)@, fired@) == old(self)@.mouse_moved(points[0], points[1]),
    {
        match self {
            WidgetStore::Timer(_) => Vec::new(),
            WidgetStore::Slider(w) => w.mouse_moved(points),
            WidgetStore::List(w) => w.mouse_moved(points),
            WidgetStore::TabBar(w) => w.mouse_moved(points),
            WidgetStore::Tab(_) => Vec::new(),
            _ => self.callbacks().fire(Callback::MouseMoved { x: points[0], y: points[1] }),
        }
    }

    /// The wheel turns by `points` over the widget.
    pub fn mouse_scrolled(&mut self, points: Points) -> (fired: Vec<Callback>)
        ensures
            (final(self)@, fired@) == old(self)@.mouse_scrolled(points[0], points[1]),
    {
        match self {
            WidgetStore::Timer(_) => Vec::new(),
            WidgetStore::Slider(w) => w.mouse_scrolled(points),
            WidgetStore::Tab(_) => Vec::new(),
            _ => self.callbacks().fire(Callback::MouseScrolled { x: points[0], y: points[1] }),
        }
    }

    /// A mouse button goes down (`state`) or up.
    pub fn button_clicked(&mut self, button: u8, clicks: u8, state: bool) -> (fired: Vec<Callback>)
        ensures
            (final(self)@, fired@) == old(self)@.button_clicked(button, clicks, state),
    {
        match self {
            WidgetStore::Timer(_) => Vec::new(),
            WidgetStore::PushButton(w) => w.button_clicked(button, clicks, state),
            WidgetStore::ToggleButton(w) => w.button_clicked(button, clicks, state),
            WidgetStore::ImageButton(w) => w.button_clicked(button, clicks, state),
            WidgetStore::Checkbox(w) => w.button_clicked(button, clicks, state),
            WidgetStore::Slider(w) => w.button_clicked(button, clicks, state),
            WidgetStore::List(w) => w.button_clicked(button, clicks, state),
            WidgetStore::Tile(w) => w.button_clicked(button, clicks, state),
            WidgetStore::TabBar(w) => w.button_clicked(button, clicks, state),
            WidgetStore::Tab(_) => Vec::new(),
            _ => self.callbacks().fire(Callback::MouseClicked { button, clicks, state }),
        }
    }

    /// A frame goes by, at the time `now` in milliseconds.
    pub fn tick(&mut self, now: u64) -> (fired: Vec<Callback>)
        ensures
            (final(self)@, fired@) == old(self)@.tick(now),
    {
        match self {
            WidgetStore::Timer(w) => w.tick(now),
            WidgetStore::Tab(_) => Vec::new(),
            _ => self.callbacks().fire(Callback::Tick),
        }
    }

    /// Takes the handler out of `slot`, to run it. The slot is empty until the
    /// handler is put back.
    pub fn take_callback(&mut self, slot: CallbackSlot) -> (handler: Option<H>)
        ensures
            handler == old(self)@.handler(slot),
            final(self)@ == old(self)@.with_handler(slot, None),
    {
        match slot {
            CallbackSlot::Widget => match self {
                WidgetStore::Timer(w) => w.take_on_timeout(),
                WidgetStore::PushButton(w) => w.take_on_click(),
                WidgetStore::ToggleButton(w) => w.take_on_toggle(),
                WidgetStore::ImageButton(w) => w.take_on_click(),
                WidgetStore::Checkbox(w) => w.take_on_toggle(),
                WidgetStore::Slider(w) => w.take_on_value_changed(),
                WidgetStore::List(w) => w.take_on_selected(),
                WidgetStore::Tile(w) => w.take_on_click(),
                WidgetStore::TabBar(w) => w.take_on_tab_selected(),
                _ => None,
            },
            _ => self.get_callbacks().take(slot),
        }
    }

    /// Puts `handler` back into `slot` after it has run, in place of whatever the
    /// slot holds by then. Hands the handler back where the widget has no such slot.
    pub fn restore_callback(&mut self, slot: CallbackSlot, handler: H) -> (rest: Option<H>)
        ensures
            rest is None ==> final(self)@ == old(self)@.with_handler(slot, Some(handler)),
            rest is Some ==> rest == Some(handler) && final(self)@ == old(self)@,
            rest is Some <==> slot == CallbackSlot::Widget && !old(self)@.has_own_slot(),
    {
        match slot {
            CallbackSlot::Widget => match self {
                WidgetStore::Timer(w) => {
                    w.on_timeout(handler);
                    None
                },
                WidgetStore::PushButton(w) => {
                    w.on_click(handler);
                    None
                },
                WidgetStore::ToggleButton(w) => {
                    w.on_toggle(handler);
                    None
                },
                WidgetStore::ImageButton(w) => {
                    w.on_click(handler);
                    None
                },
                WidgetStore::Checkbox(w) => {
                    w.on_toggle(handler);
                    None
                },
                WidgetStore::Slider(w) => {
                    w.on_value_changed(handler);
                    None
                },
                WidgetStore::List(w) => {
                    w.on_selected(handler);
                    None
                },
                WidgetStore::Tile(w) => {
                    w.on_click(handler);
                    None
                },
                WidgetStore::TabBar(w) => {
                    w.on_tab_selected(handler);
                    None
                },
                _ => Some(handler),
            },
            _ => self.get_callbacks().restore(slot, handler),
        }
    }

    /// The steps of painting the widget.
    pub fn draw(&self) -> (commands: Vec<DrawCommand>)
        ensures
            steps(commands@) == self@.drawn(),
    {
        match self {
            WidgetStore::Base(w) => w.draw(),
            WidgetStore::Text(w) => w.draw(),
            WidgetStore::Image(w) => w.draw(),
            WidgetStore::Progress(w) => w.draw(),
            WidgetStore::Timer(w) => w.draw(),
            WidgetStore::PushButton(w) => w.draw(),
            WidgetStore::ToggleButton(w) => w.draw(),
            WidgetStore::ImageButton(w) => w.draw(),
            WidgetStore::Checkbox(w) => w.draw(),
            WidgetStore::Slider(w) => w.draw(),
            WidgetStore::Grid(w) => w.draw(),
            WidgetStore::List(w) => w.draw(),
            WidgetStore::Tile(w) => w.draw(),
            WidgetStore::TabBar(w) => w.draw(),
            WidgetStore::Tab(w) => w.draw(),
            WidgetStore::Viewport(w) => w.draw(),
        }
    }

    /// Whether the widget is hit by a pointer at `(x, y)`.
    pub fn is_hit(&self, x: i32, y: i32) -> (b: bool)
        ensures
            b == self@.is_hit(x as int, y as int),
    {
        let config = self.config();
        !config.is_hidden() && config.is_enabled() && config.contains_point(x, y)
    }
}

impl<H> WidgetStoreView<H> {
    /// The steps of painting the widget, as its kind takes them.
    pub open spec fn drawn(self) -> Seq<DrawCommandView> {
        match self {
            WidgetStoreView::Base(v) => v.drawn(),
            WidgetStoreView::Text(v) => v.drawn(),
            WidgetStoreView::Image(v) => v.drawn(),
            WidgetStoreView::Progress(v) => v.drawn(),
            WidgetStoreView::Timer(v) => v.drawn(),
            WidgetStoreView::PushButton(v) => v.drawn(),
            WidgetStoreView::ToggleButton(v) => v.drawn(),
            WidgetStoreView::ImageButton(v) => v.drawn(),
            WidgetStoreView::Checkbox(v) => v.drawn(),
            WidgetStoreView::Slider(v) => v.drawn(),
            WidgetStoreView::Grid(v) => v.drawn(),
            WidgetStoreView::List(v) => v.drawn(),
            WidgetStoreView::Tile(v) => v.drawn(),
            WidgetStoreView::TabBar(v) => v.drawn(),
            WidgetStoreView::Tab(v) => v.drawn(),
            WidgetStoreView::Viewport(v) => v.drawn(),
        }
    }

    /// Whether the widget's kind has a slot of its own.
    pub open spec fn has_own_slot(self) -> bool {
        match self {
            WidgetStoreView::Base(_) => false,
            WidgetStoreView::Text(_) => false,
            WidgetStoreView::Image(_) => false,
            WidgetStoreView::Progress(_) => false,
            WidgetStoreView::Timer(_) => true,
            WidgetStoreView::PushButton(_) => true,
            WidgetStoreView::ToggleButton(_) => true,
            WidgetStoreView::ImageButton(_) => true,
            WidgetStoreView::Checkbox(_) => true,
            WidgetStoreView::Slider(_) => true,
            WidgetStoreView::Grid(_) => false,
            WidgetStoreView::List(_) => true,
            WidgetStoreView::Tile(_) => true,
            WidgetStoreView::TabBar(_) => true,
            WidgetStoreView::Tab(_) => false,
            WidgetStoreView::Viewport(_) => false,
        }
    }
}

} // verus!
