use crate::render::callbacks::{Callback, CallbackRegistry};
use crate::render::draw::{add_steps, DrawCommand, DrawCommandView, steps};
use crate::render::widget::{BaseWidget, BaseWidgetView, Widget};
use crate::render::widget_config::{
    Color, Config, CONFIG_BORDER_WIDTH, CONFIG_COLOR_BASE, CONFIG_COLOR_BORDER, CONFIG_COLOR_TEXT,
    CONFIG_SELECTED_STATE, ConfigValue, WidgetConfig, WidgetConfigView,
};
use crate::widgets::text_widget::{FontStyle, TextJustify, TextWidget, TextWidgetView};
use vstd::prelude::*;

verus! {

/// A toggle button as a mathematical value.
pub struct ToggleButtonWidgetView<H> {
    pub config: WidgetConfigView,
    pub callbacks: CallbackRegistry<H>,
    pub base_widget: BaseWidgetView<H>,
    pub text_widget: TextWidgetView<H>,
    pub active: bool,
    pub selected: bool,
    pub in_bounds: bool,
    pub on_toggle: Option<H>,
}

/// A button that stays selected or not. A press and a release of the left button
/// over it toggle it, and the toggle callback is due.
pub struct ToggleButtonWidget<H> {
    config: WidgetConfig,
    callback_registry: CallbackRegistry<H>,
    base_widget: BaseWidget<H>,
    text_widget: TextWidget<H>,
    active: bool,
    selected: bool,
    in_bounds: bool,
    on_toggle: Option<H>,
}

impl<H> View for ToggleButtonWidget<H> {
    type V = ToggleButtonWidgetView<H>;

    closed spec fn view(&self) -> ToggleButtonWidgetView<H> {
        ToggleButtonWidgetView {
            config: self.config@,
            callbacks: self.callback_registry,
            base_widget: self.base_widget@,
            text_widget: self.text_widget@,
            active: self.active,
            selected: self.selected,
            in_bounds: self.in_bounds,
            on_toggle: self.on_toggle,
        }
    }
}

impl<H> Widget<H> for ToggleButtonWidget<H> {
    open spec fn config_of(v: ToggleButtonWidgetView<H>) -> WidgetConfigView {
        v.config
    }

    open spec fn callbacks_of(v: ToggleButtonWidgetView<H>) -> CallbackRegistry<H> {
        v.callbacks
    }

    open spec fn with_config(v: ToggleButtonWidgetView<H>, c: WidgetConfigView) -> ToggleButtonWidgetView<H> {
        ToggleButtonWidgetView { config: c, ..v }
    }

    open spec fn with_callbacks(v: ToggleButtonWidgetView<H>, r: CallbackRegistry<H>) -> ToggleButtonWidgetView<H> {
        ToggleButtonWidgetView { callbacks: r, ..v }
    }

    open spec fn config_changed(v: ToggleButtonWidgetView<H>, k: u8, value: ConfigValue) -> ToggleButtonWidgetView<H> {
        v
    }

    fn config(&self) -> (c: &WidgetConfig) {
        &self.config
    }

    fn get_config(&mut self) -> (c: &mut WidgetConfig) {
        &mut self.config
    }

    fn callbacks(&self) -> (r: &CallbackRegistry<H>) {
        &self.callback_registry
    }

    fn get_callbacks(&mut self) -> (r: &mut CallbackRegistry<H>) {
        &mut self.callback_registry
    }

    fn on_config_changed(&mut self, k: u8, v: Config) {
    }
}

/// The color of the body of a toggle button: black when it is selected, white when
/// not, and the other way round while it is pressed.
pub open spec fn body_color(selected: bool, pressed: bool) -> Color {
    if selected != pressed {
        Color::black()
    } else {
        Color::white()
    }
}

impl<H> ToggleButtonWidgetView<H> {
    /// Whether a button of size `(w, h)` at `(x, y)` has room for its text, which
    /// keeps 2 from each edge.
    pub open spec fn fits(x: i32, y: i32, w: u32, h: u32) -> bool {
        &&& 4 <= w
        &&& 4 <= h
        &&& x + 2 <= i32::MAX
        &&& y + 2 <= i32::MAX
    }

    /// The button that `new` makes.
    pub open spec fn initial(
        x: i32,
        y: i32,
        w: u32,
        h: u32,
        text: Seq<char>,
        font_size: i32,
        selected: bool,
    ) -> ToggleButtonWidgetView<H> {
        ToggleButtonWidgetView {
            config: WidgetConfigView::initial(x, y, w, h).set(
                CONFIG_SELECTED_STATE,
                ConfigValue::Toggle(selected),
            ),
            callbacks: CallbackRegistry::<H>::empty(),
            base_widget: BaseWidgetView {
                config: WidgetConfigView::initial(x, y, w, h).set(
                    CONFIG_COLOR_BASE,
                    ConfigValue::Color(body_color(selected, false)),
                ).set(CONFIG_COLOR_BORDER, ConfigValue::Color(Color::black())).set(
                    CONFIG_BORDER_WIDTH,
                    ConfigValue::Numeric(2),
                ),
                callbacks: CallbackRegistry::<H>::empty(),
            },
            text_widget: TextWidgetView {
                config: WidgetConfigView::initial(
                    (x + 2) as i32,
                    (y + 2) as i32,
                    (w - 4) as u32,
                    (h - 4) as u32,
                ).set(CONFIG_COLOR_BASE, ConfigValue::Color(body_color(selected, false))).set(
                    CONFIG_COLOR_TEXT,
                    ConfigValue::Color(body_color(selected, true)),
                ),
                callbacks: CallbackRegistry::<H>::empty(),
                font_name: "assets/OpenSans-Regular.ttf"@,
                font_style: FontStyle::normal(),
                font_size,
                justification: TextJustify::Center,
                msg: text,
            },
            active: false,
            selected,
            in_bounds: false,
            on_toggle: None,
        }
    }

    /// The widget with its body in the color `base` and its text in the color
    /// `text`, and due for a redraw.
    pub open spec fn painted_as(self, base: Color, text: Color) -> ToggleButtonWidgetView<H> {
        ToggleButtonWidgetView {
            base_widget: BaseWidgetView {
                config: self.base_widget.config.set(CONFIG_COLOR_BASE, ConfigValue::Color(base)),
                ..self.base_widget
            },
            text_widget: TextWidgetView {
                config: self.text_widget.config.set(
                    CONFIG_COLOR_TEXT,
                    ConfigValue::Color(text),
                ).set(CONFIG_COLOR_BASE, ConfigValue::Color(base)),
                ..self.text_widget
            },
            config: self.config.invalidate(),
            ..self
        }
    }

    /// The widget as it looks while it is pressed: in the colors of the other state.
    pub open spec fn hovered(self) -> ToggleButtonWidgetView<H> {
        self.painted_as(body_color(self.selected, true), body_color(self.selected, false))
    }

    /// The widget as it looks at rest: in the colors of its state.
    pub open spec fn unhovered(self) -> ToggleButtonWidgetView<H> {
        self.painted_as(body_color(self.selected, false), body_color(self.selected, true))
    }

    /// `callback`, where a toggle handler is in its slot.
    pub open spec fn own_fired(self, callback: Callback) -> Seq<Callback> {
        if self.on_toggle is Some {
            seq![callback]
        } else {
            Seq::<Callback>::empty()
        }
    }

    /// The pointer comes into the bounds. A button that is pressed looks pressed
    /// again.
    pub open spec fn mouse_entered(self) -> (ToggleButtonWidgetView<H>, Seq<Callback>) {
        let looks = if self.active {
            self.hovered()
        } else {
            self
        };
        (ToggleButtonWidgetView { in_bounds: true, ..looks }, self.callbacks.fired(Callback::MouseEntered))
    }

    /// The pointer leaves the bounds. A button that is pressed looks at rest
    /// meanwhile.
    pub open spec fn mouse_exited(self) -> (ToggleButtonWidgetView<H>, Seq<Callback>) {
        let looks = if self.active {
            self.unhovered()
        } else {
            self
        };
        (ToggleButtonWidgetView { in_bounds: false, ..looks }, self.callbacks.fired(Callback::MouseExited))
    }

    /// Whether a release of the left button toggles the button: the press began
    /// on it, and the pointer is inside its bounds.
    pub open spec fn release_toggles(self) -> bool {
        self.in_bounds && self.active
    }

    /// A mouse button goes down (`state`) or up.
    ///
    /// The left button alone matters. Its press makes the button look pressed and
    /// marks it as pressed. Its release ends the press; it toggles the button if
    /// `release_toggles`, and the new state is stored under `CONFIG_SELECTED_STATE`.
    pub open spec fn button_clicked(self, button: u8, clicks: u8, state: bool) -> (
        ToggleButtonWidgetView<H>,
        Seq<Callback>,
    ) {
        let clicked = self.callbacks.fired(Callback::MouseClicked { button, clicks, state });
        if button != 1 {
            (self, clicked)
        } else if state {
            (ToggleButtonWidgetView { active: true, ..self.hovered() }, clicked)
        } else if self.release_toggles() {
            (
                ToggleButtonWidgetView {
                    active: false,
                    selected: !self.selected,
                    config: self.config.set(
                        CONFIG_SELECTED_STATE,
                        ConfigValue::Toggle(!self.selected),
                    ),
                    ..self
                },
                self.own_fired(Callback::Toggled { selected: !self.selected }) + clicked,
            )
        } else {
            (ToggleButtonWidgetView { active: false, ..self }, clicked)
        }
    }
}

/// A press on a toggle button followed by a release toggles it only if the pointer
/// is inside the button at the release. For a button with a toggle handler under
/// the pointer: a press and a release turn the state over and fire the toggle
/// callback once, first of all, with the new state; a press, the pointer leaving,
/// and a release leave the state as it is and fire no toggle callback.
pub proof fn lemma_toggle_needs_release_inside<H>(
    button: ToggleButtonWidgetView<H>,
    clicks: u8,
    released: u8,
)
    requires
        button.in_bounds,
        button.on_toggle is Some,
    ensures
        ({
            let pressed = button.button_clicked(1, clicks, true).0;
            let (after, fired) = pressed.button_clicked(1, released, false);
            &&& after.selected == !button.selected
            &&& fired.len() >= 1
            &&& fired[0] == Callback::Toggled { selected: !button.selected }
            &&& forall|i: int| 1 <= i < fired.len() ==> !(fired[i] is Toggled)
        }),
        ({
            let pressed = button.button_clicked(1, clicks, true).0;
            let dragged = pressed.mouse_exited().0;
            let (after, fired) = dragged.button_clicked(1, released, false);
            &&& after.selected == button.selected
            &&& forall|i: int| 0 <= i < fired.len() ==> !(fired[i] is Toggled)
        }),
{
}

impl<H> ToggleButtonWidget<H> {
    /// A toggle button at `(x, y)` of size `w` by `h` with the text `text` at
    /// `font_size`, selected if `selected`.
    pub fn new(x: i32, y: i32, w: u32, h: u32, text: String, font_size: i32, selected: bool) -> (b:
        ToggleButtonWidget<H>)
        requires
            ToggleButtonWidgetView::<H>::fits(x, y, w, h),
        ensures
            b@ == ToggleButtonWidgetView::<H>::initial(x, y, w, h, text@, font_size, selected),
    {
        let mut base_widget: BaseWidget<H> = BaseWidget::new([x, y], [w, h]);
        let mut text_widget: TextWidget<H> = TextWidget::new(
            "assets/OpenSans-Regular.ttf".to_owned(),
            FontStyle::normal(),
            font_size,
            TextJustify::Center,
            text,
            [x + 2, y + 2],
            [w - 4, h - 4],
        );
        let base_color = if selected {
            Color::RGB(0, 0, 0)
        } else {
            Color::RGB(255, 255, 255)
        };
        let text_color = if selected {
            Color::RGB(255, 255, 255)
        } else {
            Color::RGB(0, 0, 0)
        };
        let mut config = WidgetConfig::new(x, y, w, h);
        base_widget.set_color(CONFIG_COLOR_BASE, base_color);
        base_widget.set_color(CONFIG_COLOR_BORDER, Color::RGB(0, 0, 0));
        base_widget.set_numeric(CONFIG_BORDER_WIDTH, 2);
        text_widget.set_color(CONFIG_COLOR_BASE, base_color);
        text_widget.set_color(CONFIG_COLOR_TEXT, text_color);
        config.set_toggle(CONFIG_SELECTED_STATE, selected);
        ToggleButtonWidget {
            config,
            callback_registry: CallbackRegistry::new(),
            base_widget,
            text_widget,
            active: false,
            selected,
            in_bounds: false,
            on_toggle: None,
        }
    }

    /// Sets the handler that runs when the button is toggled.
    pub fn on_toggle(&mut self, callback: H)
        ensures
            final(self)@ == (ToggleButtonWidgetView { on_toggle: Some(callback), ..old(self)@ }),
    {
        self.on_toggle = Some(callback);
    }

    /// Takes the toggle handler out of its slot, to run it.
    pub fn take_on_toggle(&mut self) -> (handler: Option<H>)
        ensures
            handler == old(self)@.on_toggle,
            final(self)@ == (ToggleButtonWidgetView { on_toggle: None, ..old(self)@ }),
    {
        self.on_toggle.take()
    }

    /// The callback of the widget's own kind, where a handler is in its slot.
    fn call_own(&self, callback: Callback) -> (fired: Vec<Callback>)
        ensures
            fired@ == self@.own_fired(callback),
    {
        let mut fired: Vec<Callback> = Vec::new();
        if self.on_toggle.is_some() {
            fired.push(callback);
        }
        fired
    }

    /// Paints the body in `base` and the text in `text`, and asks for a redraw.
    fn paint(&mut self, base: Color, text: Color)
        ensures
            final(self)@ == old(self)@.painted_as(base, text),
    {
        self.base_widget.set_color(CONFIG_COLOR_BASE, base);
        self.text_widget.set_color(CONFIG_COLOR_TEXT, text);
        self.text_widget.set_color(CONFIG_COLOR_BASE, base);
        self.config.set_invalidated(true);
    }

    /// The body of the button.
    pub fn base_widget(&self) -> (w: &BaseWidget<H>)
        ensures
            w@ == self@.base_widget,
    {
        &self.base_widget
    }

    /// The text of the button.
    pub fn text_widget(&self) -> (w: &TextWidget<H>)
        ensures
            w@ == self@.text_widget,
    {
        &self.text_widget
    }

    /// Whether the button is selected.
    pub fn is_selected(&self) -> (b: bool)
        ensures
            b == self@.selected,
    {
        self.selected
    }

    /// Makes the button look pressed.
    fn draw_hovered(&mut self)
        ensures
            final(self)@ == old(self)@.hovered(),
    {
        if self.selected {
            self.paint(Color::RGB(255, 255, 255), Color::RGB(0, 0, 0));
        } else {
            self.paint(Color::RGB(0, 0, 0), Color::RGB(255, 255, 255));
        }
    }

    /// Makes the button look at rest.
    fn draw_unhovered(&mut self)
        ensures
            final(self)@ == old(self)@.unhovered(),
    {
        if self.selected {
            self.paint(Color::RGB(0, 0, 0), Color::RGB(255, 255, 255));
        } else {
            self.paint(Color::RGB(255, 255, 255), Color::RGB(0, 0, 0));
        }
    }

    /// The pointer comes into the bounds.
    pub fn mouse_entered(&mut self) -> (fired: Vec<Callback>)
        ensures
            (final(self)@, fired@) == old(self)@.mouse_entered(),
    {
        if self.active {
            self.draw_hovered();
        }
        self.in_bounds = true;
        self.mouse_entered_callback()
    }

    /// The pointer leaves the bounds.
    pub fn mouse_exited(&mut self) -> (fired: Vec<Callback>)
        ensures
            (final(self)@, fired@) == old(self)@.mouse_exited(),
    {
        if self.active {
            self.draw_unhovered();
        }
        self.in_bounds = false;
        self.mouse_exited_callback()
    }

    /// A mouse button goes down (`state`) or up.
    pub fn button_clicked(&mut self, button: u8, clicks: u8, state: bool) -> (fired: Vec<Callback>)
        ensures
            (final(self)@, fired@) == old(self)@.button_clicked(button, clicks, state),
    {
        let mut fired: Vec<Callback> = Vec::new();
        if button == 1 {
            if state {
                self.draw_hovered();
                self.active = true;
            } else {
                let pressed = self.active;
                self.active = false;
                if self.in_bounds && pressed {
                    self.selected = !self.selected;
                    self.config.set_toggle(CONFIG_SELECTED_STATE, self.selected);
                    fired = self.call_own(Callback::Toggled { selected: self.selected });
                }
            }
        }
        let mut clicked = self.button_clicked_callback(button, clicks, state);
        fired.append(&mut clicked);
        fired
    }
}

impl<H> ToggleButtonWidgetView<H> {
    /// The steps of painting the widget: the body of the button, then its text.
    pub open spec fn drawn(self) -> Seq<DrawCommandView> {
        self.base_widget.drawn() + self.text_widget.drawn()
    }
}

impl<H> ToggleButtonWidget<H> {
    /// The steps of painting the widget.
    pub fn draw(&self) -> (commands: Vec<DrawCommand>)
        ensures
            steps(commands@) == self@.drawn(),
    {
        let mut commands: Vec<DrawCommand> = Vec::new();
        add_steps(&mut commands, self.base_widget.draw());
        add_steps(&mut commands, self.text_widget.draw());
        assert(steps(commands@) =~= self@.drawn());
        commands
    }
}

} // verus!
