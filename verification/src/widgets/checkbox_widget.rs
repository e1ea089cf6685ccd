use crate::render::{Points, Size};
use crate::render::callbacks::{Callback, CallbackRegistry};
use crate::render::draw::{add_steps, DrawCommand, DrawCommandView, steps};
use crate::render::widget::Widget;
use crate::render::widget_config::{
    Color, CompassPosition, Config, CONFIG_COLOR_TEXT, CONFIG_IMAGE_POSITION, CONFIG_SELECTED_STATE,
    ConfigValue, WidgetConfig, WidgetConfigView,
};
use crate::widgets::image_widget::{ImageWidget, ImageWidgetView};
use crate::widgets::text_widget::{FontStyle, TextJustify, TextWidget, TextWidgetView};
use vstd::prelude::*;

verus! {

/// A checkbox as a mathematical value.
pub struct CheckboxWidgetView<H> {
    pub config: WidgetConfigView,
    pub callbacks: CallbackRegistry<H>,
    pub text_widget: TextWidgetView<H>,
    pub unchecked_widget: ImageWidgetView<H>,
    pub checked_widget: ImageWidgetView<H>,
    pub active: bool,
    pub selected: bool,
    pub in_bounds: bool,
    pub originated: bool,
    pub on_toggle: Option<H>,
}

/// A box that is checked or not, with a text beside it. A press and a release of
/// the left button over the box toggle it, and the toggle callback is due.
pub struct CheckboxWidget<H> {
    config: WidgetConfig,
    callback_registry: CallbackRegistry<H>,
    text_widget: TextWidget<H>,
    unchecked_widget: ImageWidget<H>,
    checked_widget: ImageWidget<H>,
    active: bool,
    selected: bool,
    in_bounds: bool,
    originated: bool,
    on_toggle: Option<H>,
}

impl<H> View for CheckboxWidget<H> {
    type V = CheckboxWidgetView<H>;

    closed spec fn view(&self) -> CheckboxWidgetView<H> {
        CheckboxWidgetView {
            config: self.config@,
            callbacks: self.callback_registry,
            text_widget: self.text_widget@,
            unchecked_widget: self.unchecked_widget@,
            checked_widget: self.checked_widget@,
            active: self.active,
            selected: self.selected,
            in_bounds: self.in_bounds,
            originated: self.originated,
            on_toggle: self.on_toggle,
        }
    }
}

impl<H> Widget<H> for CheckboxWidget<H> {
    open spec fn config_of(v: CheckboxWidgetView<H>) -> WidgetConfigView {
        v.config
    }

    open spec fn callbacks_of(v: CheckboxWidgetView<H>) -> CallbackRegistry<H> {
        v.callbacks
    }

    open spec fn with_config(v: CheckboxWidgetView<H>, c: WidgetConfigView) -> CheckboxWidgetView<H> {
        CheckboxWidgetView { config: c, ..v }
    }

    open spec fn with_callbacks(v: CheckboxWidgetView<H>, r: CallbackRegistry<H>) -> CheckboxWidgetView<H> {
        CheckboxWidgetView { callbacks: r, ..v }
    }

    open spec fn config_changed(v: CheckboxWidgetView<H>, k: u8, value: ConfigValue) -> CheckboxWidgetView<H> {
        v
    }

    fn config(&self) -> (c: &WidgetConfig) {
        &self.config
    }

    fn get_config(&mut self) -> (c: &mut WidgetConfig) {
        &mut self.config
    }

    fn callbacks(&self) -> (r: &CallbackRegistry<H>) {
        &self.callback_registry
    }

    fn get_callbacks(&mut self) -> (r: &mut CallbackRegistry<H>) {
        &mut self.callback_registry
    }

    fn on_config_changed(&mut self, k: u8, v: Config) {
    }
}

impl<H> CheckboxWidgetView<H> {
    /// Whether a checkbox of size `(w, h)` at `(x, y)` has room for its box and its
    /// text: the box is `h - 4` wide and high, the text starts 6 to the right of it.
    pub open spec fn fits(x: i32, y: i32, w: u32, h: u32) -> bool {
        &&& 4 <= h <= i32::MAX
        &&& h + 10 <= w
        &&& x + h + 6 <= i32::MAX
        &&& y + 2 <= i32::MAX
    }

    /// The checkbox that `new` makes.
    pub open spec fn initial(
        x: i32,
        y: i32,
        w: u32,
        h: u32,
        text: Seq<char>,
        font_size: i32,
        selected: bool,
    ) -> CheckboxWidgetView<H> {
        CheckboxWidgetView {
            config: WidgetConfigView::initial(x, y, w, h).set(
                CONFIG_SELECTED_STATE,
                ConfigValue::Toggle(selected),
            ),
            callbacks: CallbackRegistry::<H>::empty(),
            text_widget: TextWidgetView {
                config: WidgetConfigView::initial(
                    (x + h + 6) as i32,
                    (y + 2) as i32,
                    (w - h - 10) as u32,
                    (h - 4) as u32,
                ).set(CONFIG_COLOR_TEXT, ConfigValue::Color(Color { r: 0, g: 0, b: 0, a: 255 })),
                callbacks: CallbackRegistry::<H>::empty(),
                font_name: "assets/OpenSans-Regular.ttf"@,
                font_style: FontStyle::normal(),
                font_size,
                justification: TextJustify::Left,
                msg: text,
            },
            unchecked_widget: Self::box_image(x, y, h, "assets/checkbox_unselected.png"@),
            checked_widget: Self::box_image(x, y, h, "assets/checkbox_selected.png"@),
            active: false,
            selected,
            in_bounds: false,
            originated: false,
            on_toggle: None,
        }
    }

    /// The image of the box, for a checkbox of height `h` at `(x, y)`.
    pub open spec fn box_image(x: i32, y: i32, h: u32, image_name: Seq<char>) -> ImageWidgetView<
        H,
    > {
        ImageWidgetView {
            config: WidgetConfigView::initial(
                (x + 2) as i32,
                (y + 2) as i32,
                (h - 4) as u32,
                (h - 4) as u32,
            ).set(CONFIG_IMAGE_POSITION, ConfigValue::CompassPosition(CompassPosition::Center)),
            callbacks: CallbackRegistry::<H>::empty(),
            image_name,
            scaled: true,
        }
    }

    /// The toggle callback with the state `selected`, where a handler is in its slot.
    pub open spec fn toggle_fired(self, selected: bool) -> Seq<Callback> {
        if self.on_toggle is Some {
            seq![Callback::Toggled { selected }]
        } else {
            Seq::<Callback>::empty()
        }
    }

    /// The pointer comes into the bounds.
    pub open spec fn mouse_entered(self) -> (CheckboxWidgetView<H>, Seq<Callback>) {
        (
            CheckboxWidgetView { in_bounds: true, config: self.config.invalidate(), ..self },
            self.callbacks.fired(Callback::MouseEntered),
        )
    }

    /// The pointer leaves the bounds.
    pub open spec fn mouse_exited(self) -> (CheckboxWidgetView<H>, Seq<Callback>) {
        (
            CheckboxWidgetView { in_bounds: false, config: self.config.invalidate(), ..self },
            self.callbacks.fired(Callback::MouseExited),
        )
    }

    /// Whether a release of the left button toggles the box: the press began on
    /// this widget and the pointer is still inside its bounds.
    pub open spec fn release_toggles(self) -> bool {
        self.in_bounds && self.originated
    }

    /// A mouse button goes down (`state`) or up.
    ///
    /// The left button alone matters. Its press marks the widget as the one the
    /// press began on. Its release toggles the box if `release_toggles`, and in any
    /// case ends the press. Either asks for a redraw.
    pub open spec fn button_clicked(self, button: u8, clicks: u8, state: bool) -> (
        CheckboxWidgetView<H>,
        Seq<Callback>,
    ) {
        let clicked = self.callbacks.fired(Callback::MouseClicked { button, clicks, state });
        if button != 1 {
            (self, clicked)
        } else if state {
            (
                CheckboxWidgetView {
                    active: true,
                    originated: true,
                    config: self.config.invalidate(),
                    ..self
                },
                clicked,
            )
        } else if self.release_toggles() {
            (
                CheckboxWidgetView {
                    active: false,
                    originated: false,
                    selected: !self.selected,
                    config: self.config.set(
                        CONFIG_SELECTED_STATE,
                        ConfigValue::Toggle(!self.selected),
                    ).invalidate(),
                    ..self
                },
                self.toggle_fired(!self.selected) + clicked,
            )
        } else {
            (
                CheckboxWidgetView {
                    active: false,
                    originated: false,
                    config: self.config.invalidate(),
                    ..self
                },
                clicked,
            )
        }
    }

    /// Whether the box is to be drawn checked: its state, but the opposite while
    /// it is pressed with the pointer inside, as a preview of the release.
    pub open spec fn shows_checked(self) -> bool {
        if self.active && self.in_bounds {
            !self.selected
        } else {
            self.selected
        }
    }
}

/// A press on a checkbox followed by a release toggles it only if the pointer is
/// inside the checkbox at the release. For a checkbox with a toggle handler under
/// the pointer: a press and a release turn the state over and fire the toggle
/// callback once, first of all, with the new state; a press, the pointer leaving,
/// and a release leave the state as it is and fire no toggle callback.
pub proof fn lemma_toggle_needs_release_inside<H>(
    checkbox: CheckboxWidgetView<H>,
    clicks: u8,
    released: u8,
)
    requires
        checkbox.in_bounds,
        checkbox.on_toggle is Some,
    ensures
        ({
            let pressed = checkbox.button_clicked(1, clicks, true).0;
            let (after, fired) = pressed.button_clicked(1, released, false);
            &&& after.selected == !checkbox.selected
            &&& fired.len() >= 1
            &&& fired[0] == Callback::Toggled { selected: !checkbox.selected }
            &&& forall|i: int| 1 <= i < fired.len() ==> !(fired[i] is Toggled)
        }),
        ({
            let pressed = checkbox.button_clicked(1, clicks, true).0;
            let dragged = pressed.mouse_exited().0;
            let (after, fired) = dragged.button_clicked(1, released, false);
            &&& after.selected == checkbox.selected
            &&& forall|i: int| 0 <= i < fired.len() ==> !(fired[i] is Toggled)
        }),
{
}

impl<H> CheckboxWidget<H> {
    /// A checkbox at `points` of size `size` with the text `text` at `font_size`,
    /// checked if `selected`.
    pub fn new(points: Points, size: Size, text: String, font_size: i32, selected: bool) -> (w:
        CheckboxWidget<H>)
        requires
            CheckboxWidgetView::<H>::fits(points[0], points[1], size[0], size[1]),
        ensures
            w@ == CheckboxWidgetView::<H>::initial(
                points[0],
                points[1],
                size[0],
                size[1],
                text@,
                font_size,
                selected,
            ),
    {
        let x = points[0];
        let y = points[1];
        let w = size[0];
        let h = size[1];
        let mut text_widget: TextWidget<H> = TextWidget::new(
            "assets/OpenSans-Regular.ttf".to_owned(),
            FontStyle::normal(),
            font_size,
            TextJustify::Left,
            text,
            [x + h as i32 + 6, y + 2],
            [w - h - 10, h - 4],
        );
        let mut config = WidgetConfig::new(x, y, w, h);
        let mut unchecked_widget: ImageWidget<H> = ImageWidget::new(
            "assets/checkbox_unselected.png".to_owned(),
            [x + 2, y + 2],
            [h - 4, h - 4],
            true,
        );
        let mut checked_widget: ImageWidget<H> = ImageWidget::new(
            "assets/checkbox_selected.png".to_owned(),
            [x + 2, y + 2],
            [h - 4, h - 4],
            true,
        );
        text_widget.set_color(CONFIG_COLOR_TEXT, Color::RGB(0, 0, 0));
        unchecked_widget.set_compass(CONFIG_IMAGE_POSITION, CompassPosition::Center);
        checked_widget.set_compass(CONFIG_IMAGE_POSITION, CompassPosition::Center);
        config.set_toggle(CONFIG_SELECTED_STATE, selected);
        CheckboxWidget {
            config,
            callback_registry: CallbackRegistry::new(),
            text_widget,
            unchecked_widget,
            checked_widget,
            active: false,
            selected,
            in_bounds: false,
            originated: false,
            on_toggle: None,
        }
    }

    /// Sets the handler that runs when the box is toggled.
    pub fn on_toggle(&mut self, callback: H)
        ensures
            final(self)@ == (CheckboxWidgetView { on_toggle: Some(callback), ..old(self)@ }),
    {
        self.on_toggle = Some(callback);
    }

    /// Takes the toggle handler out of its slot, to run it.
    pub fn take_on_toggle(&mut self) -> (handler: Option<H>)
        ensures
            handler == old(self)@.on_toggle,
            final(self)@ == (CheckboxWidgetView { on_toggle: None, ..old(self)@ }),
    {
        self.on_toggle.take()
    }

    /// Whether the box is checked.
    pub fn is_selected(&self) -> (b: bool)
        ensures
            b == self@.selected,
    {
        self.selected
    }

    /// Whether the box is to be drawn checked.
    pub fn shows_checked(&self) -> (b: bool)
        ensures
            b == self@.shows_checked(),
    {
        if self.active && self.in_bounds {
            !self.selected
        } else {
            self.selected
        }
    }

    /// The text beside the box.
    pub fn text_widget(&self) -> (w: &TextWidget<H>)
        ensures
            w@ == self@.text_widget,
    {
        &self.text_widget
    }

    /// The image of the box that is not checked.
    pub fn unchecked_widget(&self) -> (w: &ImageWidget<H>)
        ensures
            w@ == self@.unchecked_widget,
    {
        &self.unchecked_widget
    }

    /// The image of the checked box.
    pub fn checked_widget(&self) -> (w: &ImageWidget<H>)
        ensures
            w@ == self@.checked_widget,
    {
        &self.checked_widget
    }

    /// The callbacks that a toggle to `selected` fires.
    fn call_toggle_callback(&self, selected: bool) -> (fired: Vec<Callback>)
        ensures
            fired@ == self@.toggle_fired(selected),
    {
        let mut fired: Vec<Callback> = Vec::new();
        if self.on_toggle.is_some() {
            fired.push(Callback::Toggled { selected });
        }
        fired
    }

    /// The pointer comes into the bounds.
    pub fn mouse_entered(&mut self) -> (fired: Vec<Callback>)
        ensures
            (final(self)@, fired@) == old(self)@.mouse_entered(),
    {
        self.in_bounds = true;
        let fired = self.mouse_entered_callback();
        self.config.set_invalidated(true);
        fired
    }

    /// The pointer leaves the bounds.
    pub fn mouse_exited(&mut self) -> (fired: Vec<Callback>)
        ensures
            (final(self)@, fired@) == old(self)@.mouse_exited(),
    {
        self.in_bounds = false;
        let fired = self.mouse_exited_callback();
        self.config.set_invalidated(true);
        fired
    }

    /// A mouse button goes down (`state`) or up.
    pub fn button_clicked(&mut self, button: u8, clicks: u8, state: bool) -> (fired: Vec<Callback>)
        ensures
            (final(self)@, fired@) == old(self)@.button_clicked(button, clicks, state),
    {
        let mut fired: Vec<Callback> = Vec::new();
        if button == 1 {
            if state {
                self.active = true;
                self.originated = true;
            } else {
                self.active = false;
                if self.in_bounds && self.originated {
                    self.selected = !self.selected;
                    self.config.set_toggle(CONFIG_SELECTED_STATE, self.selected);
                    fired = self.call_toggle_callback(self.selected);
                }
                self.originated = false;
            }
            self.config.set_invalidated(true);
        }
        let mut clicked = self.button_clicked_callback(button, clicks, state);
        fired.append(&mut clicked);
        fired
    }
}

impl<H> CheckboxWidgetView<H> {
    /// The steps of painting the widget: the image of the box as it is to be
    /// shown, then the text.
    pub open spec fn drawn(self) -> Seq<DrawCommandView> {
        (if self.shows_checked() {
            self.checked_widget.drawn()
        } else {
            self.unchecked_widget.drawn()
        }) + self.text_widget.drawn()
    }
}

impl<H> CheckboxWidget<H> {
    /// The steps of painting the widget.
    pub fn draw(&self) -> (commands: Vec<DrawCommand>)
        ensures
            steps(commands@) == self@.drawn(),
    {
        let mut commands: Vec<DrawCommand> = Vec::new();
        if self.shows_checked() {
            add_steps(&mut commands, self.checked_widget.draw());
        } else {
            add_steps(&mut commands, self.unchecked_widget.draw());
        }
        add_steps(&mut commands, self.text_widget.draw());
        assert(steps(commands@) =~= self@.drawn());
        commands
    }
}

} // verus!
