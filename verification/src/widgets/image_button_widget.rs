use crate::render::{Points, Size};
use crate::render::callbacks::{Callback, CallbackRegistry};
use crate::render::draw::{add_steps, DrawCommand, DrawCommandView, steps};
use crate::render::widget::{BaseWidget, BaseWidgetView, Widget};
use crate::render::widget_config::{
    Color, CompassPosition, Config, CONFIG_COLOR_BASE, CONFIG_COLOR_TEXT, CONFIG_IMAGE_POSITION,
    ConfigValue, WidgetConfig, WidgetConfigView,
};
use crate::widgets::image_widget::{ImageWidget, ImageWidgetView};
use crate::widgets::text_widget::{FontStyle, TextJustify, TextWidget, TextWidgetView};
use vstd::prelude::*;

verus! {

/// An image button as a mathematical value.
pub struct ImageButtonWidgetView<H> {
    pub config: WidgetConfigView,
    pub callbacks: CallbackRegistry<H>,
    pub base_widget: BaseWidgetView<H>,
    pub text_widget: TextWidgetView<H>,
    pub image_widget: ImageWidgetView<H>,
    pub active: bool,
    pub in_bounds: bool,
    pub originated: bool,
    pub on_click: Option<H>,
}

/// A button with an image at its left and a text beside it. A press and a release
/// of the left button over it are a click, and the click callback is due.
pub struct ImageButtonWidget<H> {
    config: WidgetConfig,
    callback_registry: CallbackRegistry<H>,
    base_widget: BaseWidget<H>,
    text_widget: TextWidget<H>,
    image_widget: ImageWidget<H>,
    active: bool,
    in_bounds: bool,
    originated: bool,
    on_click: Option<H>,
}

impl<H> View for ImageButtonWidget<H> {
    type V = ImageButtonWidgetView<H>;

    closed spec fn view(&self) -> ImageButtonWidgetView<H> {
        ImageButtonWidgetView {
            config: self.config@,
            callbacks: self.callback_registry,
            base_widget: self.base_widget@,
            text_widget: self.text_widget@,
            image_widget: self.image_widget@,
            active: self.active,
            in_bounds: self.in_bounds,
            originated: self.originated,
            on_click: self.on_click,
        }
    }
}

impl<H> Widget<H> for ImageButtonWidget<H> {
    open spec fn config_of(v: ImageButtonWidgetView<H>) -> WidgetConfigView {
        v.config
    }

    open spec fn callbacks_of(v: ImageButtonWidgetView<H>) -> CallbackRegistry<H> {
        v.callbacks
    }

    open spec fn with_config(v: ImageButtonWidgetView<H>, c: WidgetConfigView) -> ImageButtonWidgetView<H> {
        ImageButtonWidgetView { config: c, ..v }
    }

    open spec fn with_callbacks(v: ImageButtonWidgetView<H>, r: CallbackRegistry<H>) -> ImageButtonWidgetView<H> {
        ImageButtonWidgetView { callbacks: r, ..v }
    }

    open spec fn config_changed(v: ImageButtonWidgetView<H>, k: u8, value: ConfigValue) -> ImageButtonWidgetView<H> {
        v
    }

    fn config(&self) -> (c: &WidgetConfig) {
        &self.config
    }

    fn get_config(&mut self) -> (c: &mut WidgetConfig) {
        &mut self.config
    }

    fn callbacks(&self) -> (r: &CallbackRegistry<H>) {
        &self.callback_registry
    }

    fn get_callbacks(&mut self) -> (r: &mut CallbackRegistry<H>) {
        &mut self.callback_registry
    }

    fn on_config_changed(&mut self, k: u8, v: Config) {
    }
}

impl<H> ImageButtonWidgetView<H> {
    /// Whether a button of size `(w, h)` at `(x, y)` has room for its image and its
    /// text: the image is `h - 4` wide and high, the text starts 6 to the right of it.
    pub open spec fn fits(x: i32, y: i32, w: u32, h: u32) -> bool {
        &&& 4 <= h <= i32::MAX
        &&& h + 10 <= w
        &&& x + h + 6 <= i32::MAX
        &&& y + 2 <= i32::MAX
    }

    /// The button that `new` makes.
    pub open spec fn initial(x: i32, y: i32, w: u32, h: u32, text: Seq<char>, font_size: i32, image_name: Seq<char>) -> ImageButtonWidgetView<H> {
        ImageButtonWidgetView {
            config: WidgetConfigView::initial(x, y, w, h),
            callbacks: CallbackRegistry::<H>::empty(),
            base_widget: BaseWidgetView {
                config: WidgetConfigView::initial(x, y, w, h).set(
                    CONFIG_COLOR_BASE,
                    ConfigValue::Color(Color::white()),
                ),
                callbacks: CallbackRegistry::<H>::empty(),
            },
            text_widget: TextWidgetView {
                config: WidgetConfigView::initial(
                    (x + h + 6) as i32,
                    (y + 2) as i32,
                    (w - h - 10) as u32,
                    (h - 4) as u32,
                ).set(CONFIG_COLOR_TEXT, ConfigValue::Color(Color::black())),
                callbacks: CallbackRegistry::<H>::empty(),
                font_name: "assets/OpenSans-Regular.ttf"@,
                font_style: FontStyle::normal(),
                font_size,
                justification: TextJustify::Left,
                msg: text,
            },
            image_widget: ImageWidgetView {
                config: WidgetConfigView::initial(
                    (x + 2) as i32,
                    (y + 2) as i32,
                    (h - 4) as u32,
                    (h - 4) as u32,
                ).set(CONFIG_IMAGE_POSITION, ConfigValue::CompassPosition(CompassPosition::Center)),
                callbacks: CallbackRegistry::<H>::empty(),
                image_name,
                scaled: false,
            },
            active: false,
            in_bounds: false,
            originated: false,
            on_click: None,
        }
    }

    /// The widget with its body in the color `base` and its text in the color
    /// `text`, and due for a redraw.
    pub open spec fn painted_as(self, base: Color, text: Color) -> ImageButtonWidgetView<H> {
        ImageButtonWidgetView {
            base_widget: BaseWidgetView {
                config: self.base_widget.config.set(CONFIG_COLOR_BASE, ConfigValue::Color(base)),
                ..self.base_widget
            },
            text_widget: TextWidgetView {
                config: self.text_widget.config.set(
                    CONFIG_COLOR_TEXT,
                    ConfigValue::Color(text),
                ).set(CONFIG_COLOR_BASE, ConfigValue::Color(base)),
                ..self.text_widget
            },
            config: self.config.invalidate(),
            ..self
        }
    }

    /// The widget as it looks while it is pressed: black with white text.
    pub open spec fn hovered(self) -> ImageButtonWidgetView<H> {
        self.painted_as(Color::black(), Color::white())
    }

    /// The widget as it looks at rest: white with black text.
    pub open spec fn unhovered(self) -> ImageButtonWidgetView<H> {
        self.painted_as(Color::white(), Color::black())
    }

    /// `callback`, where a click handler is in its slot.
    pub open spec fn own_fired(self, callback: Callback) -> Seq<Callback> {
        if self.on_click is Some {
            seq![callback]
        } else {
            Seq::<Callback>::empty()
        }
    }

    /// The pointer comes into the bounds. A button that is pressed looks pressed
    /// again.
    pub open spec fn mouse_entered(self) -> (ImageButtonWidgetView<H>, Seq<Callback>) {
        let looks = if self.active {
            self.hovered()
        } else {
            self
        };
        (ImageButtonWidgetView { in_bounds: true, ..looks }, self.callbacks.fired(Callback::MouseEntered))
    }

    /// The pointer leaves the bounds. A button that is pressed looks at rest
    /// meanwhile.
    pub open spec fn mouse_exited(self) -> (ImageButtonWidgetView<H>, Seq<Callback>) {
        let looks = if self.active {
            self.unhovered()
        } else {
            self
        };
        (ImageButtonWidgetView { in_bounds: false, ..looks }, self.callbacks.fired(Callback::MouseExited))
    }

    /// Whether a release of the left button is a click: the button is pressed, the
    /// press began on it, and the pointer is inside its bounds.
    pub open spec fn release_clicks(self) -> bool {
        self.in_bounds && self.active && self.originated
    }

    /// A mouse button goes down (`state`) or up.
    ///
    /// The left button alone matters. Its press makes the button look pressed and
    /// marks it as the widget the press began on. Its release makes the button
    /// look at rest and ends the press; it is a click if `release_clicks`.
    pub open spec fn button_clicked(self, button: u8, clicks: u8, state: bool) -> (
        ImageButtonWidgetView<H>,
        Seq<Callback>,
    ) {
        let clicked = self.callbacks.fired(Callback::MouseClicked { button, clicks, state });
        if button != 1 {
            (self, clicked)
        } else if state {
            (ImageButtonWidgetView { active: true, originated: true, ..self.hovered() }, clicked)
        } else {
            (
                ImageButtonWidgetView { active: false, originated: false, ..self.unhovered() },
                if self.release_clicks() {
                    self.own_fired(Callback::Clicked) + clicked
                } else {
                    clicked
                },
            )
        }
    }
}

/// A press on a button followed by a release is a click only if the pointer is
/// inside the button at the release. For a button with a click handler under the
/// pointer: a press and a release fire the click callback once, and first of all;
/// a press, the pointer leaving, and a release fire no click callback.
pub proof fn lemma_click_needs_release_inside<H>(
    button: ImageButtonWidgetView<H>,
    clicks: u8,
    released: u8,
)
    requires
        button.in_bounds,
        button.on_click is Some,
    ensures
        ({
            let pressed = button.button_clicked(1, clicks, true).0;
            let fired = pressed.button_clicked(1, released, false).1;
            &&& fired.len() >= 1
            &&& fired[0] == Callback::Clicked
            &&& forall|i: int| 1 <= i < fired.len() ==> fired[i] != Callback::Clicked
        }),
        ({
            let pressed = button.button_clicked(1, clicks, true).0;
            let dragged = pressed.mouse_exited().0;
            let fired = dragged.button_clicked(1, released, false).1;
            forall|i: int| 0 <= i < fired.len() ==> fired[i] != Callback::Clicked
        }),
{
}

impl<H> ImageButtonWidget<H> {
    /// A button at `points` of size `size` with the image `image_name` at its left
    /// and the text `text` at `font_size` beside it.
    pub fn new(points: Points, size: Size, text: String, font_size: i32, image_name: String) -> (w: ImageButtonWidget<H>)
        requires
            ImageButtonWidgetView::<H>::fits(points[0], points[1], size[0], size[1]),
        ensures
            w@ == ImageButtonWidgetView::<H>::initial(points[0], points[1], size[0], size[1], text@, font_size, image_name@),
    {
        let x = points[0];
        let y = points[1];
        let w = size[0];
        let h = size[1];
        let mut base_widget: BaseWidget<H> = BaseWidget::new(points, size);
        let mut text_widget: TextWidget<H> = TextWidget::new(
            "assets/OpenSans-Regular.ttf".to_owned(),
            FontStyle::normal(),
            font_size,
            TextJustify::Left,
            text,
            [x + h as i32 + 6, y + 2],
            [w - h - 10, h - 4],
        );
        let mut image_widget: ImageWidget<H> = ImageWidget::new(
            image_name,
            [x + 2, y + 2],
            [h - 4, h - 4],
            false,
        );
        base_widget.set_color(CONFIG_COLOR_BASE, Color::RGB(255, 255, 255));
        text_widget.set_color(CONFIG_COLOR_TEXT, Color::RGB(0, 0, 0));
        image_widget.set_compass(CONFIG_IMAGE_POSITION, CompassPosition::Center);
        ImageButtonWidget {
            config: WidgetConfig::new(x, y, w, h),
            callback_registry: CallbackRegistry::new(),
            base_widget,
            text_widget,
            image_widget,
            active: false,
            in_bounds: false,
            originated: false,
            on_click: None,
        }
    }

    /// Sets the handler that runs when the button is clicked.
    pub fn on_click(&mut self, callback: H)
        ensures
            final(self)@ == (ImageButtonWidgetView { on_click: Some(callback), ..old(self)@ }),
    {
        self.on_click = Some(callback);
    }

    /// Takes the click handler out of its slot, to run it.
    pub fn take_on_click(&mut self) -> (handler: Option<H>)
        ensures
            handler == old(self)@.on_click,
            final(self)@ == (ImageButtonWidgetView { on_click: None, ..old(self)@ }),
    {
        self.on_click.take()
    }

    /// The callback of the widget's own kind, where a handler is in its slot.
    fn call_own(&self, callback: Callback) -> (fired: Vec<Callback>)
        ensures
            fired@ == self@.own_fired(callback),
    {
        let mut fired: Vec<Callback> = Vec::new();
        if self.on_click.is_some() {
            fired.push(callback);
        }
        fired
    }

    /// Paints the body in `base` and the text in `text`, and asks for a redraw.
    fn paint(&mut self, base: Color, text: Color)
        ensures
            final(self)@ == old(self)@.painted_as(base, text),
    {
        self.base_widget.set_color(CONFIG_COLOR_BASE, base);
        self.text_widget.set_color(CONFIG_COLOR_TEXT, text);
        self.text_widget.set_color(CONFIG_COLOR_BASE, base);
        self.config.set_invalidated(true);
    }

    /// The body of the button.
    pub fn base_widget(&self) -> (w: &BaseWidget<H>)
        ensures
            w@ == self@.base_widget,
    {
        &self.base_widget
    }

    /// The text of the button.
    pub fn text_widget(&self) -> (w: &TextWidget<H>)
        ensures
            w@ == self@.text_widget,
    {
        &self.text_widget
    }

    /// The image of the button.
    pub fn image_widget(&self) -> (w: &ImageWidget<H>)
        ensures
            w@ == self@.image_widget,
    {
        &self.image_widget
    }

    /// Makes the button look pressed.
    fn draw_hovered(&mut self)
        ensures
            final(self)@ == old(self)@.hovered(),
    {
        self.paint(Color::RGB(0, 0, 0), Color::RGB(255, 255, 255));
    }

    /// Makes the button look at rest.
    fn draw_unhovered(&mut self)
        ensures
            final(self)@ == old(self)@.unhovered(),
    {
        self.paint(Color::RGB(255, 255, 255), Color::RGB(0, 0, 0));
    }

    /// The pointer comes into the bounds.
    pub fn mouse_entered(&mut self) -> (fired: Vec<Callback>)
        ensures
            (final(self)@, fired@) == old(self)@.mouse_entered(),
    {
        if self.active {
            self.draw_hovered();
        }
        self.in_bounds = true;
        self.mouse_entered_callback()
    }

    /// The pointer leaves the bounds.
    pub fn mouse_exited(&mut self) -> (fired: Vec<Callback>)
        ensures
            (final(self)@, fired@) == old(self)@.mouse_exited(),
    {
        if self.active {
            self.draw_unhovered();
        }
        self.in_bounds = false;
        self.mouse_exited_callback()
    }

    /// A mouse button goes down (`state`) or up.
    pub fn button_clicked(&mut self, button: u8, clicks: u8, state: bool) -> (fired: Vec<Callback>)
        ensures
            (final(self)@, fired@) == old(self)@.button_clicked(button, clicks, state),
    {
        let mut fired: Vec<Callback> = Vec::new();
        if button == 1 {
            if state {
                self.draw_hovered();
                self.active = true;
                self.originated = true;
            } else {
                let had_bounds = self.active;
                self.draw_unhovered();
                self.active = false;
                if self.in_bounds && had_bounds && self.originated {
                    fired = self.call_own(Callback::Clicked);
                }
                self.originated = false;
            }
        }
        let mut clicked = self.button_clicked_callback(button, clicks, state);
        fired.append(&mut clicked);
        fired
    }
}

impl<H> ImageButtonWidgetView<H> {
    /// The steps of painting the widget: the body of the button, then its text, then
    /// its image.
    pub open spec fn drawn(self) -> Seq<DrawCommandView> {
        self.base_widget.drawn() + self.text_widget.drawn() + self.image_widget.drawn()
    }
}

impl<H> ImageButtonWidget<H> {
    /// The steps of painting the widget.
    pub fn draw(&self) -> (commands: Vec<DrawCommand>)
        ensures
            steps(commands@) == self@.drawn(),
    {
        let mut commands: Vec<DrawCommand> = Vec::new();
        add_steps(&mut commands, self.base_widget.draw());
        add_steps(&mut commands, self.text_widget.draw());
        add_steps(&mut commands, self.image_widget.draw());
        assert(steps(commands@) =~= self@.drawn());
        commands
    }
}

} // verus!
