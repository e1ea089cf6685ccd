use crate::render::{inverse_color, Points, Size, spec_inverse_color};
use crate::render::callbacks::{Callback, CallbackRegistry};
use crate::render::draw::{add_step, add_steps, DrawCommand, DrawCommandView, move_by, moved, steps};
use crate::render::widget::{BaseWidget, BaseWidgetView, Rect, Widget};
use crate::render::widget_config::{
    Color, CompassPosition, Config, CONFIG_BORDER_WIDTH, CONFIG_COLOR_BASE, CONFIG_COLOR_BORDER,
    CONFIG_COLOR_HOVER, CONFIG_COLOR_SELECTED, CONFIG_COLOR_TEXT, ConfigValue, WidgetConfig,
    WidgetConfigView,
};
use crate::widgets::text_widget::{FontStyle, TextJustify, TextWidget, TextWidgetView};
use vstd::prelude::*;

verus! {

/// A tile as a mathematical value.
pub struct TileWidgetView<H> {
    pub config: WidgetConfigView,
    pub callbacks: CallbackRegistry<H>,
    pub base_widget: BaseWidgetView<H>,
    pub text_widget: TextWidgetView<H>,
    pub image_name: Seq<char>,
    pub selected: bool,
    pub hovered: bool,
    pub originated: bool,
    pub on_click: Option<H>,
}

/// A tile with an image and a text below it, as a tool bar holds them. A press
/// and a release of the left button over it select it or take the selection back,
/// and the click callback is due with the new state.
pub struct TileWidget<H> {
    config: WidgetConfig,
    callback_registry: CallbackRegistry<H>,
    base_widget: BaseWidget<H>,
    text_widget: TextWidget<H>,
    image_name: String,
    selected: bool,
    hovered: bool,
    originated: bool,
    on_click: Option<H>,
}

impl<H> View for TileWidget<H> {
    type V = TileWidgetView<H>;

    closed spec fn view(&self) -> TileWidgetView<H> {
        TileWidgetView {
            config: self.config@,
            callbacks: self.callback_registry,
            base_widget: self.base_widget@,
            text_widget: self.text_widget@,
            image_name: self.image_name@,
            selected: self.selected,
            hovered: self.hovered,
            originated: self.originated,
            on_click: self.on_click,
        }
    }
}

impl<H> Widget<H> for TileWidget<H> {
    open spec fn config_of(v: TileWidgetView<H>) -> WidgetConfigView {
        v.config
    }

    open spec fn callbacks_of(v: TileWidgetView<H>) -> CallbackRegistry<H> {
        v.callbacks
    }

    open spec fn with_config(v: TileWidgetView<H>, c: WidgetConfigView) -> TileWidgetView<H> {
        TileWidgetView { config: c, ..v }
    }

    open spec fn with_callbacks(v: TileWidgetView<H>, r: CallbackRegistry<H>) -> TileWidgetView<H> {
        TileWidgetView { callbacks: r, ..v }
    }

    open spec fn config_changed(v: TileWidgetView<H>, k: u8, value: ConfigValue) -> TileWidgetView<H> {
        v
    }

    fn config(&self) -> (c: &WidgetConfig) {
        &self.config
    }

    fn get_config(&mut self) -> (c: &mut WidgetConfig) {
        &mut self.config
    }

    fn callbacks(&self) -> (r: &CallbackRegistry<H>) {
        &self.callback_registry
    }

    fn get_callbacks(&mut self) -> (r: &mut CallbackRegistry<H>) {
        &mut self.callback_registry
    }

    fn on_config_changed(&mut self, k: u8, v: Config) {
    }
}

impl<H> TileWidgetView<H> {
    /// Whether a tile of size `(w, h)` at `(x, y)` has room for its text, which is
    /// 18 high, ends 1 above the lower edge and keeps 1 from the left and the right.
    pub open spec fn fits(x: i32, y: i32, w: u32, h: u32) -> bool {
        &&& 2 <= w
        &&& h <= i32::MAX
        &&& x + 1 <= i32::MAX
        &&& i32::MIN <= y + h - 19 <= i32::MAX
        &&& y + h <= i32::MAX
    }

    /// The tile that `new` makes.
    pub open spec fn initial(
        x: i32,
        y: i32,
        w: u32,
        h: u32,
        image_name: Seq<char>,
        tile_text: Seq<char>,
    ) -> TileWidgetView<H> {
        TileWidgetView {
            config: WidgetConfigView::initial(x, y, w, h),
            callbacks: CallbackRegistry::<H>::empty(),
            base_widget: BaseWidgetView {
                config: WidgetConfigView::initial(x, y, w, h).set(
                    CONFIG_COLOR_BORDER,
                    ConfigValue::Color(Color::black()),
                ).set(CONFIG_BORDER_WIDTH, ConfigValue::Numeric(1)).set(
                    CONFIG_COLOR_BASE,
                    ConfigValue::Color(Color::white()),
                ),
                callbacks: CallbackRegistry::<H>::empty(),
            },
            text_widget: TextWidgetView {
                config: WidgetConfigView::initial(
                    (x + 1) as i32,
                    (y + h - 19) as i32,
                    (w - 2) as u32,
                    18,
                ).set(CONFIG_COLOR_BASE, ConfigValue::Color(Color::white())).set(
                    CONFIG_COLOR_TEXT,
                    ConfigValue::Color(Color::black()),
                ),
                callbacks: CallbackRegistry::<H>::empty(),
                font_name: "assets/OpenSans-Regular.ttf"@,
                font_style: FontStyle::normal(),
                font_size: 14,
                justification: TextJustify::Center,
                msg: tile_text,
            },
            image_name,
            selected: false,
            hovered: false,
            originated: false,
            on_click: None,
        }
    }

    /// The color of the body of the tile in its state: the color under
    /// `CONFIG_COLOR_SELECTED` when it is selected, else the color under
    /// `CONFIG_COLOR_HOVER` when the pointer is over it, else white.
    pub open spec fn body_color(self) -> Color {
        if self.selected {
            self.config.color(CONFIG_COLOR_SELECTED)
        } else if self.hovered {
            self.config.color(CONFIG_COLOR_HOVER)
        } else {
            Color::white()
        }
    }

    /// The color of the text of the tile in its state: the inverse of the body's
    /// color when the tile is selected or the pointer is over it, else black.
    pub open spec fn text_color(self) -> Color {
        if self.selected || self.hovered {
            spec_inverse_color(self.body_color())
        } else {
            Color::black()
        }
    }

    /// The tile with body and text in the colors of its state.
    pub open spec fn adjusted(self) -> TileWidgetView<H> {
        TileWidgetView {
            base_widget: BaseWidgetView {
                config: self.base_widget.config.set(
                    CONFIG_COLOR_BASE,
                    ConfigValue::Color(self.body_color()),
                ),
                ..self.base_widget
            },
            text_widget: TextWidgetView {
                config: self.text_widget.config.set(
                    CONFIG_COLOR_BASE,
                    ConfigValue::Color(self.body_color()),
                ).set(CONFIG_COLOR_TEXT, ConfigValue::Color(self.text_color())),
                ..self.text_widget
            },
            ..self
        }
    }

    /// `callback`, where a click handler is in its slot.
    pub open spec fn own_fired(self, callback: Callback) -> Seq<Callback> {
        if self.on_click is Some {
            seq![callback]
        } else {
            Seq::<Callback>::empty()
        }
    }

    /// The pointer comes into the bounds.
    pub open spec fn mouse_entered(self) -> (TileWidgetView<H>, Seq<Callback>) {
        (
            TileWidgetView { hovered: true, config: self.config.invalidate(), ..self },
            Seq::<Callback>::empty(),
        )
    }

    /// The pointer leaves the bounds.
    pub open spec fn mouse_exited(self) -> (TileWidgetView<H>, Seq<Callback>) {
        (
            TileWidgetView { hovered: false, config: self.config.invalidate(), ..self },
            Seq::<Callback>::empty(),
        )
    }

    /// Whether a release of the left button is a click: the press began on the
    /// tile, and the pointer is over it.
    pub open spec fn release_clicks(self) -> bool {
        self.originated && self.hovered
    }

    /// A mouse button goes down (`state`) or up.
    ///
    /// The left button alone matters. Its press marks the tile as the widget the
    /// press began on. Its release ends the press; if `release_clicks`, the tile
    /// changes its selection, and the click callback is due with the new state.
    pub open spec fn button_clicked(self, button: u8, clicks: u8, state: bool) -> (
        TileWidgetView<H>,
        Seq<Callback>,
    ) {
        if button != 1 {
            (self, Seq::<Callback>::empty())
        } else if state {
            (TileWidgetView { originated: true, ..self }, Seq::<Callback>::empty())
        } else if self.release_clicks() {
            (
                TileWidgetView { originated: false, selected: !self.selected, ..self },
                self.own_fired(Callback::Toggled { selected: !self.selected }),
            )
        } else {
            (TileWidgetView { originated: false, ..self }, Seq::<Callback>::empty())
        }
    }
}

/// A press on a tile followed by a release is a click only if the pointer is over
/// the tile at the release. For a tile with a click handler under the pointer: a
/// press and a release turn the selection over and fire the click callback once,
/// with the new state; a press, the pointer leaving, and a release leave the
/// selection as it is and fire nothing.
pub proof fn lemma_click_needs_release_inside<H>(tile: TileWidgetView<H>, clicks: u8, released: u8)
    requires
        tile.hovered,
        tile.on_click is Some,
    ensures
        ({
            let pressed = tile.button_clicked(1, clicks, true).0;
            let (after, fired) = pressed.button_clicked(1, released, false);
            &&& after.selected == !tile.selected
            &&& fired == seq![Callback::Toggled { selected: !tile.selected }]
        }),
        ({
            let pressed = tile.button_clicked(1, clicks, true).0;
            let dragged = pressed.mouse_exited().0;
            let (after, fired) = dragged.button_clicked(1, released, false);
            &&& after.selected == tile.selected
            &&& fired.len() == 0
        }),
{
}

impl<H> TileWidget<H> {
    /// A tile at `points` of size `size` with the image `image_name` and the text
    /// `tile_text` below it.
    pub fn new(points: Points, size: Size, image_name: String, tile_text: String) -> (w: TileWidget<
        H,
    >)
        requires
            TileWidgetView::<H>::fits(points[0], points[1], size[0], size[1]),
        ensures
            w@ == TileWidgetView::<H>::initial(
                points[0],
                points[1],
                size[0],
                size[1],
                image_name@,
                tile_text@,
            ),
    {
        let x = points[0];
        let y = points[1];
        let w = size[0];
        let h = size[1];
        let mut base_widget: BaseWidget<H> = BaseWidget::new(points, size);
        let mut text_widget: TextWidget<H> = TextWidget::new(
            "assets/OpenSans-Regular.ttf".to_owned(),
            FontStyle::normal(),
            14,
            TextJustify::Center,
            tile_text,
            [x + 1, y + h as i32 - 19],
            [w - 2, 18],
        );
        base_widget.set_color(CONFIG_COLOR_BORDER, Color::RGB(0, 0, 0));
        base_widget.set_numeric(CONFIG_BORDER_WIDTH, 1);
        base_widget.set_color(CONFIG_COLOR_BASE, Color::RGB(255, 255, 255));
        text_widget.set_color(CONFIG_COLOR_BASE, Color::RGBA(255, 255, 255, 255));
        text_widget.set_color(CONFIG_COLOR_TEXT, Color::RGB(0, 0, 0));
        TileWidget {
            config: WidgetConfig::new(x, y, w, h),
            callback_registry: CallbackRegistry::new(),
            base_widget,
            text_widget,
            image_name,
            selected: false,
            hovered: false,
            originated: false,
            on_click: None,
        }
    }

    /// Sets the handler that runs when the tile is clicked.
    pub fn on_click(&mut self, callback: H)
        ensures
            final(self)@ == (TileWidgetView { on_click: Some(callback), ..old(self)@ }),
    {
        self.on_click = Some(callback);
    }

    /// Takes the click handler out of its slot, to run it.
    pub fn take_on_click(&mut self) -> (handler: Option<H>)
        ensures
            handler == old(self)@.on_click,
            final(self)@ == (TileWidgetView { on_click: None, ..old(self)@ }),
    {
        self.on_click.take()
    }

    /// The callback of the widget's own kind, where a handler is in its slot.
    fn call_own(&self, callback: Callback) -> (fired: Vec<Callback>)
        ensures
            fired@ == self@.own_fired(callback),
    {
        let mut fired: Vec<Callback> = Vec::new();
        if self.on_click.is_some() {
            fired.push(callback);
        }
        fired
    }

    /// The body of the tile.
    pub fn base_widget(&self) -> (w: &BaseWidget<H>)
        ensures
            w@ == self@.base_widget,
    {
        &self.base_widget
    }

    /// The text of the tile.
    pub fn text_widget(&self) -> (w: &TextWidget<H>)
        ensures
            w@ == self@.text_widget,
    {
        &self.text_widget
    }

    /// The name of the image of the tile.
    pub fn get_image_name(&self) -> (t: String)
        ensures
            t@ == self@.image_name,
    {
        self.image_name.clone()
    }

    /// Whether the pointer is over the tile.
    pub fn is_hovered(&self) -> (b: bool)
        ensures
            b == self@.hovered,
    {
        self.hovered
    }

    /// Whether the tile is selected.
    pub fn is_selected(&self) -> (b: bool)
        ensures
            b == self@.selected,
    {
        self.selected
    }

    /// Puts body and text into the colors of the tile's state, before it is drawn.
    pub fn adjust_widgets(&mut self)
        ensures
            final(self)@ == old(self)@.adjusted(),
    {
        if self.selected {
            let selected_color = self.config.get_color(CONFIG_COLOR_SELECTED);
            self.base_widget.set_color(CONFIG_COLOR_BASE, selected_color);
            self.text_widget.set_color(CONFIG_COLOR_BASE, selected_color);
            self.text_widget.set_color(CONFIG_COLOR_TEXT, inverse_color(selected_color));
        } else if self.hovered {
            let hover_color = self.config.get_color(CONFIG_COLOR_HOVER);
            self.base_widget.set_color(CONFIG_COLOR_BASE, hover_color);
            self.text_widget.set_color(CONFIG_COLOR_BASE, hover_color);
            self.text_widget.set_color(CONFIG_COLOR_TEXT, inverse_color(hover_color));
        } else {
            self.base_widget.set_color(CONFIG_COLOR_BASE, Color::RGB(255, 255, 255));
            self.text_widget.set_color(CONFIG_COLOR_BASE, Color::RGB(255, 255, 255));
            self.text_widget.set_color(CONFIG_COLOR_TEXT, Color::RGB(0, 0, 0));
        }
    }

    /// The pointer comes into the bounds.
    pub fn mouse_entered(&mut self) -> (fired: Vec<Callback>)
        ensures
            (final(self)@, fired@) == old(self)@.mouse_entered(),
    {
        self.hovered = true;
        self.config.set_invalidated(true);
        Vec::new()
    }

    /// The pointer leaves the bounds.
    pub fn mouse_exited(&mut self) -> (fired: Vec<Callback>)
        ensures
            (final(self)@, fired@) == old(self)@.mouse_exited(),
    {
        self.hovered = false;
        self.config.set_invalidated(true);
        Vec::new()
    }

    /// A mouse button goes down (`state`) or up.
    pub fn button_clicked(&mut self, button: u8, clicks: u8, state: bool) -> (fired: Vec<Callback>)
        ensures
            (final(self)@, fired@) == old(self)@.button_clicked(button, clicks, state),
    {
        let mut fired: Vec<Callback> = Vec::new();
        if button == 1 {
            if state {
                self.originated = true;
            } else {
                if self.originated && self.hovered {
                    self.selected = !self.selected;
                    fired = self.call_own(Callback::Toggled { selected: self.selected });
                }
                self.originated = false;
            }
        }
        fired
    }
}

impl<H> TileWidgetView<H> {
    /// Where the image of the tile goes: 32 by 32, in the middle of the width and
    /// above the middle of the height.
    pub open spec fn image_area(self) -> Rect {
        Rect {
            x: moved(self.config.origin().0, self.config.extent().0 / 2 - 16),
            y: moved(self.config.origin().1, self.config.extent().1 / 2 - 32),
            w: 32,
            h: 32,
        }
    }

    /// The steps of painting the widget: its own body, then the body of the tile,
    /// its text, and its image.
    pub open spec fn drawn(self) -> Seq<DrawCommandView> {
        seq![
            DrawCommandView::Fill {
                area: self.config.area(),
                color: self.config.color(CONFIG_COLOR_BASE),
            },
        ] + self.base_widget.drawn() + self.text_widget.drawn() + seq![
            DrawCommandView::Image {
                area: self.image_area(),
                image_name: self.image_name,
                scaled: true,
                position: CompassPosition::Center,
            },
        ]
    }
}

impl<H> TileWidget<H> {
    /// The steps of painting the widget. The colors are those that
    /// `adjust_widgets` has put on.
    pub fn draw(&self) -> (commands: Vec<DrawCommand>)
        ensures
            steps(commands@) == self@.drawn(),
    {
        let area = self.config.area();
        let mut commands: Vec<DrawCommand> = Vec::new();
        add_step(
            &mut commands,
            DrawCommand::Fill { area, color: self.config.get_color(CONFIG_COLOR_BASE) },
        );
        add_steps(&mut commands, self.base_widget.draw());
        add_steps(&mut commands, self.text_widget.draw());
        add_step(
            &mut commands,
            DrawCommand::Image {
                area: Rect {
                    x: move_by(area.x, (area.w / 2) as i64 - 16),
                    y: move_by(area.y, (area.h / 2) as i64 - 32),
                    w: 32,
                    h: 32,
                },
                image_name: self.image_name.clone(),
                scaled: true,
                position: CompassPosition::Center,
            },
        );
        assert(steps(commands@) =~= self@.drawn());
        commands
    }
}

} // verus!
