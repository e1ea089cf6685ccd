use crate::render::{Points, Size};
use crate::render::callbacks::CallbackRegistry;
use crate::render::draw::{add_step, DrawCommand, DrawCommandView, steps};
use crate::render::layout::minus;
use crate::render::widget::Widget;
use crate::render::widget_config::{
    Config, CONFIG_BORDER_WIDTH, CONFIG_COLOR_BASE, CONFIG_COLOR_TEXT, CONFIG_FONT_SIZE,
    CONFIG_TEXT, ConfigValue, WidgetConfig, WidgetConfigView,
};
use vstd::prelude::*;

verus! {

/// Where a text stands in the width of its widget.
#[derive(Clone, Copy, Debug, PartialEq, Eq, Structural)]
pub enum TextJustify {
    /// At the left edge.
    Left,
    /// In the middle.
    Center,
    /// At the right edge.
    Right,
}

/// The style a font is drawn in.
#[derive(Clone, Copy, Debug, PartialEq, Eq, Structural)]
pub struct FontStyle {
    pub bold: bool,
    pub italic: bool,
    pub underline: bool,
    pub strikethrough: bool,
}

impl FontStyle {
    /// The style without any decoration.
    pub open spec fn spec_normal() -> FontStyle {
        FontStyle { bold: false, italic: false, underline: false, strikethrough: false }
    }

    /// The style without any decoration.
    #[verifier::when_used_as_spec(spec_normal)]
    pub fn normal() -> (s: FontStyle)
        ensures
            s == FontStyle::spec_normal(),
    {
        FontStyle { bold: false, italic: false, underline: false, strikethrough: false }
    }
}

/// A text widget as a mathematical value.
pub struct TextWidgetView<H> {
    pub config: WidgetConfigView,
    pub callbacks: CallbackRegistry<H>,
    pub font_name: Seq<char>,
    pub font_style: FontStyle,
    pub font_size: i32,
    pub justification: TextJustify,
    pub msg: Seq<char>,
}

/// A widget that shows a text in a font, justified in its bounds.
pub struct TextWidget<H> {
    config: WidgetConfig,
    callback_registry: CallbackRegistry<H>,
    font_name: String,
    font_style: FontStyle,
    font_size: i32,
    justification: TextJustify,
    msg: String,
}

impl<H> View for TextWidget<H> {
    type V = TextWidgetView<H>;

    closed spec fn view(&self) -> TextWidgetView<H> {
        TextWidgetView {
            config: self.config@,
            callbacks: self.callback_registry,
            font_name: self.font_name@,
            font_style: self.font_style,
            font_size: self.font_size,
            justification: self.justification,
            msg: self.msg@,
        }
    }
}

impl<H> Widget<H> for TextWidget<H> {
    open spec fn config_of(v: TextWidgetView<H>) -> WidgetConfigView {
        v.config
    }

    open spec fn callbacks_of(v: TextWidgetView<H>) -> CallbackRegistry<H> {
        v.callbacks
    }

    open spec fn with_config(v: TextWidgetView<H>, c: WidgetConfigView) -> TextWidgetView<H> {
        TextWidgetView { config: c, ..v }
    }

    open spec fn with_callbacks(v: TextWidgetView<H>, r: CallbackRegistry<H>) -> TextWidgetView<H> {
        TextWidgetView { callbacks: r, ..v }
    }

    open spec fn config_changed(v: TextWidgetView<H>, k: u8, value: ConfigValue) -> TextWidgetView<H> {
        if k == CONFIG_FONT_SIZE {
            match value {
                ConfigValue::Numeric(size) => v.with_font_size(size),
                _ => v,
            }
        } else if k == CONFIG_TEXT {
            match value {
                ConfigValue::Text(text) => v.with_text(text),
                _ => v,
            }
        } else {
            v
        }
    }

    fn config(&self) -> (c: &WidgetConfig) {
        &self.config
    }

    fn get_config(&mut self) -> (c: &mut WidgetConfig) {
        &mut self.config
    }

    fn callbacks(&self) -> (r: &CallbackRegistry<H>) {
        &self.callback_registry
    }

    fn get_callbacks(&mut self) -> (r: &mut CallbackRegistry<H>) {
        &mut self.callback_registry
    }

    fn on_config_changed(&mut self, k: u8, v: Config) {
        if k == CONFIG_FONT_SIZE {
            if let Config::Numeric(size) = v {
                if size != self.font_size {
                    self.font_size = size;
                    self.config.set_invalidated(true);
                }
            }
        } else if k == CONFIG_TEXT {
            if let Config::Text(text) = v {
                if !(text == self.msg) {
                    self.set_text(text);
                }
            }
        }
    }
}

impl<H> TextWidgetView<H> {
    /// The widget with the text `msg`, due for a redraw.
    pub open spec fn showing(self, msg: Seq<char>) -> TextWidgetView<H> {
        TextWidgetView { msg, config: self.config.invalidate(), ..self }
    }

    /// The widget with the text `msg`: a new text asks for a redraw, the text the
    /// widget already shows changes nothing.
    pub open spec fn with_text(self, msg: Seq<char>) -> TextWidgetView<H> {
        if msg == self.msg {
            self
        } else {
            self.showing(msg)
        }
    }

    /// The widget with the font size `size`: a new size asks for a redraw, the
    /// size the widget already has changes nothing.
    pub open spec fn with_font_size(self, size: i32) -> TextWidgetView<H> {
        if size == self.font_size {
            self
        } else {
            TextWidgetView { font_size: size, config: self.config.invalidate(), ..self }
        }
    }
}

impl<H> TextWidget<H> {
    /// A text widget at `points` of size `size` that shows `msg` in the font
    /// `font_name`, at `font_size` and in `font_style`, justified by `justification`.
    pub fn new(
        font_name: String,
        font_style: FontStyle,
        font_size: i32,
        justification: TextJustify,
        msg: String,
        points: Points,
        size: Size,
    ) -> (w: TextWidget<H>)
        ensures
            w@ == (TextWidgetView {
                config: WidgetConfigView::initial(points[0], points[1], size[0], size[1]),
                callbacks: CallbackRegistry::<H>::empty(),
                font_name: font_name@,
                font_style,
                font_size,
                justification,
                msg: msg@,
            }),
    {
        TextWidget {
            config: WidgetConfig::new(points[0], points[1], size[0], size[1]),
            callback_registry: CallbackRegistry::new(),
            font_name,
            font_style,
            font_size,
            justification,
            msg,
        }
    }

    /// Shows `msg` from now on, and asks for a redraw.
    pub fn set_text(&mut self, msg: String)
        ensures
            final(self)@ == old(self)@.showing(msg@),
    {
        self.msg = msg;
        self.config.set_invalidated(true);
    }

    /// The text the widget shows.
    pub fn get_text(&self) -> (t: String)
        ensures
            t@ == self@.msg,
    {
        self.msg.clone()
    }

    /// The name of the font.
    pub fn get_font_name(&self) -> (t: String)
        ensures
            t@ == self@.font_name,
    {
        self.font_name.clone()
    }

    /// The style of the font.
    pub fn get_font_style(&self) -> (s: FontStyle)
        ensures
            s == self@.font_style,
    {
        self.font_style
    }

    /// The size of the font.
    pub fn get_font_size(&self) -> (s: i32)
        ensures
            s == self@.font_size,
    {
        self.font_size
    }

    /// How the text is justified.
    pub fn get_justification(&self) -> (j: TextJustify)
        ensures
            j == self@.justification,
    {
        self.justification
    }
}

/// The X coordinate, inside a widget `widget_w` wide, at which a text `text_w`
/// wide starts under the justification `justification`.
pub open spec fn spec_text_x(justification: TextJustify, widget_w: u32, text_w: u32) -> int {
    match justification {
        TextJustify::Left => 0,
        TextJustify::Right => widget_w - text_w,
        TextJustify::Center => truncated_half(widget_w - text_w),
    }
}

/// Half of `n`, rounded towards zero.
pub open spec fn truncated_half(n: int) -> int {
    if n >= 0 {
        n / 2
    } else {
        -((-n) / 2)
    }
}

/// The X coordinate, inside a widget `widget_w` wide, at which a text `text_w`
/// wide starts under the justification `justification`.
pub fn text_x(justification: TextJustify, widget_w: u32, text_w: u32) -> (x: i64)
    ensures
        x == spec_text_x(justification, widget_w, text_w),
{
    match justification {
        TextJustify::Left => 0,
        TextJustify::Right => widget_w as i64 - text_w as i64,
        TextJustify::Center => (widget_w as i64 - text_w as i64) / 2,
    }
}

impl<H> TextWidgetView<H> {
    /// The width at which the text is wrapped: the width of the widget less its
    /// border at both sides.
    pub open spec fn wrap_width(self) -> u32 {
        if self.config.numeric(CONFIG_BORDER_WIDTH) <= 0 {
            self.config.extent().0
        } else {
            minus(self.config.extent().0 as int, 2 * self.config.numeric(CONFIG_BORDER_WIDTH)) as u32
        }
    }

    /// The steps of painting the widget: its body, then its text.
    pub open spec fn drawn(self) -> Seq<DrawCommandView> {
        seq![
            DrawCommandView::Fill {
                area: self.config.area(),
                color: self.config.color(CONFIG_COLOR_BASE),
            },
            DrawCommandView::Text {
                area: self.config.area(),
                wrap_width: self.wrap_width(),
                font_name: self.font_name,
                font_style: self.font_style,
                font_size: self.font_size,
                justification: self.justification,
                color: self.config.color(CONFIG_COLOR_TEXT),
                msg: self.msg,
            },
        ]
    }
}

impl<H> TextWidget<H> {
    /// The steps of painting the widget.
    pub fn draw(&self) -> (commands: Vec<DrawCommand>)
        ensures
            steps(commands@) == self@.drawn(),
    {
        let area = self.config.area();
        let border_width = self.config.get_numeric(CONFIG_BORDER_WIDTH);
        let wrap_width: u32 = if border_width <= 0 {
            area.w
        } else if area.w as u64 >= 2 * (border_width as u64) {
            (area.w as u64 - 2 * (border_width as u64)) as u32
        } else {
            0
        };
        let mut commands: Vec<DrawCommand> = Vec::new();
        add_step(
            &mut commands,
            DrawCommand::Fill { area, color: self.config.get_color(CONFIG_COLOR_BASE) },
        );
        add_step(
            &mut commands,
            DrawCommand::Text {
                area,
                wrap_width,
                font_name: self.font_name.clone(),
                font_style: self.font_style,
                font_size: self.font_size,
                justification: self.justification,
                color: self.config.get_color(CONFIG_COLOR_TEXT),
                msg: self.msg.clone(),
            },
        );
        assert(steps(commands@) =~= self@.drawn());
        commands
    }
}

} // verus!
