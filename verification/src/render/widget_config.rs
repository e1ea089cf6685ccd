use crate::render::{Points, Size};
use crate::render::widget::Rect;
use std::collections::HashMap;
use vstd::prelude::*;

verus! {

/// Key of the fill color of a widget that is not selected. Holds a `Config::Color`.
pub const CONFIG_COLOR_BASE: u8 = 0;

/// Key of the fill color while the pointer hovers over the widget. Holds a `Config::Color`.
pub const CONFIG_COLOR_HOVER: u8 = 1;

/// Key of the border color. Holds a `Config::Color`.
pub const CONFIG_COLOR_BORDER: u8 = 2;

/// Key of the text color. Holds a `Config::Color`.
pub const CONFIG_COLOR_TEXT: u8 = 3;

/// Key of the fill color of a selected widget. Holds a `Config::Color`.
pub const CONFIG_COLOR_SELECTED: u8 = 4;

/// Key of the color of secondary parts, such as the bar of a progress widget.
/// Holds a `Config::Color`.
pub const CONFIG_COLOR_SECONDARY: u8 = 5;

/// Key of the widget's origin on the screen. Holds a `Config::Points`.
pub const CONFIG_ORIGIN: u8 = 6;

/// Key of the widget's size. Holds a `Config::Size`.
pub const CONFIG_SIZE: u8 = 7;

/// Key of the border width in pixels. Holds a `Config::Numeric`.
pub const CONFIG_BORDER_WIDTH: u8 = 8;

/// Key of the text a widget shows. Holds a `Config::Text`.
pub const CONFIG_TEXT: u8 = 9;

/// Key of a progress value. Holds a `Config::Numeric`.
pub const CONFIG_PROGRESS: u8 = 10;

/// Key of the position of an image inside its widget. Holds a `Config::CompassPosition`.
pub const CONFIG_IMAGE_POSITION: u8 = 11;

/// Key of the font size. Holds a `Config::Numeric`.
pub const CONFIG_FONT_SIZE: u8 = 12;

/// Key of the selected state of a widget that can be toggled. Holds a `Config::Toggle`.
pub const CONFIG_SELECTED_STATE: u8 = 13;

/// A color by its red, green, blue and alpha channels.
#[derive(Clone, Copy, Debug, PartialEq, Eq, Structural)]
pub struct Color {
    pub r: u8,
    pub g: u8,
    pub b: u8,
    pub a: u8,
}

impl Color {
    /// The opaque color of the three channels.
    #[allow(non_snake_case)]
    pub fn RGB(r: u8, g: u8, b: u8) -> (c: Color)
        ensures
            c == (Color { r, g, b, a: 255 }),
    {
        Color { r, g, b, a: 255 }
    }

    /// The color of the four channels.
    #[allow(non_snake_case)]
    pub fn RGBA(r: u8, g: u8, b: u8, a: u8) -> (c: Color)
        ensures
            c == (Color { r, g, b, a }),
    {
        Color { r, g, b, a }
    }

    /// Opaque black.
    pub open spec fn black() -> Color {
        Color { r: 0, g: 0, b: 0, a: 255 }
    }

    /// Opaque white, the color of a key that holds none.
    pub open spec fn white() -> Color {
        Color { r: 255, g: 255, b: 255, a: 255 }
    }
}

/// Where an image sits inside the bounds of its widget.
#[derive(Clone, Copy, Debug, PartialEq, Eq, Structural)]
pub enum CompassPosition {
    /// Upper left-hand corner.
    NW,
    /// Centered at the top.
    N,
    /// Upper right-hand corner.
    NE,
    /// Centered at the left side.
    W,
    /// Center of the bounds.
    Center,
    /// Centered at the right side.
    E,
    /// Lower left-hand corner.
    SW,
    /// Centered at the bottom.
    S,
    /// Lower right-hand corner.
    SE,
}

/// Insets of a layout at its four edges, and the spacing between two neighbours.
///
/// The fields are meant to be non-negative. A layout reads a negative field as 0.
#[derive(Clone, Copy, Debug, PartialEq, Eq, Structural)]
pub struct PaddingConstraint {
    pub top: i32,
    pub bottom: i32,
    pub left: i32,
    pub right: i32,
    pub spacing: i32,
}

impl PaddingConstraint {
    /// The constraint of the five values.
    pub fn new(top: i32, bottom: i32, left: i32, right: i32, spacing: i32) -> (p: PaddingConstraint)
        ensures
            p == (PaddingConstraint { top, bottom, left, right, spacing }),
    {
        PaddingConstraint { top, bottom, left, right, spacing }
    }
}

/// A value of the property store, tagged by its kind.
#[derive(Clone, Debug)]
pub enum Config {
    /// A pair of coordinates.
    Points(Points),
    /// A pair of extents.
    Size(Size),
    /// A color.
    Color(Color),
    /// A number.
    Numeric(i32),
    /// A text.
    Text(String),
    /// A flag.
    Toggle(bool),
    /// A compass position.
    CompassPosition(CompassPosition),
}

/// What a `Config` holds, as a mathematical value.
pub enum ConfigValue {
    Points { x: i32, y: i32 },
    Size { w: u32, h: u32 },
    Color(Color),
    Numeric(i32),
    Text(Seq<char>),
    Toggle(bool),
    CompassPosition(CompassPosition),
}

impl View for Config {
    type V = ConfigValue;

    open spec fn view(&self) -> ConfigValue {
        match self {
            Config::Points(p) => ConfigValue::Points { x: p[0], y: p[1] },
            Config::Size(s) => ConfigValue::Size { w: s[0], h: s[1] },
            Config::Color(c) => ConfigValue::Color(*c),
            Config::Numeric(n) => ConfigValue::Numeric(*n),
            Config::Text(t) => ConfigValue::Text(t@),
            Config::Toggle(b) => ConfigValue::Toggle(*b),
            Config::CompassPosition(p) => ConfigValue::CompassPosition(*p),
        }
    }
}

impl Config {
    /// Whether two values are of one kind and hold the same.
    pub fn same(&self, other: &Config) -> (b: bool)
        ensures
            b == (self@ == other@),
    {
        match (self, other) {
            (Config::Points(p), Config::Points(q)) => p[0] == q[0] && p[1] == q[1],
            (Config::Size(p), Config::Size(q)) => p[0] == q[0] && p[1] == q[1],
            (Config::Color(c), Config::Color(d)) => *c == *d,
            (Config::Numeric(n), Config::Numeric(m)) => *n == *m,
            (Config::Text(s), Config::Text(t)) => *s == *t,
            (Config::Toggle(a), Config::Toggle(b)) => *a == *b,
            (Config::CompassPosition(p), Config::CompassPosition(q)) => *p == *q,
            _ => false,
        }
    }
}

/// A widget configuration as a mathematical value: the stored properties by key,
/// and the three flags.
pub struct WidgetConfigView {
    pub entries: Map<u8, ConfigValue>,
    pub hidden: bool,
    pub enabled: bool,
    pub invalidated: bool,
}

impl WidgetConfigView {
    /// The configuration a widget is born with: origin, size, a white base color
    /// and no border; shown, enabled, and due for its first drawing.
    pub open spec fn initial(x: i32, y: i32, w: u32, h: u32) -> WidgetConfigView {
        WidgetConfigView {
            entries: Map::<u8, ConfigValue>::empty().insert(
                CONFIG_ORIGIN,
                ConfigValue::Points { x, y },
            ).insert(CONFIG_SIZE, ConfigValue::Size { w, h }).insert(
                CONFIG_COLOR_BASE,
                ConfigValue::Color(Color::white()),
            ).insert(CONFIG_BORDER_WIDTH, ConfigValue::Numeric(0)),
            hidden: false,
            enabled: true,
            invalidated: true,
        }
    }

    /// Whether key `k` holds exactly `v`.
    pub open spec fn holds(self, k: u8, v: ConfigValue) -> bool {
        self.entries.contains_key(k) && self.entries[k] == v
    }

    /// The configuration after `v` was stored under `k`: an unchanged value leaves
    /// everything as it is, a new one is stored and asks for a redraw.
    pub open spec fn set(self, k: u8, v: ConfigValue) -> WidgetConfigView {
        if self.holds(k, v) {
            self
        } else {
            WidgetConfigView { entries: self.entries.insert(k, v), invalidated: true, ..self }
        }
    }

    /// The configuration with the redraw flag at `flag`.
    pub open spec fn with_invalidated(self, flag: bool) -> WidgetConfigView {
        WidgetConfigView { invalidated: flag, ..self }
    }

    /// The configuration with the redraw flag up.
    pub open spec fn invalidate(self) -> WidgetConfigView {
        self.with_invalidated(true)
    }

    /// The coordinates under `k`; `(0, 0)` where `k` holds none.
    pub open spec fn point(self, k: u8) -> (i32, i32) {
        if self.entries.contains_key(k) {
            match self.entries[k] {
                ConfigValue::Points { x, y } => (x, y),
                _ => (0i32, 0i32),
            }
        } else {
            (0i32, 0i32)
        }
    }

    /// The extents under `k`; `(0, 0)` where `k` holds none.
    pub open spec fn size(self, k: u8) -> (u32, u32) {
        if self.entries.contains_key(k) {
            match self.entries[k] {
                ConfigValue::Size { w, h } => (w, h),
                _ => (0u32, 0u32),
            }
        } else {
            (0u32, 0u32)
        }
    }

    /// The color under `k`; white where `k` holds none.
    pub open spec fn color(self, k: u8) -> Color {
        if self.entries.contains_key(k) {
            match self.entries[k] {
                ConfigValue::Color(c) => c,
                _ => Color::white(),
            }
        } else {
            Color::white()
        }
    }

    /// The number under `k`; 0 where `k` holds none.
    pub open spec fn numeric(self, k: u8) -> i32 {
        if self.entries.contains_key(k) {
            match self.entries[k] {
                ConfigValue::Numeric(n) => n,
                _ => 0i32,
            }
        } else {
            0i32
        }
    }

    /// The text under `k`; empty where `k` holds none.
    pub open spec fn text(self, k: u8) -> Seq<char> {
        if self.entries.contains_key(k) {
            match self.entries[k] {
                ConfigValue::Text(t) => t,
                _ => Seq::<char>::empty(),
            }
        } else {
            Seq::<char>::empty()
        }
    }

    /// The flag under `k`; `false` where `k` holds none.
    pub open spec fn toggle(self, k: u8) -> bool {
        if self.entries.contains_key(k) {
            match self.entries[k] {
                ConfigValue::Toggle(b) => b,
                _ => false,
            }
        } else {
            false
        }
    }

    /// The compass position under `k`; `W` where `k` holds none.
    pub open spec fn compass(self, k: u8) -> CompassPosition {
        if self.entries.contains_key(k) {
            match self.entries[k] {
                ConfigValue::CompassPosition(p) => p,
                _ => CompassPosition::W,
            }
        } else {
            CompassPosition::W
        }
    }

    /// The origin of the widget.
    pub open spec fn origin(self) -> (i32, i32) {
        self.point(CONFIG_ORIGIN)
    }

    /// The extents of the widget.
    pub open spec fn extent(self) -> (u32, u32) {
        self.size(CONFIG_SIZE)
    }

    /// The bounds of the widget on the screen.
    pub open spec fn area(self) -> Rect {
        Rect { x: self.origin().0, y: self.origin().1, w: self.extent().0, h: self.extent().1 }
    }

    /// Whether the point `(x, y)` lies inside the widget's bounds: from the origin
    /// on, up to but not including the origin plus the extents.
    pub open spec fn contains_point(self, x: int, y: int) -> bool {
        &&& self.origin().0 <= x < self.origin().0 + self.extent().0
        &&& self.origin().1 <= y < self.origin().1 + self.extent().1
    }

    /// The configuration after a layout has placed the widget: origin and extents
    /// are stored as given, and the widget is due for a redraw.
    pub open spec fn place(self, x: i32, y: i32, w: u32, h: u32) -> WidgetConfigView {
        self.set(CONFIG_ORIGIN, ConfigValue::Points { x, y }).set(
            CONFIG_SIZE,
            ConfigValue::Size { w, h },
        ).invalidate()
    }
}

/// Setting a property to the value it holds changes nothing: a redraw flag that
/// is down stays down.
pub proof fn lemma_same_value_keeps_flag(c: WidgetConfigView, k: u8, v: ConfigValue)
    requires
        c.holds(k, v),
    ensures
        c.set(k, v) == c,
        !c.invalidated ==> !c.set(k, v).invalidated,
{
}

/// Setting a property to another value than it holds, or to any value where it
/// holds none, stores the value and raises the redraw flag. Nothing else changes.
pub proof fn lemma_new_value_raises_flag(c: WidgetConfigView, k: u8, v: ConfigValue)
    requires
        !c.holds(k, v),
    ensures
        c.set(k, v).invalidated,
        c.set(k, v).holds(k, v),
        c.set(k, v).hidden == c.hidden,
        c.set(k, v).enabled == c.enabled,
        forall|j: u8| j != k ==> c.set(k, v).entries.contains_key(j) == c.entries.contains_key(j),
        forall|j: u8|
            j != k && c.entries.contains_key(j) ==> c.set(k, v).entries[j] == c.entries[j],
{
}

/// The store of a widget's properties, together with its hidden, enabled and
/// invalidated flags.
pub struct WidgetConfig {
    config: HashMap<u8, Config>,
    hidden: bool,
    enabled: bool,
    invalidated: bool,
}

impl View for WidgetConfig {
    type V = WidgetConfigView;

    closed spec fn view(&self) -> WidgetConfigView {
        WidgetConfigView {
            entries: self.config@.map_values(|c: Config| c@),
            hidden: self.hidden,
            enabled: self.enabled,
            invalidated: self.invalidated,
        }
    }
}

impl WidgetConfig {
    /// A configuration for a widget at `(x, y)` of size `w` by `h`.
    pub fn new(x: i32, y: i32, w: u32, h: u32) -> (c: WidgetConfig)
        ensures
            c@ == WidgetConfigView::initial(x, y, w, h),
    {
        let mut config: HashMap<u8, Config> = HashMap::new();
        config.insert(CONFIG_ORIGIN, Config::Points([x, y]));
        config.insert(CONFIG_SIZE, Config::Size([w, h]));
        config.insert(CONFIG_COLOR_BASE, Config::Color(Color::RGB(255, 255, 255)));
        config.insert(CONFIG_BORDER_WIDTH, Config::Numeric(0));
        let c = WidgetConfig { config, hidden: false, enabled: true, invalidated: true };
        assert(c@.entries =~= WidgetConfigView::initial(x, y, w, h).entries);
        c
    }

    /// Stores `value` under `k`. A value equal to the stored one changes nothing;
    /// any other is stored and raises the redraw flag.
    pub fn set(&mut self, k: u8, value: Config)
        ensures
            final(self)@ == old(self)@.set(k, value@),
    {
        let same = match self.config.get(&k) {
            Some(stored) => stored.same(&value),
            None => false,
        };
        if !same {
            self.config.insert(k, value);
            self.invalidated = true;
            assert(final(self)@.entries =~= old(self)@.entries.insert(k, value@));
        }
    }

    /// The stored value under `k`, if there is one.
    pub fn get(&self, k: u8) -> (r: Option<&Config>)
        ensures
            r is Some == self@.entries.contains_key(k),
            r matches Some(c) ==> c@ == self@.entries[k],
    {
        self.config.get(&k)
    }

    /// The X coordinate on the screen of the widget's own X coordinate `x`.
    pub fn to_x(&self, x: i32) -> (r: i32)
        requires
            i32::MIN <= self@.origin().0 + x <= i32::MAX,
        ensures
            r == self@.origin().0 + x,
    {
        self.get_point(CONFIG_ORIGIN)[0] + x
    }

    /// The Y coordinate on the screen of the widget's own Y coordinate `y`.
    pub fn to_y(&self, y: i32) -> (r: i32)
        requires
            i32::MIN <= self@.origin().1 + y <= i32::MAX,
        ensures
            r == self@.origin().1 + y,
    {
        self.get_point(CONFIG_ORIGIN)[1] + y
    }

    /// Sets the redraw flag: `true` asks for a redraw, `false` says the last
    /// drawing still stands.
    pub fn set_invalidated(&mut self, flag: bool)
        ensures
            final(self)@ == old(self)@.with_invalidated(flag),
    {
        self.invalidated = flag;
    }

    /// Sets the redraw flag, as `set_invalidated` does.
    pub fn set_invalidate(&mut self, flag: bool)
        ensures
            final(self)@ == old(self)@.with_invalidated(flag),
    {
        self.set_invalidated(flag);
    }

    /// Whether the widget is due for a redraw.
    pub fn invalidated(&self) -> (b: bool)
        ensures
            b == self@.invalidated,
    {
        self.invalidated
    }

    /// Lets the widget take part in interaction again, and asks for a redraw.
    pub fn enable(&mut self)
        ensures
            final(self)@ == (WidgetConfigView { enabled: true, invalidated: true, ..old(self)@ }),
    {
        self.enabled = true;
        self.invalidated = true;
    }

    /// Takes the widget out of interaction, and asks for a redraw.
    pub fn disable(&mut self)
        ensures
            final(self)@ == (WidgetConfigView { enabled: false, invalidated: true, ..old(self)@ }),
    {
        self.enabled = false;
        self.invalidated = true;
    }

    /// Whether the widget takes part in interaction.
    pub fn is_enabled(&self) -> (b: bool)
        ensures
            b == self@.enabled,
    {
        self.enabled
    }

    /// Takes the widget off the screen and out of interaction, and asks for a redraw.
    pub fn hide_widget(&mut self)
        ensures
            final(self)@ == (WidgetConfigView { hidden: true, invalidated: true, ..old(self)@ }),
    {
        self.hidden = true;
        self.invalidated = true;
    }

    /// Puts the widget back on the screen, and asks for a redraw.
    pub fn show(&mut self)
        ensures
            final(self)@ == (WidgetConfigView { hidden: false, invalidated: true, ..old(self)@ }),
    {
        self.hidden = false;
        self.invalidated = true;
    }

    /// Whether the widget is off the screen.
    pub fn is_hidden(&self) -> (b: bool)
        ensures
            b == self@.hidden,
    {
        self.hidden
    }

    /// Stores the coordinates `(x, y)` under `config`.
    pub fn set_point(&mut self, config: u8, x: i32, y: i32)
        ensures
            final(self)@ == old(self)@.set(config, ConfigValue::Points { x, y }),
    {
        self.set(config, Config::Points([x, y]));
    }

    /// Stores the extents `(w, h)` under `config`.
    pub fn set_size(&mut self, config: u8, w: u32, h: u32)
        ensures
            final(self)@ == old(self)@.set(config, ConfigValue::Size { w, h }),
    {
        self.set(config, Config::Size([w, h]));
    }

    /// Stores `color` under `config`.
    pub fn set_color(&mut self, config: u8, color: Color)
        ensures
            final(self)@ == old(self)@.set(config, ConfigValue::Color(color)),
    {
        self.set(config, Config::Color(color));
    }

    /// Stores the number `value` under `config`.
    pub fn set_numeric(&mut self, config: u8, value: i32)
        ensures
            final(self)@ == old(self)@.set(config, ConfigValue::Numeric(value)),
    {
        self.set(config, Config::Numeric(value));
    }

    /// Stores `text` under `config`.
    pub fn set_text(&mut self, config: u8, text: String)
        ensures
            final(self)@ == old(self)@.set(config, ConfigValue::Text(text@)),
    {
        self.set(config, Config::Text(text));
    }

    /// Stores `flag` under `config`.
    pub fn set_toggle(&mut self, config: u8, flag: bool)
        ensures
            final(self)@ == old(self)@.set(config, ConfigValue::Toggle(flag)),
    {
        self.set(config, Config::Toggle(flag));
    }

    /// Stores the compass position `value` under `config`.
    pub fn set_compass(&mut self, config: u8, value: CompassPosition)
        ensures
            final(self)@ == old(self)@.set(config, ConfigValue::CompassPosition(value)),
    {
        self.set(config, Config::CompassPosition(value));
    }

    /// The coordinates under `k`, or `(0, 0)`.
    pub fn get_point(&self, k: u8) -> (p: Points)
        ensures
            p[0] == self@.point(k).0,
            p[1] == self@.point(k).1,
    {
        match self.config.get(&k) {
            Some(Config::Points(point)) => [point[0], point[1]],
            _ => [0, 0],
        }
    }

    /// The extents under `k`, or `(0, 0)`.
    pub fn get_size(&self, k: u8) -> (s: Size)
        ensures
            s[0] == self@.size(k).0,
            s[1] == self@.size(k).1,
    {
        match self.config.get(&k) {
            Some(Config::Size(size)) => [size[0], size[1]],
            _ => [0, 0],
        }
    }

    /// The color under `k`, or white.
    pub fn get_color(&self, k: u8) -> (c: Color)
        ensures
            c == self@.color(k),
    {
        match self.config.get(&k) {
            Some(Config::Color(color)) => *color,
            _ => Color::RGB(255, 255, 255),
        }
    }

    /// The number under `k`, or 0.
    pub fn get_numeric(&self, k: u8) -> (n: i32)
        ensures
            n == self@.numeric(k),
    {
        match self.config.get(&k) {
            Some(Config::Numeric(numeric)) => *numeric,
            _ => 0,
        }
    }

    /// The text under `k`, or the empty text.
    pub fn get_text(&self, k: u8) -> (t: String)
        ensures
            t@ == self@.text(k),
    {
        match self.config.get(&k) {
            Some(Config::Text(text)) => text.clone(),
            _ => String::new(),
        }
    }

    /// The flag under `k`, or `false`.
    pub fn get_toggle(&self, k: u8) -> (b: bool)
        ensures
            b == self@.toggle(k),
    {
        match self.config.get(&k) {
            Some(Config::Toggle(toggle)) => *toggle,
            _ => false,
        }
    }

    /// The compass position under `k`, or `W`.
    pub fn get_compass(&self, k: u8) -> (p: CompassPosition)
        ensures
            p == self@.compass(k),
    {
        match self.config.get(&k) {
            Some(Config::CompassPosition(position)) => *position,
            _ => CompassPosition::W,
        }
    }

    /// The bounds of the widget on the screen.
    pub fn area(&self) -> (r: Rect)
        ensures
            r == self@.area(),
    {
        let origin = self.get_point(CONFIG_ORIGIN);
        let size = self.get_size(CONFIG_SIZE);
        Rect { x: origin[0], y: origin[1], w: size[0], h: size[1] }
    }

    /// Whether the point `(x, y)` lies inside the widget's bounds.
    pub fn contains_point(&self, x: i32, y: i32) -> (b: bool)
        ensures
            b == self@.contains_point(x as int, y as int),
    {
        let origin = self.get_point(CONFIG_ORIGIN);
        let size = self.get_size(CONFIG_SIZE);
        let dx: i64 = x as i64 - origin[0] as i64;
        let dy: i64 = y as i64 - origin[1] as i64;
        0 <= dx && dx < size[0] as i64 && 0 <= dy && dy < size[1] as i64
    }

    /// Puts the widget at `(x, y)` with the size `w` by `h`, and asks for a redraw.
    pub fn place(&mut self, x: i32, y: i32, w: u32, h: u32)
        ensures
            final(self)@ == old(self)@.place(x, y, w, h),
    {
        self.set_point(CONFIG_ORIGIN, x, y);
        self.set_size(CONFIG_SIZE, w, h);
        self.set_invalidated(true);
    }
}

} // verus!
