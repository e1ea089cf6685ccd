use crate::render::{Points, Size};
use crate::render::callbacks::{Callback, CallbackRegistry};
use crate::render::draw::{add_step, DrawCommand, DrawCommandView, move_by, moved, steps};
use crate::render::widget::{Rect, Widget};
use crate::render::widget_config::{
    Color, Config, CONFIG_COLOR_BASE, CONFIG_ORIGIN, ConfigValue, WidgetConfig, WidgetConfigView,
};
use crate::widgets::text_widget::{FontStyle, TextJustify};
use vstd::prelude::*;

verus! {

/// A tab bar as a mathematical value.
pub struct TabBarWidgetView<H> {
    pub config: WidgetConfigView,
    pub callbacks: CallbackRegistry<H>,
    pub tab_items: Seq<Seq<char>>,
    pub tab_widths: Seq<u32>,
    pub selected_item: i16,
    pub hovered_item: i16,
    pub in_bounds: bool,
    pub calculated: bool,
    pub on_tab_selected: Option<H>,
}

/// A row of tabs. The tab under the pointer is marked; a press of the left button
/// selects it, and the tab callback is due. The tabs can be told apart once their
/// widths are known.
pub struct TabBarWidget<H> {
    config: WidgetConfig,
    callback_registry: CallbackRegistry<H>,
    tab_items: Vec<String>,
    tab_widths: Vec<u32>,
    selected_item: i16,
    hovered_item: i16,
    in_bounds: bool,
    calculated: bool,
    on_tab_selected: Option<H>,
}

impl<H> View for TabBarWidget<H> {
    type V = TabBarWidgetView<H>;

    closed spec fn view(&self) -> TabBarWidgetView<H> {
        TabBarWidgetView {
            config: self.config@,
            callbacks: self.callback_registry,
            tab_items: self.tab_items@.map_values(|s: String| s@),
            tab_widths: self.tab_widths@,
            selected_item: self.selected_item,
            hovered_item: self.hovered_item,
            in_bounds: self.in_bounds,
            calculated: self.calculated,
            on_tab_selected: self.on_tab_selected,
        }
    }
}

impl<H> Widget<H> for TabBarWidget<H> {
    open spec fn config_of(v: TabBarWidgetView<H>) -> WidgetConfigView {
        v.config
    }

    open spec fn callbacks_of(v: TabBarWidgetView<H>) -> CallbackRegistry<H> {
        v.callbacks
    }

    open spec fn with_config(v: TabBarWidgetView<H>, c: WidgetConfigView) -> TabBarWidgetView<H> {
        TabBarWidgetView { config: c, ..v }
    }

    open spec fn with_callbacks(v: TabBarWidgetView<H>, r: CallbackRegistry<H>) -> TabBarWidgetView<H> {
        TabBarWidgetView { callbacks: r, ..v }
    }

    open spec fn config_changed(v: TabBarWidgetView<H>, k: u8, value: ConfigValue) -> TabBarWidgetView<H> {
        v
    }

    fn config(&self) -> (c: &WidgetConfig) {
        &self.config
    }

    fn get_config(&mut self) -> (c: &mut WidgetConfig) {
        &mut self.config
    }

    fn callbacks(&self) -> (r: &CallbackRegistry<H>) {
        &self.callback_registry
    }

    fn get_callbacks(&mut self) -> (r: &mut CallbackRegistry<H>) {
        &mut self.callback_registry
    }

    fn on_config_changed(&mut self, k: u8, v: Config) {
    }
}

/// The tab that the X coordinate `x`, counted from the left edge of the bar, lies
/// on, among the tabs from `i` on, the first of which starts at `start`; -1 where
/// it lies on none. A tab is its width and 30 more wide, and the next tab starts 1
/// behind its end.
pub open spec fn tab_from(widths: Seq<u32>, x: int, i: int, start: int) -> int
    decreases widths.len() - i,
{
    if i < 0 || i >= widths.len() {
        -1
    } else if start <= x <= start + widths[i] + 30 {
        i
    } else {
        tab_from(widths, x, i + 1, start + widths[i] + 31)
    }
}

/// The tab that the X coordinate `x` lies on, or -1: the first tab starts at 20.
/// A tab whose number does not fit in 16 bits counts as none.
pub open spec fn tab_at(widths: Seq<u32>, x: int) -> i16 {
    let tab = tab_from(widths, x, 0, 20);
    if tab > i16::MAX {
        -1i16
    } else {
        tab as i16
    }
}

/// A point before the start of a tab lies on none of the tabs from there on.
pub proof fn lemma_before_all_tabs(widths: Seq<u32>, x: int, i: int, start: int)
    requires
        0 <= i,
        x < start,
    ensures
        tab_from(widths, x, i, start) == -1,
    decreases widths.len() - i,
{
    if i < widths.len() {
        lemma_before_all_tabs(widths, x, i + 1, start + widths[i] + 31);
    }
}

/// The widths of the tabs whose labels are `text_widths` wide: 20 more each, no
/// more than 32 bits hold.
pub open spec fn widths_for(text_widths: Seq<u32>) -> Seq<u32> {
    text_widths.map_values(
        |w: u32|
            if w + 20 > u32::MAX {
                u32::MAX
            } else {
                (w + 20) as u32
            },
    )
}

impl<H> TabBarWidgetView<H> {
    /// The tab callback with `tab`, where a handler is in its slot.
    pub open spec fn tab_fired(self, tab: u16) -> Seq<Callback> {
        if self.on_tab_selected is Some {
            seq![Callback::TabSelected { tab }]
        } else {
            Seq::<Callback>::empty()
        }
    }

    /// The pointer comes into the bounds.
    pub open spec fn mouse_entered(self) -> (TabBarWidgetView<H>, Seq<Callback>) {
        (TabBarWidgetView { in_bounds: true, ..self }, Seq::<Callback>::empty())
    }

    /// The pointer leaves the bounds: no tab is marked any more.
    pub open spec fn mouse_exited(self) -> (TabBarWidgetView<H>, Seq<Callback>) {
        (
            TabBarWidgetView {
                in_bounds: false,
                hovered_item: -1i16,
                config: self.config.invalidate(),
                ..self
            },
            Seq::<Callback>::empty(),
        )
    }

    /// The tab under a pointer at the X coordinate `x` on the screen.
    pub open spec fn hovered_at(self, x: i32) -> i16 {
        tab_at(self.tab_widths, x - self.config.origin().0)
    }

    /// The pointer moves to `(x, y)`. Once the widths are known the tab under the
    /// pointer is marked; a change of the marked tab asks for a redraw.
    pub open spec fn mouse_moved(self, x: i32, y: i32) -> (TabBarWidgetView<H>, Seq<Callback>) {
        if !self.calculated {
            (self, Seq::<Callback>::empty())
        } else if self.hovered_at(x) != self.hovered_item {
            (
                TabBarWidgetView {
                    hovered_item: self.hovered_at(x),
                    config: self.config.invalidate(),
                    ..self
                },
                Seq::<Callback>::empty(),
            )
        } else {
            (self, Seq::<Callback>::empty())
        }
    }

    /// Whether a press of the left button selects a tab: the pointer is inside the
    /// bounds, the widths are known, and a tab is marked.
    pub open spec fn press_selects(self) -> bool {
        self.in_bounds && self.calculated && self.hovered_item != -1
    }

    /// A mouse button goes down (`state`) or up. A press of the left button that
    /// selects a tab takes the marked tab as the selection and asks for a redraw;
    /// the tab callback is due unless the number of the tab is negative.
    pub open spec fn button_clicked(self, button: u8, clicks: u8, state: bool) -> (
        TabBarWidgetView<H>,
        Seq<Callback>,
    ) {
        if button == 1 && state && self.press_selects() {
            (
                TabBarWidgetView {
                    selected_item: self.hovered_item,
                    config: self.config.invalidate(),
                    ..self
                },
                if self.hovered_item > -1 {
                    self.tab_fired(self.hovered_item as u16)
                } else {
                    Seq::<Callback>::empty()
                },
            )
        } else {
            (self, Seq::<Callback>::empty())
        }
    }
}

impl<H> TabBarWidget<H> {
    /// A tab bar at `points` of size `size` with one tab for each of `tab_items`.
    /// The widths of the tabs are not known yet.
    pub fn new(points: Points, size: Size, tab_items: Vec<String>) -> (w: TabBarWidget<H>)
        ensures
            w@ == (TabBarWidgetView {
                config: WidgetConfigView::initial(points[0], points[1], size[0], size[1]),
                callbacks: CallbackRegistry::<H>::empty(),
                tab_items: tab_items@.map_values(|s: String| s@),
                tab_widths: seq![0u32],
                selected_item: -1i16,
                hovered_item: -1i16,
                in_bounds: false,
                calculated: false,
                on_tab_selected: None,
            }),
    {
        let mut tab_widths: Vec<u32> = Vec::new();
        tab_widths.push(0);
        let w = TabBarWidget {
            config: WidgetConfig::new(points[0], points[1], size[0], size[1]),
            callback_registry: CallbackRegistry::new(),
            on_tab_selected: None,
            tab_items,
            tab_widths,
            selected_item: -1,
            hovered_item: -1,
            in_bounds: false,
            calculated: false,
        };
        assert(w@.tab_widths =~= seq![0u32]);
        w
    }

    /// Sets the handler that runs when a tab is selected.
    pub fn on_tab_selected(&mut self, callback: H)
        ensures
            final(self)@ == (TabBarWidgetView { on_tab_selected: Some(callback), ..old(self)@ }),
    {
        self.on_tab_selected = Some(callback);
    }

    /// Takes the tab handler out of its slot, to run it.
    pub fn take_on_tab_selected(&mut self) -> (handler: Option<H>)
        ensures
            handler == old(self)@.on_tab_selected,
            final(self)@ == (TabBarWidgetView { on_tab_selected: None, ..old(self)@ }),
    {
        self.on_tab_selected.take()
    }

    /// Takes the widths of the labels as they were measured in the font of the
    /// bar, in the order of the tabs. From now on the tabs can be told apart.
    pub fn adjust_widgets(&mut self, text_widths: Vec<u32>)
        ensures
            final(self)@ == (TabBarWidgetView {
                tab_widths: widths_for(text_widths@),
                calculated: true,
                ..old(self)@
            }),
    {
        let mut tab_widths: Vec<u32> = Vec::new();
        let mut i: usize = 0;
        while i < text_widths.len()
            invariant
                i <= text_widths.len(),
                tab_widths@ == widths_for(text_widths@.take(i as int)),
            decreases text_widths.len() - i,
        {
            tab_widths.push(text_widths[i].saturating_add(20));
            assert(tab_widths@ =~= widths_for(text_widths@.take(i + 1)));
            i = i + 1;
        }
        assert(text_widths@.take(text_widths.len() as int) =~= text_widths@);
        self.tab_widths = tab_widths;
        self.calculated = true;
    }

    /// The number of tabs.
    pub fn tab_count(&self) -> (n: usize)
        ensures
            n == self@.tab_items.len(),
    {
        self.tab_items.len()
    }

    /// The label of tab `i`.
    pub fn get_tab_item(&self, i: usize) -> (t: String)
        requires
            i < self@.tab_items.len(),
        ensures
            t@ == self@.tab_items[i as int],
    {
        self.tab_items[i].clone()
    }

    /// Whether the widths of the tabs are known.
    pub fn is_calculated(&self) -> (b: bool)
        ensures
            b == self@.calculated,
    {
        self.calculated
    }

    /// The widths of the tabs, as far as they are known.
    pub fn get_tab_widths(&self) -> (widths: Vec<u32>)
        ensures
            widths@ == self@.tab_widths,
    {
        self.tab_widths.clone()
    }

    /// The selected tab, or -1.
    pub fn get_selected_item(&self) -> (i: i16)
        ensures
            i == self@.selected_item,
    {
        self.selected_item
    }

    /// The marked tab, or -1.
    pub fn get_hovered_item(&self) -> (i: i16)
        ensures
            i == self@.hovered_item,
    {
        self.hovered_item
    }

    /// The tab that the X coordinate `x`, counted from the left edge of the bar,
    /// lies on, or -1.
    pub fn find_hovered_item(&self, x: i64) -> (tab: i16)
        ensures
            tab == tab_at(self@.tab_widths, x as int),
    {
        let mut start_x: i64 = 20;
        let mut i: usize = 0;
        while i < self.tab_widths.len()
            invariant
                i <= self.tab_widths.len(),
                20 <= start_x,
                tab_from(self@.tab_widths, x as int, 0, 20) == tab_from(
                    self@.tab_widths,
                    x as int,
                    i as int,
                    start_x as int,
                ),
            decreases self.tab_widths.len() - i,
        {
            if x < start_x {
                proof {
                    lemma_before_all_tabs(self@.tab_widths, x as int, i as int, start_x as int);
                }
                return -1;
            }
            if x - start_x <= self.tab_widths[i] as i64 + 30 {
                if i > i16::MAX as usize {
                    return -1;
                } else {
                    return i as i16;
                }
            }
            start_x = start_x + self.tab_widths[i] as i64 + 31;
            i = i + 1;
        }
        -1
    }

    /// The pointer comes into the bounds.
    pub fn mouse_entered(&mut self) -> (fired: Vec<Callback>)
        ensures
            (final(self)@, fired@) == old(self)@.mouse_entered(),
    {
        self.in_bounds = true;
        Vec::new()
    }

    /// The pointer leaves the bounds.
    pub fn mouse_exited(&mut self) -> (fired: Vec<Callback>)
        ensures
            (final(self)@, fired@) == old(self)@.mouse_exited(),
    {
        self.in_bounds = false;
        self.hovered_item = -1;
        self.config.set_invalidated(true);
        Vec::new()
    }

    /// The pointer moves to `points` on the screen.
    pub fn mouse_moved(&mut self, points: Points) -> (fired: Vec<Callback>)
        ensures
            (final(self)@, fired@) == old(self)@.mouse_moved(points[0], points[1]),
    {
        if self.calculated {
            let origin = self.config.get_point(CONFIG_ORIGIN);
            let true_x: i64 = points[0] as i64 - origin[0] as i64;
            let previous_hovered_item = self.hovered_item;
            let hovered_item = self.find_hovered_item(true_x);
            self.hovered_item = hovered_item;
            if previous_hovered_item != hovered_item {
                self.config.set_invalidated(true);
            }
        }
        Vec::new()
    }

    /// A mouse button goes down (`state`) or up.
    pub fn button_clicked(&mut self, button: u8, clicks: u8, state: bool) -> (fired: Vec<Callback>)
        ensures
            (final(self)@, fired@) == old(self)@.button_clicked(button, clicks, state),
    {
        let mut fired: Vec<Callback> = Vec::new();
        if button == 1 && self.in_bounds && self.calculated && state && self.hovered_item != -1 {
            self.selected_item = self.hovered_item;
            self.config.set_invalidated(true);
            if self.selected_item > -1 && self.on_tab_selected.is_some() {
                fired.push(Callback::TabSelected { tab: self.selected_item as u16 });
            }
        }
        fired
    }
}

/// Where tab `i` starts, counted from the left edge of the bar: the first at 20,
/// each further one 31 behind the width of the one before.
pub open spec fn tab_start(widths: Seq<u32>, i: nat) -> int
    decreases i,
{
    if i == 0 {
        20
    } else {
        tab_start(widths, (i - 1) as nat) + widths[i - 1] + 31
    }
}

impl<H> TabBarWidgetView<H> {
    /// The color of tab `i`: a dark grey for the selected tab, else a middle grey
    /// for the marked tab, else a light grey.
    pub open spec fn tab_color(self, i: int) -> Color {
        if self.selected_item == i {
            Color { r: 128, g: 128, b: 128, a: 255 }
        } else if self.hovered_item == i {
            Color { r: 192, g: 192, b: 192, a: 255 }
        } else {
            Color { r: 224, g: 224, b: 224, a: 255 }
        }
    }

    /// The color of the label of tab `i`: white for the selected tab, else black.
    pub open spec fn label_color(self, i: int) -> Color {
        if self.selected_item == i {
            Color::white()
        } else {
            Color::black()
        }
    }

    /// The label of tab `i`; empty where there are more widths than labels.
    pub open spec fn label(self, i: int) -> Seq<char> {
        if i < self.tab_items.len() {
            self.tab_items[i]
        } else {
            Seq::<char>::empty()
        }
    }

    /// The body of tab `i`: its width and 30 more wide, as high as the bar.
    pub open spec fn tab_area(self, i: int) -> Rect {
        Rect {
            x: moved(self.config.origin().0, tab_start(self.tab_widths, i as nat)),
            y: self.config.origin().1,
            w: (if self.tab_widths[i] + 30 > u32::MAX {
                u32::MAX as int
            } else {
                self.tab_widths[i] + 30
            }) as u32,
            h: self.config.extent().1,
        }
    }

    /// The label of tab `i`: 10 into the tab, 10 above the middle of the bar.
    pub open spec fn tab_label(self, i: int) -> DrawCommandView {
        DrawCommandView::Text {
            area: Rect {
                x: moved(self.config.origin().0, tab_start(self.tab_widths, i as nat) + 10),
                y: moved(self.config.origin().1, self.config.extent().1 / 2 - 10),
                w: self.config.extent().0,
                h: self.config.extent().1,
            },
            wrap_width: self.config.extent().0,
            font_name: "assets/OpenSans-Regular.ttf"@,
            font_style: FontStyle::normal(),
            font_size: 14,
            justification: TextJustify::Left,
            color: self.label_color(i),
            msg: self.label(i),
        }
    }

    /// The steps of painting the first `n` tabs: for each its body, then its label.
    pub open spec fn tabs(self, n: nat) -> Seq<DrawCommandView>
        decreases n,
    {
        if n == 0 {
            Seq::<DrawCommandView>::empty()
        } else {
            self.tabs((n - 1) as nat).push(
                DrawCommandView::Fill { area: self.tab_area(n - 1), color: self.tab_color(n - 1) },
            ).push(self.tab_label(n - 1))
        }
    }

    /// The steps of painting the widget: its body, its tabs from the first to the
    /// last, and a black line along its lower edge.
    pub open spec fn drawn(self) -> Seq<DrawCommandView> {
        seq![
            DrawCommandView::Fill {
                area: self.config.area(),
                color: self.config.color(CONFIG_COLOR_BASE),
            },
        ] + self.tabs(self.tab_widths.len()) + seq![
            DrawCommandView::Line {
                x1: self.config.origin().0,
                y1: moved(self.config.origin().1, self.config.extent().1 - 1),
                x2: moved(self.config.origin().0, self.config.extent().0 as int),
                y2: moved(self.config.origin().1, self.config.extent().1 - 1),
                color: Color::black(),
            },
        ]
    }
}

impl<H> TabBarWidget<H> {
    /// The steps of painting the widget.
    pub fn draw(&self) -> (commands: Vec<DrawCommand>)
        ensures
            steps(commands@) == self@.drawn(),
    {
        let area = self.config.area();
        let label_y = move_by(area.y, (area.h / 2) as i64 - 10);
        let mut commands: Vec<DrawCommand> = Vec::new();
        add_step(
            &mut commands,
            DrawCommand::Fill { area, color: self.config.get_color(CONFIG_COLOR_BASE) },
        );
        let ghost filled = steps(commands@);
        let mut start: i64 = 20;
        let mut i: usize = 0;
        assert(steps(commands@) =~= filled + self@.tabs(0));
        while i < self.tab_widths.len()
            invariant
                i <= self.tab_widths.len(),
                area == self@.config.area(),
                label_y == moved(area.y, area.h / 2 - 10),
                20 <= start <= 0x2_0000_0000,
                start == if tab_start(self@.tab_widths, i as nat) > 0x2_0000_0000 {
                    0x2_0000_0000
                } else {
                    tab_start(self@.tab_widths, i as nat)
                },
                steps(commands@) == filled + self@.tabs(i as nat),
            decreases self.tab_widths.len() - i,
        {
            let selected = self.selected_item >= 0 && self.selected_item as usize == i;
            let hovered = self.hovered_item >= 0 && self.hovered_item as usize == i;
            let color = if selected {
                Color::RGB(128, 128, 128)
            } else if hovered {
                Color::RGB(192, 192, 192)
            } else {
                Color::RGB(224, 224, 224)
            };
            let label_color = if selected {
                Color::RGB(255, 255, 255)
            } else {
                Color::RGB(0, 0, 0)
            };
            let label = if i < self.tab_items.len() {
                self.tab_items[i].clone()
            } else {
                String::new()
            };
            proof {
                let exact: int = tab_start(self@.tab_widths, i as nat);
                assert(moved(area.x, exact) == moved(area.x, start as int));
                assert(moved(area.x, exact + 10) == moved(area.x, start as int + 10));
            }
            add_step(
                &mut commands,
                DrawCommand::Fill {
                    area: Rect {
                        x: move_by(area.x, start),
                        y: area.y,
                        w: self.tab_widths[i].saturating_add(30),
                        h: area.h,
                    },
                    color,
                },
            );
            add_step(
                &mut commands,
                DrawCommand::Text {
                    area: Rect { x: move_by(area.x, start + 10), y: label_y, w: area.w, h: area.h },
                    wrap_width: area.w,
                    font_name: "assets/OpenSans-Regular.ttf".to_owned(),
                    font_style: FontStyle::normal(),
                    font_size: 14,
                    justification: TextJustify::Left,
                    color: label_color,
                    msg: label,
                },
            );
            start = start + self.tab_widths[i] as i64 + 31;
            if start > 0x2_0000_0000 {
                start = 0x2_0000_0000;
            }
            i = i + 1;
            assert(steps(commands@) =~= filled + self@.tabs(i as nat));
        }
        let bottom = move_by(area.y, area.h as i64 - 1);
        add_step(
            &mut commands,
            DrawCommand::Line {
                x1: area.x,
                y1: bottom,
                x2: move_by(area.x, area.w as i64),
                y2: bottom,
                color: Color::RGB(0, 0, 0),
            },
        );
        assert(steps(commands@) =~= self@.drawn());
        commands
    }
}

} // verus!
