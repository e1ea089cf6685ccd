use crate::render::{Points, Size};
use crate::render::callbacks::{Callback, CallbackRegistry};
use crate::render::draw::{add_step, DrawCommand, DrawCommandView, move_by, moved, steps};
use crate::render::widget::{Rect, Widget};
use crate::render::widget_config::{
    Color, Config, CONFIG_COLOR_BASE, CONFIG_COLOR_BORDER, CONFIG_COLOR_HOVER, CONFIG_ORIGIN,
    ConfigValue, WidgetConfig, WidgetConfigView,
};
use crate::widgets::text_widget::{FontStyle, TextJustify};
use vstd::prelude::*;

verus! {

/// A list as a mathematical value.
pub struct ListWidgetView<H> {
    pub config: WidgetConfigView,
    pub callbacks: CallbackRegistry<H>,
    pub list_items: Seq<Seq<char>>,
    pub highlighted_item: i32,
    pub selected_item: i32,
    pub in_bounds: bool,
    pub on_selected: Option<H>,
}

/// A list of texts, one row each. The row under the pointer is highlighted; a
/// press of the left button selects it, and the selection callback is due.
pub struct ListWidget<H> {
    config: WidgetConfig,
    callback_registry: CallbackRegistry<H>,
    list_items: Vec<String>,
    highlighted_item: i32,
    selected_item: i32,
    in_bounds: bool,
    on_selected: Option<H>,
}

impl<H> View for ListWidget<H> {
    type V = ListWidgetView<H>;

    closed spec fn view(&self) -> ListWidgetView<H> {
        ListWidgetView {
            config: self.config@,
            callbacks: self.callback_registry,
            list_items: self.list_items@.map_values(|s: String| s@),
            highlighted_item: self.highlighted_item,
            selected_item: self.selected_item,
            in_bounds: self.in_bounds,
            on_selected: self.on_selected,
        }
    }
}

impl<H> Widget<H> for ListWidget<H> {
    open spec fn config_of(v: ListWidgetView<H>) -> WidgetConfigView {
        v.config
    }

    open spec fn callbacks_of(v: ListWidgetView<H>) -> CallbackRegistry<H> {
        v.callbacks
    }

    open spec fn with_config(v: ListWidgetView<H>, c: WidgetConfigView) -> ListWidgetView<H> {
        ListWidgetView { config: c, ..v }
    }

    open spec fn with_callbacks(v: ListWidgetView<H>, r: CallbackRegistry<H>) -> ListWidgetView<H> {
        ListWidgetView { callbacks: r, ..v }
    }

    open spec fn config_changed(v: ListWidgetView<H>, k: u8, value: ConfigValue) -> ListWidgetView<H> {
        v
    }

    fn config(&self) -> (c: &WidgetConfig) {
        &self.config
    }

    fn get_config(&mut self) -> (c: &mut WidgetConfig) {
        &mut self.config
    }

    fn callbacks(&self) -> (r: &CallbackRegistry<H>) {
        &self.callback_registry
    }

    fn get_callbacks(&mut self) -> (r: &mut CallbackRegistry<H>) {
        &mut self.callback_registry
    }

    fn on_config_changed(&mut self, k: u8, v: Config) {
    }
}

/// The height of a row of a list.
pub const ROW_HEIGHT: i32 = 30;

/// `a` by `b`, rounded towards zero.
pub open spec fn quotient(a: int, b: int) -> int {
    if a >= 0 {
        a / b
    } else {
        -((-a) / b)
    }
}

impl<H> ListWidgetView<H> {
    /// The row that a pointer at the height `y` on the screen is over: the rows
    /// are 30 high and begin at the upper edge of the list. Below the last row it
    /// is -1, for no row.
    pub open spec fn row_at(self, y: i32) -> i32 {
        let row = quotient(y - self.config.origin().1, ROW_HEIGHT as int);
        if row >= self.list_items.len() {
            -1i32
        } else {
            row as i32
        }
    }

    /// The selection callback with `item`, where a handler is in its slot.
    pub open spec fn selected_fired(self, item: i32) -> Seq<Callback> {
        if self.on_selected is Some {
            seq![Callback::Selected { item }]
        } else {
            Seq::<Callback>::empty()
        }
    }

    /// The pointer comes into the bounds.
    pub open spec fn mouse_entered(self) -> (ListWidgetView<H>, Seq<Callback>) {
        (ListWidgetView { in_bounds: true, ..self }, Seq::<Callback>::empty())
    }

    /// The pointer leaves the bounds: no row is highlighted any more.
    pub open spec fn mouse_exited(self) -> (ListWidgetView<H>, Seq<Callback>) {
        (
            ListWidgetView {
                in_bounds: false,
                highlighted_item: -1i32,
                config: self.config.invalidate(),
                ..self
            },
            Seq::<Callback>::empty(),
        )
    }

    /// The pointer moves to `(x, y)`. Inside the bounds the row under the pointer
    /// is highlighted; a change of the highlighted row asks for a redraw.
    pub open spec fn mouse_moved(self, x: i32, y: i32) -> (ListWidgetView<H>, Seq<Callback>) {
        if !self.in_bounds {
            (self, Seq::<Callback>::empty())
        } else if self.row_at(y) != self.highlighted_item {
            (
                ListWidgetView {
                    highlighted_item: self.row_at(y),
                    config: self.config.invalidate(),
                    ..self
                },
                Seq::<Callback>::empty(),
            )
        } else {
            (self, Seq::<Callback>::empty())
        }
    }

    /// A mouse button goes down (`state`) or up. A press of the left button
    /// selects the highlighted row and asks for a redraw, and the selection
    /// callback is due.
    pub open spec fn button_clicked(self, button: u8, clicks: u8, state: bool) -> (
        ListWidgetView<H>,
        Seq<Callback>,
    ) {
        if button == 1 && state {
            (
                ListWidgetView {
                    selected_item: self.highlighted_item,
                    config: self.config.invalidate(),
                    ..self
                },
                self.selected_fired(self.highlighted_item),
            )
        } else {
            (self, Seq::<Callback>::empty())
        }
    }
}

impl<H> ListWidget<H> {
    /// An empty list at `points` of size `size`.
    pub fn new(points: Points, size: Size) -> (w: ListWidget<H>)
        ensures
            w@ == (ListWidgetView {
                config: WidgetConfigView::initial(points[0], points[1], size[0], size[1]),
                callbacks: CallbackRegistry::<H>::empty(),
                list_items: Seq::<Seq<char>>::empty(),
                highlighted_item: -1i32,
                selected_item: -1i32,
                in_bounds: false,
                on_selected: None,
            }),
    {
        let w = ListWidget {
            config: WidgetConfig::new(points[0], points[1], size[0], size[1]),
            callback_registry: CallbackRegistry::new(),
            list_items: Vec::new(),
            highlighted_item: -1,
            selected_item: -1,
            in_bounds: false,
            on_selected: None,
        };
        assert(w@.list_items =~= Seq::<Seq<char>>::empty());
        w
    }

    /// Adds `item` as the last row. Gives the number of rows.
    pub fn add_item(&mut self, item: String) -> (count: usize)
        ensures
            final(self)@ == (ListWidgetView {
                list_items: old(self)@.list_items.push(item@),
                ..old(self)@
            }),
            count == old(self)@.list_items.len() + 1,
    {
        self.list_items.push(item);
        assert(self@.list_items =~= old(self)@.list_items.push(item@));
        self.list_items.len()
    }

    /// Sets the handler that runs when a row is selected.
    pub fn on_selected(&mut self, callback: H)
        ensures
            final(self)@ == (ListWidgetView { on_selected: Some(callback), ..old(self)@ }),
    {
        self.on_selected = Some(callback);
    }

    /// Takes the selection handler out of its slot, to run it.
    pub fn take_on_selected(&mut self) -> (handler: Option<H>)
        ensures
            handler == old(self)@.on_selected,
            final(self)@ == (ListWidgetView { on_selected: None, ..old(self)@ }),
    {
        self.on_selected.take()
    }

    /// The number of rows.
    pub fn item_count(&self) -> (n: usize)
        ensures
            n == self@.list_items.len(),
    {
        self.list_items.len()
    }

    /// The text of row `i`.
    pub fn get_item(&self, i: usize) -> (t: String)
        requires
            i < self@.list_items.len(),
        ensures
            t@ == self@.list_items[i as int],
    {
        self.list_items[i].clone()
    }

    /// The highlighted row, or -1.
    pub fn get_highlighted_item(&self) -> (i: i32)
        ensures
            i == self@.highlighted_item,
    {
        self.highlighted_item
    }

    /// The selected row, or -1.
    pub fn get_selected_item(&self) -> (i: i32)
        ensures
            i == self@.selected_item,
    {
        self.selected_item
    }

    /// The pointer comes into the bounds.
    pub fn mouse_entered(&mut self) -> (fired: Vec<Callback>)
        ensures
            (final(self)@, fired@) == old(self)@.mouse_entered(),
    {
        self.in_bounds = true;
        Vec::new()
    }

    /// The pointer leaves the bounds.
    pub fn mouse_exited(&mut self) -> (fired: Vec<Callback>)
        ensures
            (final(self)@, fired@) == old(self)@.mouse_exited(),
    {
        self.in_bounds = false;
        self.highlighted_item = -1;
        self.config.set_invalidated(true);
        Vec::new()
    }

    /// The pointer moves to `points` on the screen.
    pub fn mouse_moved(&mut self, points: Points) -> (fired: Vec<Callback>)
        ensures
            (final(self)@, fired@) == old(self)@.mouse_moved(points[0], points[1]),
    {
        if self.in_bounds {
            let position_y: i64 = points[1] as i64 - self.config.get_point(CONFIG_ORIGIN)[1] as i64;
            let previous_highlighted_item = self.highlighted_item;
            let row: i64 = position_y / (ROW_HEIGHT as i64);
            if row >= 0 && row as u64 >= self.list_items.len() as u64 {
                self.highlighted_item = -1;
            } else {
                self.highlighted_item = row as i32;
            }
            if self.highlighted_item != previous_highlighted_item {
                self.config.set_invalidated(true);
            }
        }
        Vec::new()
    }

    /// A mouse button goes down (`state`) or up.
    pub fn button_clicked(&mut self, button: u8, clicks: u8, state: bool) -> (fired: Vec<Callback>)
        ensures
            (final(self)@, fired@) == old(self)@.button_clicked(button, clicks, state),
    {
        let mut fired: Vec<Callback> = Vec::new();
        if button == 1 && state {
            self.selected_item = self.highlighted_item;
            self.config.set_invalidated(true);
            if self.on_selected.is_some() {
                fired.push(Callback::Selected { item: self.selected_item });
            }
        }
        fired
    }
}

impl<H> ListWidgetView<H> {
    /// The color of the body of row `i`: black for the selected row, else the
    /// color under `CONFIG_COLOR_HOVER` for the highlighted row, else white.
    pub open spec fn row_color(self, i: int) -> Color {
        if self.selected_item == i {
            Color::black()
        } else if self.highlighted_item == i {
            self.config.color(CONFIG_COLOR_HOVER)
        } else {
            Color::white()
        }
    }

    /// The color of the text of row `i`: white for the selected row, else black.
    pub open spec fn row_text_color(self, i: int) -> Color {
        if self.selected_item == i {
            Color::white()
        } else {
            Color::black()
        }
    }

    /// The body of row `i`: 30 high, as wide as the list.
    pub open spec fn row_area(self, i: int) -> Rect {
        Rect {
            x: self.config.origin().0,
            y: moved(self.config.origin().1, 30 * i),
            w: self.config.extent().0,
            h: 30,
        }
    }

    /// The text of row `i`: 10 to the right and 3 below the corner of the row.
    pub open spec fn row_text(self, i: int) -> DrawCommandView {
        DrawCommandView::Text {
            area: Rect {
                x: moved(self.config.origin().0, 10),
                y: moved(self.config.origin().1, 30 * i + 3),
                w: self.config.extent().0,
                h: 30,
            },
            wrap_width: self.config.extent().0,
            font_name: "assets/OpenSans-Regular.ttf"@,
            font_style: FontStyle::normal(),
            font_size: 16,
            justification: TextJustify::Left,
            color: self.row_text_color(i),
            msg: self.list_items[i],
        }
    }

    /// The steps of painting the first `n` rows: for each its body, then its text.
    pub open spec fn rows(self, n: nat) -> Seq<DrawCommandView>
        decreases n,
    {
        if n == 0 {
            Seq::<DrawCommandView>::empty()
        } else {
            self.rows((n - 1) as nat).push(
                DrawCommandView::Fill { area: self.row_area(n - 1), color: self.row_color(n - 1) },
            ).push(self.row_text(n - 1))
        }
    }

    /// The steps of painting the widget: its body, its rows from the first to the
    /// last, and its outline in the color of the border.
    pub open spec fn drawn(self) -> Seq<DrawCommandView> {
        seq![
            DrawCommandView::Fill {
                area: self.config.area(),
                color: self.config.color(CONFIG_COLOR_BASE),
            },
        ] + self.rows(self.list_items.len()) + seq![
            DrawCommandView::Outline {
                area: self.config.area(),
                color: self.config.color(CONFIG_COLOR_BORDER),
            },
        ]
    }
}

impl<H> ListWidget<H> {
    /// The steps of painting the widget.
    pub fn draw(&self) -> (commands: Vec<DrawCommand>)
        ensures
            steps(commands@) == self@.drawn(),
    {
        let area = self.config.area();
        let hover_color = self.config.get_color(CONFIG_COLOR_HOVER);
        let mut commands: Vec<DrawCommand> = Vec::new();
        add_step(
            &mut commands,
            DrawCommand::Fill { area, color: self.config.get_color(CONFIG_COLOR_BASE) },
        );
        let ghost filled = steps(commands@);
        let mut i: usize = 0;
        assert(steps(commands@) =~= filled + self@.rows(0));
        while i < self.list_items.len()
            invariant
                i <= self.list_items.len(),
                area == self@.config.area(),
                hover_color == self@.config.color(CONFIG_COLOR_HOVER),
                steps(commands@) == filled + self@.rows(i as nat),
            decreases self.list_items.len() - i,
        {
            let selected = self.selected_item >= 0 && self.selected_item as usize == i;
            let highlighted = self.highlighted_item >= 0 && self.highlighted_item as usize == i;
            let color = if selected {
                Color::RGB(0, 0, 0)
            } else if highlighted {
                hover_color
            } else {
                Color::RGB(255, 255, 255)
            };
            let text_color = if selected {
                Color::RGB(255, 255, 255)
            } else {
                Color::RGB(0, 0, 0)
            };
            let top: i64 = if i < 0x1000_0000 {
                30 * (i as i64)
            } else {
                0x1_0000_0000
            };
            proof {
                assert(moved(area.y, 30 * i as int) == moved(area.y, top as int));
                assert(moved(area.y, 30 * i as int + 3) == moved(area.y, top as int + 3));
            }
            add_step(
                &mut commands,
                DrawCommand::Fill {
                    area: Rect { x: area.x, y: move_by(area.y, top), w: area.w, h: 30 },
                    color,
                },
            );
            add_step(
                &mut commands,
                DrawCommand::Text {
                    area: Rect {
                        x: move_by(area.x, 10),
                        y: move_by(area.y, top + 3),
                        w: area.w,
                        h: 30,
                    },
                    wrap_width: area.w,
                    font_name: "assets/OpenSans-Regular.ttf".to_owned(),
                    font_style: FontStyle::normal(),
                    font_size: 16,
                    justification: TextJustify::Left,
                    color: text_color,
                    msg: self.list_items[i].clone(),
                },
            );
            i = i + 1;
            assert(steps(commands@) =~= filled + self@.rows(i as nat));
        }
        add_step(
            &mut commands,
            DrawCommand::Outline { area, color: self.config.get_color(CONFIG_COLOR_BORDER) },
        );
        assert(steps(commands@) =~= self@.drawn());
        commands
    }
}

} // verus!
