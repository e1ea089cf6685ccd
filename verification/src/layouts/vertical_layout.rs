use crate::render::{Points, Size};
use crate::render::layout::{
    clamp_i32, clamped, ids_below, ids_fit, inset, Layout, LayoutPosition, minus, pad, touches_only,
};
use crate::render::widget_cache::{placed, WidgetCache, WidgetContainerView};
use crate::render::widget_config::PaddingConstraint;
use vstd::prelude::*;

verus! {

/// The upper edge of slot `i` of `n`, counted from the upper edge of a layout
/// `height` high with `spacing` between neighbours and the inset `top` at its upper
/// edge: the first slot starts below the inset, every other slot half the spacing
/// (rounded down) into its `n`-th of the height.
pub open spec fn slot_y(height: int, n: int, spacing: int, top: int, i: int) -> int {
    if i == 0 {
        top
    } else {
        i * (height / n) + spacing / 2
    }
}

/// The height of slot `i` of `n` in a layout `height` high with `spacing` between
/// neighbours and the insets `top` and `bottom`: an `n`-th of the height, less
/// half the spacing at each side where a neighbour is, and less the inset at each
/// side where the edge of the layout is. The upper side gives up the half rounded
/// down, the lower side the half rounded up. A slot that has less than it gives up
/// is 0 high.
pub open spec fn slot_height(height: int, n: int, spacing: int, top: int, bottom: int, i: int)
    -> int {
    let share = height / n;
    let upper = spacing / 2;
    let lower = spacing - spacing / 2;
    if i == 0 {
        minus(minus(share, lower), top)
    } else if i == n - 1 {
        minus(minus(share, upper), bottom)
    } else {
        minus(minus(share, upper), lower)
    }
}

/// A vertical layout as a mathematical value.
pub struct VerticalLayoutView {
    pub widget_ids: Seq<i32>,
    pub widget_positions: Seq<LayoutPosition>,
    pub origin: (i32, i32),
    pub size: (u32, u32),
    pub padding: PaddingConstraint,
    pub invalidated: bool,
}

impl VerticalLayoutView {
    /// The grid position that `append_widget` binds the next widget with.
    pub open spec fn next_position(self) -> LayoutPosition {
        if self.widget_positions.len() == 0 {
            LayoutPosition { x: 0, y: 0 }
        } else {
            LayoutPosition { x: (self.widget_positions.last().x + 1) as i32, y: 0 }
        }
    }

    /// The spacing as the layout reads it.
    pub open spec fn spacing(self) -> int {
        inset(self.padding.spacing)
    }

    /// The Y coordinate on the screen of the widget bound `i`-th.
    pub open spec fn y_of(self, i: int) -> i32 {
        clamped(
            self.origin.1 + slot_y(
                self.size.1 as int,
                self.widget_ids.len() as int,
                self.spacing(),
                inset(self.padding.top),
                i,
            ),
        )
    }

    /// The height of the widget bound `i`-th.
    pub open spec fn height_of(self, i: int) -> u32 {
        slot_height(
            self.size.1 as int,
            self.widget_ids.len() as int,
            self.spacing(),
            inset(self.padding.top),
            inset(self.padding.bottom),
            i,
        ) as u32
    }

    /// The X coordinate on the screen of every bound widget: the left edge of the
    /// layout, moved in by the left inset.
    pub open spec fn x_of_all(self) -> i32 {
        clamped(self.origin.0 + inset(self.padding.left))
    }

    /// The width of every bound widget: the width of the layout less the insets at
    /// the right and at the left.
    pub open spec fn width_of_all(self) -> u32 {
        minus(minus(self.size.0 as int, inset(self.padding.right)), inset(self.padding.left)) as u32
    }

    /// The widgets after the first `n` bound widgets were put into their slots, in
    /// the order of binding: each between the insets at the left and at the right,
    /// and due for a redraw.
    pub open spec fn arranged_first<H>(self, widgets: Seq<WidgetContainerView<H>>, n: nat) -> Seq<
        WidgetContainerView<H>,
    >
        decreases n,
    {
        if n == 0 {
            widgets
        } else {
            let before = self.arranged_first(widgets, (n - 1) as nat);
            let id = self.widget_ids[n - 1] as int;
            before.update(
                id,
                placed(
                    before[id],
                    self.x_of_all(),
                    self.y_of(n - 1),
                    self.width_of_all(),
                    self.height_of(n - 1),
                ),
            )
        }
    }

    /// The widgets as the layout arranges them: untouched where fewer than 2 are
    /// bound, else each bound widget in its slot.
    pub open spec fn arranged<H>(self, widgets: Seq<WidgetContainerView<H>>) -> Seq<
        WidgetContainerView<H>,
    > {
        if self.widget_ids.len() < 2 {
            widgets
        } else {
            self.arranged_first(widgets, self.widget_ids.len())
        }
    }
}

/// A layout that puts its widgets one below the other, each in an equal share of
/// the layout's height and as wide as the layout, less the insets of the padding.
pub struct VerticalLayout {
    widget_ids: Vec<i32>,
    widget_positions: Vec<LayoutPosition>,
    origin: Points,
    size: Size,
    padding: PaddingConstraint,
    invalidated: bool,
}

impl View for VerticalLayout {
    type V = VerticalLayoutView;

    closed spec fn view(&self) -> VerticalLayoutView {
        VerticalLayoutView {
            widget_ids: self.widget_ids@,
            widget_positions: self.widget_positions@,
            origin: (self.origin[0], self.origin[1]),
            size: (self.size[0], self.size[1]),
            padding: self.padding,
            invalidated: self.invalidated,
        }
    }
}

impl VerticalLayout {
    /// A layout at `(x, y)` of size `w` by `h` with the padding `padding`, bound to
    /// no widget and with nothing to compute.
    pub fn new(x: i32, y: i32, w: u32, h: u32, padding: PaddingConstraint) -> (l: VerticalLayout)
        ensures
            l@ == (VerticalLayoutView {
                widget_ids: Seq::<i32>::empty(),
                widget_positions: Seq::<LayoutPosition>::empty(),
                origin: (x, y),
                size: (w, h),
                padding,
                invalidated: false,
            }),
    {
        VerticalLayout {
            widget_ids: Vec::new(),
            widget_positions: Vec::new(),
            origin: [x, y],
            size: [w, h],
            padding,
            invalidated: false,
        }
    }

    /// Binds the widget `widget_id` to the layout at `widget_position`, as
    /// `add_widget` does.
    pub fn insert_widget(&mut self, widget_id: i32, widget_position: LayoutPosition)
        ensures
            final(self)@ == (VerticalLayoutView {
                widget_ids: old(self)@.widget_ids.push(widget_id),
                widget_positions: old(self)@.widget_positions.push(widget_position),
                invalidated: true,
                ..old(self)@
            }),
    {
        self.add_widget(widget_id, widget_position);
    }

    /// Binds the widget `widget_id` to the layout in the cell after the one bound
    /// last: at column 0 where it is the first, else one column further.
    pub fn append_widget(&mut self, widget_id: i32)
        requires
            old(self)@.widget_positions.len() > 0 ==> old(self)@.widget_positions.last().x
                < i32::MAX,
        ensures
            final(self)@ == (VerticalLayoutView {
                widget_ids: old(self)@.widget_ids.push(widget_id),
                widget_positions: old(self)@.widget_positions.push(old(self)@.next_position()),
                invalidated: true,
                ..old(self)@
            }),
    {
        let positions = self.widget_positions.len();
        let widget_position = if positions == 0 {
            LayoutPosition::new(0, 0)
        } else {
            LayoutPosition::new(self.widget_positions[positions - 1].x + 1, 0)
        };
        self.insert_widget(widget_id, widget_position);
    }

    /// Binds the widget `widget_id` to the layout, at `widget_position` of its
    /// grid. The layout has to be computed again.
    pub fn add_widget(&mut self, widget_id: i32, widget_position: LayoutPosition)
        ensures
            final(self)@ == (VerticalLayoutView {
                widget_ids: old(self)@.widget_ids.push(widget_id),
                widget_positions: old(self)@.widget_positions.push(widget_position),
                invalidated: true,
                ..old(self)@
            }),
    {
        self.widget_ids.push(widget_id);
        self.widget_positions.push(widget_position);
        self.invalidated = true;
    }

    /// Changes the padding. The layout has to be computed again.
    pub fn set_padding(&mut self, padding: PaddingConstraint)
        ensures
            final(self)@ == (VerticalLayoutView { padding, invalidated: true, ..old(self)@ }),
    {
        self.padding = padding;
        self.invalidated = true;
    }

    /// The padding.
    pub fn get_padding(&self) -> (p: PaddingConstraint)
        ensures
            p == self@.padding,
    {
        self.padding
    }

    /// Whether the layout has to be computed again.
    pub fn needs_layout(&self) -> (b: bool)
        ensures
            b == self@.invalidated,
    {
        self.invalidated
    }

    /// The number of widgets the layout is bound to.
    pub fn widget_count(&self) -> (n: usize)
        ensures
            n == self@.widget_ids.len(),
    {
        self.widget_ids.len()
    }

    /// Whether every widget the layout is bound to is one of `count` widgets.
    pub fn fits(&self, count: usize) -> (b: bool)
        ensures
            b == ids_below(self@.widget_ids, count as nat),
    {
        ids_fit(&self.widget_ids, count)
    }
}

/// Putting the first `n` bound widgets into their slots keeps the number of
/// widgets, their names and ids, and every widget the layout is not bound to.
pub proof fn lemma_arranged_first<H>(
    layout: VerticalLayoutView,
    widgets: Seq<WidgetContainerView<H>>,
    n: nat,
)
    requires
        n <= layout.widget_ids.len(),
        ids_below(layout.widget_ids, widgets.len()),
    ensures
        touches_only(widgets, layout.arranged_first(widgets, n), layout.widget_ids),
    decreases n,
{
    if n > 0 {
        lemma_arranged_first(layout, widgets, (n - 1) as nat);
        let before = layout.arranged_first(widgets, (n - 1) as nat);
        let after = layout.arranged_first(widgets, n);
        let id = layout.widget_ids[n - 1];
        assert(layout.widget_ids.contains(id));
        assert forall|j: int| 0 <= j < widgets.len() && !layout.widget_ids.contains(
            j as i32,
        ) implies #[trigger] after[j] == widgets[j] by {
            assert(j != id);
        }
    }
}

/// Where no widget is bound twice, putting the first `n` bound widgets into their
/// slots leaves the widget bound `i`-th in its slot if `i` is among them, and as
/// it was if not.
proof fn lemma_arranged_first_at<H>(
    layout: VerticalLayoutView,
    widgets: Seq<WidgetContainerView<H>>,
    n: nat,
    i: int,
)
    requires
        n <= layout.widget_ids.len(),
        ids_below(layout.widget_ids, widgets.len()),
        layout.widget_ids.no_duplicates(),
        0 <= i < layout.widget_ids.len(),
    ensures
        layout.arranged_first(widgets, n).len() == widgets.len(),
        layout.arranged_first(widgets, n)[layout.widget_ids[i] as int] == if i < n {
            placed(
                widgets[layout.widget_ids[i] as int],
                layout.x_of_all(),
                layout.y_of(i),
                layout.width_of_all(),
                layout.height_of(i),
            )
        } else {
            widgets[layout.widget_ids[i] as int]
        },
    decreases n,
{
    if n > 0 {
        lemma_arranged_first_at(layout, widgets, (n - 1) as nat, i);
        if i < n - 1 {
            assert(layout.widget_ids[i] != layout.widget_ids[n - 1]);
        } else if i > n - 1 {
            assert(layout.widget_ids[i] != layout.widget_ids[n - 1]);
        }
    }
}

/// Where the layout is bound to at least 2 widgets and to none twice, each bound
/// widget ends up in its slot: the widget bound `i`-th is placed as the `i`-th slot
/// says, whatever it was before.
pub proof fn lemma_arranged_at<H>(layout: VerticalLayoutView, widgets: Seq<WidgetContainerView<H>>, i: int)
    requires
        layout.widget_ids.len() >= 2,
        ids_below(layout.widget_ids, widgets.len()),
        layout.widget_ids.no_duplicates(),
        0 <= i < layout.widget_ids.len(),
    ensures
        layout.arranged(widgets)[layout.widget_ids[i] as int] == placed(
                widgets[layout.widget_ids[i] as int],
                layout.x_of_all(),
                layout.y_of(i),
                layout.width_of_all(),
                layout.height_of(i),
            ),
{
    lemma_arranged_first_at(layout, widgets, layout.widget_ids.len(), i);
}

impl<H> Layout<H> for VerticalLayout {
    open spec fn widget_ids(&self) -> Seq<i32> {
        self@.widget_ids
    }

    open spec fn widget_positions(&self) -> Seq<LayoutPosition> {
        self@.widget_positions
    }

    open spec fn padding(&self) -> PaddingConstraint {
        self@.padding
    }

    open spec fn dirty(&self) -> bool {
        self@.invalidated
    }

    open spec fn arranged(&self, widgets: Seq<WidgetContainerView<H>>) -> Seq<
        WidgetContainerView<H>,
    > {
        self@.arranged(widgets)
    }

    fn add_widget(&mut self, widget_id: i32, widget_position: LayoutPosition) {
        VerticalLayout::add_widget(self, widget_id, widget_position);
    }

    fn set_padding(&mut self, padding: PaddingConstraint) {
        VerticalLayout::set_padding(self, padding);
    }

    fn get_padding(&self) -> (p: PaddingConstraint) {
        VerticalLayout::get_padding(self)
    }

    fn do_layout(&mut self, widgets: &mut WidgetCache<H>)
        ensures
            final(self)@ == (VerticalLayoutView { invalidated: false, ..old(self)@ }),
    {
        let n = self.widget_ids.len();
        if n <= 1 {
            self.invalidated = false;
            return ;
        }
        let offset_x: i64 = self.origin[0] as i64;
        let offset_y: i64 = self.origin[1] as i64;
        let width: u64 = self.size[0] as u64;
        let height: u64 = self.size[1] as u64;
        let widget_height: u64 = height / (n as u64);
        let spacing: u64 = pad(self.padding.spacing);
        let top: u64 = pad(self.padding.top);
        let bottom: u64 = pad(self.padding.bottom);
        let left: u64 = pad(self.padding.left);
        let right: u64 = pad(self.padding.right);
        let subtractor_top: u64 = spacing / 2;
        let subtractor_bottom: u64 = spacing - subtractor_top;
        let set_x: i32 = clamp_i32(offset_x + left as i64);
        let set_width: u32 = width.saturating_sub(right).saturating_sub(left) as u32;
        let mut i: usize = 0;
        while i < n
            invariant
                i <= n,
                n == self.widget_ids.len(),
                n >= 2,
                self@ == old(self)@,
                ids_below(self@.widget_ids, old(widgets)@.len()),
                widgets@.len() == old(widgets)@.len(),
                widgets@ == self@.arranged_first(old(widgets)@, i as nat),
                offset_y == self@.origin.1,
                height == self@.size.1,
                widget_height == height / (n as u64),
                spacing == self@.spacing(),
                top == inset(self@.padding.top),
                bottom == inset(self@.padding.bottom),
                subtractor_top == spacing / 2,
                subtractor_bottom == spacing - spacing / 2,
                set_x == self@.x_of_all(),
                set_width == self@.width_of_all(),
            decreases n - i,
        {
            let set_y: i64;
            let set_height: u64;
            assert(i * (height / (n as u64)) <= height) by (nonlinear_arith)
                requires
                    i < n,
            ;
            if i == 0 {
                set_y = top as i64;
                set_height = widget_height.saturating_sub(subtractor_bottom).saturating_sub(top);
            } else if i == n - 1 {
                set_y = ((i as u64) * widget_height) as i64 + subtractor_top as i64;
                set_height = widget_height.saturating_sub(subtractor_top).saturating_sub(bottom);
            } else {
                set_y = ((i as u64) * widget_height) as i64 + subtractor_top as i64;
                set_height = widget_height.saturating_sub(subtractor_top).saturating_sub(
                    subtractor_bottom,
                );
            }
            let widget_id = self.widget_ids[i];
            proof {
                lemma_arranged_first::<H>(self@, old(widgets)@, i as nat);
            }
            widgets.place(widget_id, set_x, clamp_i32(offset_y + set_y), set_width, set_height as u32);
            i = i + 1;
        }
        proof {
            lemma_arranged_first::<H>(self@, old(widgets)@, n as nat);
        }
        self.invalidated = false;
    }

    fn needs_layout(&self) -> (b: bool) {
        VerticalLayout::needs_layout(self)
    }

    fn fits(&self, count: usize) -> (b: bool) {
        VerticalLayout::fits(self, count)
    }
}

} // verus!
