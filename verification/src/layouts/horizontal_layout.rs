use crate::render::{Points, Size};
use crate::render::layout::{
    clamp_i32, clamped, ids_below, ids_fit, inset, Layout, LayoutPosition, minus, pad, touches_only,
};
use crate::render::widget_cache::{placed, WidgetCache, WidgetContainerView};
use crate::render::widget_config::PaddingConstraint;
use vstd::prelude::*;

verus! {

/// The left edge of slot `i` of `n`, counted from the left edge of a layout
/// `width` wide with `spacing` between neighbours: the first slot starts at 0,
/// every other slot half the spacing (rounded down) into its `n`-th of the width.
pub open spec fn slot_x(width: int, n: int, spacing: int, i: int) -> int {
    if i == 0 {
        0
    } else {
        i * (width / n) + spacing / 2
    }
}

/// The width of slot `i` of `n` in a layout `width` wide with `spacing` between
/// neighbours: an `n`-th of the width, less half the spacing at each side where a
/// neighbour is. The left side gives up the half rounded down, the right side the
/// half rounded up. A slot that has less than it gives up is 0 wide.
pub open spec fn slot_width(width: int, n: int, spacing: int, i: int) -> int {
    let share = width / n;
    let left = spacing / 2;
    let right = spacing - spacing / 2;
    if i == 0 {
        minus(share, right)
    } else if i == n - 1 {
        minus(share, left)
    } else {
        minus(minus(share, left), right)
    }
}

/// The sum of the widths of the first `k` slots.
pub open spec fn slot_widths(width: int, n: int, spacing: int, k: nat) -> int
    decreases k,
{
    if k == 0 {
        0
    } else {
        slot_widths(width, n, spacing, (k - 1) as nat) + slot_width(width, n, spacing, k - 1)
    }
}

/// A horizontal layout as a mathematical value.
pub struct HorizontalLayoutView {
    pub widget_ids: Seq<i32>,
    pub widget_positions: Seq<LayoutPosition>,
    pub origin: (i32, i32),
    pub size: (u32, u32),
    pub padding: PaddingConstraint,
    pub invalidated: bool,
}

impl HorizontalLayoutView {
    /// The spacing as the layout reads it.
    pub open spec fn spacing(self) -> int {
        inset(self.padding.spacing)
    }

    /// The X coordinate on the screen of the widget bound `i`-th.
    pub open spec fn x_of(self, i: int) -> i32 {
        clamped(
            self.origin.0 + slot_x(
                self.size.0 as int,
                self.widget_ids.len() as int,
                self.spacing(),
                i,
            ),
        )
    }

    /// The width of the widget bound `i`-th.
    pub open spec fn width_of(self, i: int) -> u32 {
        slot_width(self.size.0 as int, self.widget_ids.len() as int, self.spacing(), i) as u32
    }

    /// The widgets after the first `n` bound widgets were put into their slots, in
    /// the order of binding: each at the top of the layout and as high as it, and
    /// due for a redraw.
    pub open spec fn arranged_first<H>(self, widgets: Seq<WidgetContainerView<H>>, n: nat) -> Seq<
        WidgetContainerView<H>,
    >
        decreases n,
    {
        if n == 0 {
            widgets
        } else {
            let before = self.arranged_first(widgets, (n - 1) as nat);
            let id = self.widget_ids[n - 1] as int;
            before.update(
                id,
                placed(before[id], self.x_of(n - 1), self.origin.1, self.width_of(n - 1), self.size.1),
            )
        }
    }

    /// The widgets as the layout arranges them: untouched where fewer than 2 are
    /// bound, else each bound widget in its slot.
    pub open spec fn arranged<H>(self, widgets: Seq<WidgetContainerView<H>>) -> Seq<
        WidgetContainerView<H>,
    > {
        if self.widget_ids.len() < 2 {
            widgets
        } else {
            self.arranged_first(widgets, self.widget_ids.len())
        }
    }
}

/// A layout that puts its widgets side by side, each in an equal share of the
/// layout's width and as high as the layout.
pub struct HorizontalLayout {
    widget_ids: Vec<i32>,
    widget_positions: Vec<LayoutPosition>,
    origin: Points,
    size: Size,
    padding: PaddingConstraint,
    invalidated: bool,
}

impl View for HorizontalLayout {
    type V = HorizontalLayoutView;

    closed spec fn view(&self) -> HorizontalLayoutView {
        HorizontalLayoutView {
            widget_ids: self.widget_ids@,
            widget_positions: self.widget_positions@,
            origin: (self.origin[0], self.origin[1]),
            size: (self.size[0], self.size[1]),
            padding: self.padding,
            invalidated: self.invalidated,
        }
    }
}

impl HorizontalLayout {
    /// A layout at `(x, y)` of size `w` by `h` with the padding `padding`, bound to
    /// no widget and with nothing to compute.
    pub fn new(x: i32, y: i32, w: u32, h: u32, padding: PaddingConstraint) -> (l: HorizontalLayout)
        ensures
            l@ == (HorizontalLayoutView {
                widget_ids: Seq::<i32>::empty(),
                widget_positions: Seq::<LayoutPosition>::empty(),
                origin: (x, y),
                size: (w, h),
                padding,
                invalidated: false,
            }),
    {
        HorizontalLayout {
            widget_ids: Vec::new(),
            widget_positions: Vec::new(),
            origin: [x, y],
            size: [w, h],
            padding,
            invalidated: false,
        }
    }

    /// Binds the widget `widget_id` to the layout, at `widget_position` of its
    /// grid. The layout has to be computed again.
    pub fn add_widget(&mut self, widget_id: i32, widget_position: LayoutPosition)
        ensures
            final(self)@ == (HorizontalLayoutView {
                widget_ids: old(self)@.widget_ids.push(widget_id),
                widget_positions: old(self)@.widget_positions.push(widget_position),
                invalidated: true,
                ..old(self)@
            }),
    {
        self.widget_ids.push(widget_id);
        self.widget_positions.push(widget_position);
        self.invalidated = true;
    }

    /// Changes the padding. The layout has to be computed again.
    pub fn set_padding(&mut self, padding: PaddingConstraint)
        ensures
            final(self)@ == (HorizontalLayoutView { padding, invalidated: true, ..old(self)@ }),
    {
        self.padding = padding;
        self.invalidated = true;
    }

    /// The padding.
    pub fn get_padding(&self) -> (p: PaddingConstraint)
        ensures
            p == self@.padding,
    {
        self.padding
    }

    /// Whether the layout has to be computed again.
    pub fn needs_layout(&self) -> (b: bool)
        ensures
            b == self@.invalidated,
    {
        self.invalidated
    }

    /// The number of widgets the layout is bound to.
    pub fn widget_count(&self) -> (n: usize)
        ensures
            n == self@.widget_ids.len(),
    {
        self.widget_ids.len()
    }

    /// Whether every widget the layout is bound to is one of `count` widgets.
    pub fn fits(&self, count: usize) -> (b: bool)
        ensures
            b == ids_below(self@.widget_ids, count as nat),
    {
        ids_fit(&self.widget_ids, count)
    }
}

/// Putting the first `n` bound widgets into their slots keeps the number of
/// widgets, their names and ids, and every widget the layout is not bound to.
pub proof fn lemma_arranged_first<H>(
    layout: HorizontalLayoutView,
    widgets: Seq<WidgetContainerView<H>>,
    n: nat,
)
    requires
        n <= layout.widget_ids.len(),
        ids_below(layout.widget_ids, widgets.len()),
    ensures
        touches_only(widgets, layout.arranged_first(widgets, n), layout.widget_ids),
    decreases n,
{
    if n > 0 {
        lemma_arranged_first(layout, widgets, (n - 1) as nat);
        let before = layout.arranged_first(widgets, (n - 1) as nat);
        let after = layout.arranged_first(widgets, n);
        let id = layout.widget_ids[n - 1];
        assert(layout.widget_ids.contains(id));
        assert forall|j: int| 0 <= j < widgets.len() && !layout.widget_ids.contains(
            j as i32,
        ) implies #[trigger] after[j] == widgets[j] by {
            assert(j != id);
        }
    }
}

/// Where no widget is bound twice, putting the first `n` bound widgets into their
/// slots leaves the widget bound `i`-th in its slot if `i` is among them, and as
/// it was if not.
proof fn lemma_arranged_first_at<H>(
    layout: HorizontalLayoutView,
    widgets: Seq<WidgetContainerView<H>>,
    n: nat,
    i: int,
)
    requires
        n <= layout.widget_ids.len(),
        ids_below(layout.widget_ids, widgets.len()),
        layout.widget_ids.no_duplicates(),
        0 <= i < layout.widget_ids.len(),
    ensures
        layout.arranged_first(widgets, n).len() == widgets.len(),
        layout.arranged_first(widgets, n)[layout.widget_ids[i] as int] == if i < n {
            placed(
                widgets[layout.widget_ids[i] as int],
                layout.x_of(i),
                layout.origin.1,
                layout.width_of(i),
                layout.size.1,
            )
        } else {
            widgets[layout.widget_ids[i] as int]
        },
    decreases n,
{
    if n > 0 {
        lemma_arranged_first_at(layout, widgets, (n - 1) as nat, i);
        if i < n - 1 {
            assert(layout.widget_ids[i] != layout.widget_ids[n - 1]);
        } else if i > n - 1 {
            assert(layout.widget_ids[i] != layout.widget_ids[n - 1]);
        }
    }
}

/// Where the layout is bound to at least 2 widgets and to none twice, each bound
/// widget ends up in its slot: the widget bound `i`-th is placed as the `i`-th slot
/// says, whatever it was before.
pub proof fn lemma_arranged_at<H>(layout: HorizontalLayoutView, widgets: Seq<WidgetContainerView<H>>, i: int)
    requires
        layout.widget_ids.len() >= 2,
        ids_below(layout.widget_ids, widgets.len()),
        layout.widget_ids.no_duplicates(),
        0 <= i < layout.widget_ids.len(),
    ensures
        layout.arranged(widgets)[layout.widget_ids[i] as int] == placed(
                widgets[layout.widget_ids[i] as int],
                layout.x_of(i),
                layout.origin.1,
                layout.width_of(i),
                layout.size.1,
            ),
{
    lemma_arranged_first_at(layout, widgets, layout.widget_ids.len(), i);
}

impl<H> Layout<H> for HorizontalLayout {
    open spec fn widget_ids(&self) -> Seq<i32> {
        self@.widget_ids
    }

    open spec fn widget_positions(&self) -> Seq<LayoutPosition> {
        self@.widget_positions
    }

    open spec fn padding(&self) -> PaddingConstraint {
        self@.padding
    }

    open spec fn dirty(&self) -> bool {
        self@.invalidated
    }

    open spec fn arranged(&self, widgets: Seq<WidgetContainerView<H>>) -> Seq<
        WidgetContainerView<H>,
    > {
        self@.arranged(widgets)
    }

    fn add_widget(&mut self, widget_id: i32, widget_position: LayoutPosition) {
        HorizontalLayout::add_widget(self, widget_id, widget_position);
    }

    fn set_padding(&mut self, padding: PaddingConstraint) {
        HorizontalLayout::set_padding(self, padding);
    }

    fn get_padding(&self) -> (p: PaddingConstraint) {
        HorizontalLayout::get_padding(self)
    }

    fn do_layout(&mut self, widgets: &mut WidgetCache<H>)
        ensures
            final(self)@ == (HorizontalLayoutView { invalidated: false, ..old(self)@ }),
    {
        let n = self.widget_ids.len();
        if n <= 1 {
            self.invalidated = false;
            return ;
        }
        let offset_x: i64 = self.origin[0] as i64;
        let offset_y: i32 = self.origin[1];
        let width: u64 = self.size[0] as u64;
        let height: u32 = self.size[1];
        let widget_width: u64 = width / (n as u64);
        let spacing: u64 = pad(self.padding.spacing);
        let subtractor_left: u64 = spacing / 2;
        let subtractor_right: u64 = spacing - subtractor_left;
        let mut i: usize = 0;
        while i < n
            invariant
                i <= n,
                n == self.widget_ids.len(),
                n >= 2,
                self@ == old(self)@,
                ids_below(self@.widget_ids, old(widgets)@.len()),
                widgets@.len() == old(widgets)@.len(),
                widgets@ == self@.arranged_first(old(widgets)@, i as nat),
                offset_x == self@.origin.0,
                offset_y == self@.origin.1,
                width == self@.size.0,
                height == self@.size.1,
                widget_width == width / (n as u64),
                spacing == self@.spacing(),
                subtractor_left == spacing / 2,
                subtractor_right == spacing - spacing / 2,
            decreases n - i,
        {
            let set_x: i64;
            let set_width: u64;
            assert(i * (width / (n as u64)) <= width) by (nonlinear_arith)
                requires
                    i < n,
            ;
            if i == 0 {
                set_x = 0;
                set_width = widget_width.saturating_sub(subtractor_right);
            } else if i == n - 1 {
                set_x = ((i as u64) * widget_width) as i64 + subtractor_left as i64;
                set_width = widget_width.saturating_sub(subtractor_left);
            } else {
                set_x = ((i as u64) * widget_width) as i64 + subtractor_left as i64;
                set_width = widget_width.saturating_sub(subtractor_left).saturating_sub(
                    subtractor_right,
                );
            }
            let widget_id = self.widget_ids[i];
            proof {
                lemma_arranged_first::<H>(self@, old(widgets)@, i as nat);
            }
            widgets.place(widget_id, clamp_i32(offset_x + set_x), offset_y, set_width as u32, height);
            i = i + 1;
        }
        proof {
            lemma_arranged_first::<H>(self@, old(widgets)@, n as nat);
        }
        self.invalidated = false;
    }

    fn needs_layout(&self) -> (b: bool) {
        HorizontalLayout::needs_layout(self)
    }

    fn fits(&self, count: usize) -> (b: bool) {
        HorizontalLayout::fits(self, count)
    }
}

/// The widths of the first `k` slots, for `k` short of all: `k` shares, less the
/// spacing between each two of them and the half that the last gives to its right.
proof fn lemma_slot_widths(width: int, n: int, spacing: int, k: nat)
    requires
        n >= 2,
        0 <= spacing <= width / n,
        1 <= k < n,
    ensures
        slot_widths(width, n, spacing, k) == k * (width / n) - (k - 1) * spacing - (spacing
            - spacing / 2),
    decreases k,
{
    let share = width / n;
    if k == 1 {
        assert(slot_widths(width, n, spacing, 0) == 0);
        assert(slot_widths(width, n, spacing, 1) == slot_widths(width, n, spacing, 0) + slot_width(
            width,
            n,
            spacing,
            0,
        ));
    } else {
        lemma_slot_widths(width, n, spacing, (k - 1) as nat);
        assert(slot_width(width, n, spacing, k - 1) == share - spacing);
        assert(k * share == (k - 1) * share + share) by (nonlinear_arith);
        assert((k - 1) * spacing == (k - 2) * spacing + spacing) by (nonlinear_arith);
    }
}

/// A horizontal layout uses up its width: for `n` slots, at least 2, in a layout
/// `width` wide, with a spacing that fits into a slot, the widths of the slots and
/// the spacing between each two neighbours add up to `n` times the `n`-th of the
/// width, rounded down. That is the width itself or up to `n - 1` less, and within
/// 1 of the width where the width leaves a remainder of 0 or 1.
pub proof fn lemma_width_conservation(width: int, n: int, spacing: int)
    requires
        n >= 2,
        0 <= width,
        0 <= spacing <= width / n,
    ensures
        slot_widths(width, n, spacing, n as nat) + (n - 1) * spacing == n * (width / n),
        width - n < n * (width / n) <= width,
        width % n <= 1 ==> width - 1 <= slot_widths(width, n, spacing, n as nat) + (n - 1)
            * spacing <= width,
{
    let share = width / n;
    lemma_slot_widths(width, n, spacing, (n - 1) as nat);
    assert(slot_width(width, n, spacing, n - 1) == share - spacing / 2);
    assert(n * share == (n - 1) * share + share) by (nonlinear_arith);
    assert((n - 1) * spacing == (n - 2) * spacing + spacing) by (nonlinear_arith);
    assert(width == n * (width / n) + width % n && 0 <= width % n < n) by (nonlinear_arith)
        requires
            n >= 2,
            0 <= width,
    ;
}

} // verus!
