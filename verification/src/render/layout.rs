use crate::render::widget_cache::{WidgetCache, WidgetContainerView};
use crate::render::widget_config::PaddingConstraint;
use vstd::prelude::*;

verus! {

/// The place of a widget in the grid of its layout: column `x` and row `y`. These
/// count cells of the layout, not pixels of the screen.
#[derive(Clone, Copy, Debug, PartialEq, Eq, Structural)]
pub struct LayoutPosition {
    pub x: i32,
    pub y: i32,
}

impl LayoutPosition {
    /// The position in column `x` and row `y`.
    pub fn new(x: i32, y: i32) -> (p: LayoutPosition)
        ensures
            p == (LayoutPosition { x, y }),
    {
        LayoutPosition { x, y }
    }
}

/// Whether every id in `ids` is the id of one of `n` widgets.
pub open spec fn ids_below(ids: Seq<i32>, n: nat) -> bool {
    forall|i: int| 0 <= i < ids.len() ==> 0 <= #[trigger] ids[i] < n
}

/// Whether every id in `ids` is the id of one of `count` widgets.
pub fn ids_fit(ids: &Vec<i32>, count: usize) -> (b: bool)
    ensures
        b == ids_below(ids@, count as nat),
{
    let mut i: usize = 0;
    while i < ids.len()
        invariant
            i <= ids.len(),
            forall|j: int| 0 <= j < i ==> 0 <= #[trigger] ids@[j] < count,
        decreases ids.len() - i,
    {
        if ids[i] < 0 || ids[i] as usize >= count {
            return false;
        }
        i = i + 1;
    }
    true
}

/// Whether `after` holds the widgets of `before` under the same names and ids, and
/// differs from it at most in the widgets whose ids are in `ids`.
pub open spec fn touches_only<H>(
    before: Seq<WidgetContainerView<H>>,
    after: Seq<WidgetContainerView<H>>,
    ids: Seq<i32>,
) -> bool {
    &&& after.len() == before.len()
    &&& forall|j: int|
        0 <= j < before.len() ==> (#[trigger] after[j]).id == before[j].id && after[j].name
            == before[j].name
    &&& forall|j: int|
        0 <= j < before.len() && !ids.contains(j as i32) ==> #[trigger] after[j] == before[j]
}

/// `value`, or the nearest end of the 32-bit range where it lies outside.
pub open spec fn clamped(value: int) -> i32 {
    if value < i32::MIN {
        i32::MIN
    } else if value > i32::MAX {
        i32::MAX
    } else {
        value as i32
    }
}

/// `value`, or the nearest end of the 32-bit range where it lies outside.
pub fn clamp_i32(value: i64) -> (r: i32)
    ensures
        r == clamped(value as int),
{
    if value < i32::MIN as i64 {
        i32::MIN
    } else if value > i32::MAX as i64 {
        i32::MAX
    } else {
        value as i32
    }
}

/// `a - b`, or 0 where `b` is the larger.
pub open spec fn minus(a: int, b: int) -> int {
    if a >= b {
        a - b
    } else {
        0
    }
}

/// A padding value as a layout reads it: a negative value counts as 0.
pub open spec fn inset(value: i32) -> int {
    if value < 0 {
        0
    } else {
        value as int
    }
}

/// A padding value as a layout reads it: a negative value counts as 0.
pub fn pad(value: i32) -> (r: u64)
    ensures
        r == inset(value),
{
    if value < 0 {
        0
    } else {
        value as u64
    }
}

/// A layout manager: it is bound to widgets by their ids, and arranges them in its
/// bounds when asked to.
///
/// A layout that is bound to fewer than 2 widgets moves nothing.
pub trait Layout<H> {
    /// The ids of the widgets the layout is bound to, in the order of binding.
    spec fn widget_ids(&self) -> Seq<i32>;

    /// The grid position that each widget was bound with.
    spec fn widget_positions(&self) -> Seq<LayoutPosition>;

    /// The padding of the layout.
    spec fn padding(&self) -> PaddingConstraint;

    /// Whether the layout has to be computed again.
    spec fn dirty(&self) -> bool;

    /// The widgets as the layout arranges them.
    spec fn arranged(&self, widgets: Seq<WidgetContainerView<H>>) -> Seq<WidgetContainerView<H>>;

    /// Binds the widget `widget_id` to the layout, at `widget_position` of its
    /// grid. The layout has to be computed again.
    fn add_widget(&mut self, widget_id: i32, widget_position: LayoutPosition)
        ensures
            final(self).widget_ids() == old(self).widget_ids().push(widget_id),
            final(self).widget_positions() == old(self).widget_positions().push(widget_position),
            final(self).padding() == old(self).padding(),
            final(self).dirty(),
    ;

    /// Changes the padding. The layout has to be computed again.
    fn set_padding(&mut self, padding: PaddingConstraint)
        ensures
            final(self).padding() == padding,
            final(self).widget_ids() == old(self).widget_ids(),
            final(self).widget_positions() == old(self).widget_positions(),
            final(self).dirty(),
    ;

    /// The padding.
    fn get_padding(&self) -> (p: PaddingConstraint)
        ensures
            p == self.padding(),
    ;

    /// Arranges the bound widgets. Afterwards the layout is computed.
    fn do_layout(&mut self, widgets: &mut WidgetCache<H>)
        requires
            ids_below(old(self).widget_ids(), old(widgets)@.len()),
        ensures
            final(widgets)@ == old(self).arranged(old(widgets)@),
            touches_only(old(widgets)@, final(widgets)@, old(self).widget_ids()),
            old(self).widget_ids().len() < 2 ==> final(widgets)@ == old(widgets)@,
            final(self).widget_ids() == old(self).widget_ids(),
            final(self).widget_positions() == old(self).widget_positions(),
            final(self).padding() == old(self).padding(),
            !final(self).dirty(),
    ;

    /// Whether the layout has to be computed again: a widget was bound or the
    /// padding changed since it was computed last.
    fn needs_layout(&self) -> (b: bool)
        ensures
            b == self.dirty(),
    ;

    /// Whether every widget the layout is bound to is one of `count` widgets.
    fn fits(&self, count: usize) -> (b: bool)
        ensures
            b == ids_below(self.widget_ids(), count as nat),
    ;
}

} // verus!
