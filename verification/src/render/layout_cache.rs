use crate::render::layout::{ids_below, Layout};
use crate::render::widget_cache::{WidgetCache, WidgetContainerView};
use vstd::prelude::*;

verus! {

/// A layout as the cache keeps it: the layout and the id it was given.
pub struct LayoutContainer<L> {
    pub layout: L,
    pub layout_id: i32,
}

impl<L> LayoutContainer<L> {
    /// A container for `layout` under the id `layout_id`.
    pub fn new(layout: L, layout_id: i32) -> (c: LayoutContainer<L>)
        ensures
            c == (LayoutContainer { layout, layout_id }),
    {
        LayoutContainer { layout, layout_id }
    }

    /// The id of the layout.
    pub fn get_layout_id(&self) -> (id: i32)
        ensures
            id == self.layout_id,
    {
        self.layout_id
    }
}

/// The widgets after the first `n` layouts of `layouts` were computed, each only
/// if it had to be, in the order of their ids.
pub open spec fn laid_out<H, L: Layout<H>>(
    layouts: Seq<LayoutContainer<L>>,
    widgets: Seq<WidgetContainerView<H>>,
    n: nat,
) -> Seq<WidgetContainerView<H>>
    decreases n,
{
    if n == 0 {
        widgets
    } else {
        let before = laid_out(layouts, widgets, (n - 1) as nat);
        if layouts[n - 1].layout.dirty() {
            layouts[n - 1].layout.arranged(before)
        } else {
            before
        }
    }
}

/// Whether every layout of `layouts` is bound to widgets among the first `n` only.
pub open spec fn layouts_fit<H, L: Layout<H>>(layouts: Seq<LayoutContainer<L>>, n: nat) -> bool {
    forall|i: int|
        0 <= i < layouts.len() ==> ids_below((#[trigger] layouts[i]).layout.widget_ids(), n)
}

/// Whether `after` holds the layouts of `before` with the same ids, bindings and
/// padding, and none of them has to be computed.
pub open spec fn all_computed<H, L: Layout<H>>(
    before: Seq<LayoutContainer<L>>,
    after: Seq<LayoutContainer<L>>,
) -> bool {
    &&& after.len() == before.len()
    &&& forall|i: int|
        0 <= i < after.len() ==> {
            &&& !(#[trigger] after[i]).layout.dirty()
            &&& after[i].layout_id == before[i].layout_id
            &&& after[i].layout.widget_ids() == before[i].layout.widget_ids()
            &&& after[i].layout.widget_positions() == before[i].layout.widget_positions()
            &&& after[i].layout.padding() == before[i].layout.padding()
        }
}

/// The layouts of an application, in the order in which they were added. A
/// layout's id is its place in that order.
pub struct LayoutCache<L> {
    cache: Vec<LayoutContainer<L>>,
}

impl<L> View for LayoutCache<L> {
    type V = Seq<LayoutContainer<L>>;

    closed spec fn view(&self) -> Seq<LayoutContainer<L>> {
        self.cache@
    }
}

impl<L> LayoutCache<L> {
    /// Whether every container holds its place in the cache as its id, and the ids
    /// fit in 32 bits.
    pub open spec fn wf(&self) -> bool {
        &&& self@.len() <= i32::MAX
        &&& forall|i: int| 0 <= i < self@.len() ==> (#[trigger] self@[i]).layout_id == i
    }

    /// Whether `layout_id` is the id of a layout in the cache.
    pub open spec fn has(&self, layout_id: i32) -> bool {
        0 <= layout_id < self@.len()
    }

    /// A cache without layouts.
    pub fn new() -> (c: LayoutCache<L>)
        ensures
            c@ == Seq::<LayoutContainer<L>>::empty(),
            c.wf(),
    {
        LayoutCache { cache: Vec::new() }
    }

    /// The number of layouts.
    pub fn len(&self) -> (n: usize)
        ensures
            n == self@.len(),
    {
        self.cache.len()
    }

    /// Adds `layout`. Its id is the number of layouts that were there before.
    pub fn add_layout(&mut self, layout: L) -> (layout_id: i32)
        requires
            old(self).wf(),
            old(self)@.len() < i32::MAX,
        ensures
            layout_id == old(self)@.len(),
            final(self)@ == old(self)@.push(LayoutContainer { layout, layout_id }),
            final(self).wf(),
    {
        let layout_id = self.cache.len() as i32;
        self.cache.push(LayoutContainer::new(layout, layout_id));
        layout_id
    }

    /// The layout with the id `id`, to change it.
    pub fn get_layout_by_id(&mut self, id: i32) -> (c: &mut LayoutContainer<L>)
        requires
            old(self).has(id),
        ensures
            *c == old(self)@[id as int],
            final(self)@ == old(self)@.update(id as int, *final(c)),
    {
        &mut self.cache[id as usize]
    }

    /// The layouts with their ids, in the order of the ids.
    pub fn get_layout_cache(&self) -> (cache: &[LayoutContainer<L>])
        ensures
            cache@ == self@,
    {
        self.cache.as_slice()
    }

    /// Computes every layout that has to be computed, in the order of the ids.
    /// Afterwards none has to be.
    pub fn do_layout<H>(&mut self, widgets: &mut WidgetCache<H>) where L: Layout<H>
        requires
            layouts_fit::<H, L>(old(self)@, old(widgets)@.len()),
        ensures
            final(widgets)@ == laid_out::<H, L>(old(self)@, old(widgets)@, old(self)@.len()),
            all_computed::<H, L>(old(self)@, final(self)@),
            final(widgets)@.len() == old(widgets)@.len(),
            forall|j: int|
                0 <= j < old(widgets)@.len() ==> (#[trigger] final(widgets)@[j]).id == old(
                    widgets,
                )@[j].id && final(widgets)@[j].name == old(widgets)@[j].name,
    {
        let mut i: usize = 0;
        while i < self.cache.len()
            invariant
                i <= self.cache.len(),
                self@.len() == old(self)@.len(),
                layouts_fit::<H, L>(self@, old(widgets)@.len()),
                widgets@ == laid_out::<H, L>(old(self)@, old(widgets)@, i as nat),
                widgets@.len() == old(widgets)@.len(),
                forall|j: int|
                    0 <= j < old(widgets)@.len() ==> (#[trigger] widgets@[j]).id == old(
                        widgets,
                    )@[j].id && widgets@[j].name == old(widgets)@[j].name,
                forall|k: int| i <= k < self@.len() ==> self@[k] == old(self)@[k],
                forall|k: int|
                    0 <= k < self@.len() ==> {
                        &&& (k < i ==> !(#[trigger] self@[k]).layout.dirty())
                        &&& self@[k].layout_id == old(self)@[k].layout_id
                        &&& self@[k].layout.widget_ids() == old(self)@[k].layout.widget_ids()
                        &&& self@[k].layout.widget_positions() == old(
                            self,
                        )@[k].layout.widget_positions()
                        &&& self@[k].layout.padding() == old(self)@[k].layout.padding()
                    },
            decreases self.cache.len() - i,
        {
            if self.cache[i].layout.needs_layout() {
                self.cache[i].layout.do_layout(widgets);
            }
            i = i + 1;
        }
    }
}

} // verus!
