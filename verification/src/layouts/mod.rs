use crate::layouts::horizontal_layout::HorizontalLayout;
use crate::layouts::vertical_layout::VerticalLayout;
use crate::render::layout::{Layout, LayoutPosition};
use crate::render::widget_cache::{WidgetCache, WidgetContainerView};
use crate::render::widget_config::PaddingConstraint;
use vstd::prelude::*;

/// A layout that puts its widgets side by side.
pub mod horizontal_layout;

/// A layout that puts its widgets one below the other.
pub mod vertical_layout;

verus! {

/// A layout of either kind that the library has, for an engine that holds both.
pub enum LayoutStore {
    /// Widgets side by side.
    Horizontal(HorizontalLayout),
    /// Widgets one below the other.
    Vertical(VerticalLayout),
}

impl<H> Layout<H> for LayoutStore {
    open spec fn widget_ids(&self) -> Seq<i32> {
        match self {
            LayoutStore::Horizontal(l) => l@.widget_ids,
            LayoutStore::Vertical(l) => l@.widget_ids,
        }
    }

    open spec fn widget_positions(&self) -> Seq<LayoutPosition> {
        match self {
            LayoutStore::Horizontal(l) => l@.widget_positions,
            LayoutStore::Vertical(l) => l@.widget_positions,
        }
    }

    open spec fn padding(&self) -> PaddingConstraint {
        match self {
            LayoutStore::Horizontal(l) => l@.padding,
            LayoutStore::Vertical(l) => l@.padding,
        }
    }

    open spec fn dirty(&self) -> bool {
        match self {
            LayoutStore::Horizontal(l) => l@.invalidated,
            LayoutStore::Vertical(l) => l@.invalidated,
        }
    }

    open spec fn arranged(&self, widgets: Seq<WidgetContainerView<H>>) -> Seq<
        WidgetContainerView<H>,
    > {
        match self {
            LayoutStore::Horizontal(l) => l@.arranged(widgets),
            LayoutStore::Vertical(l) => l@.arranged(widgets),
        }
    }

    fn add_widget(&mut self, widget_id: i32, widget_position: LayoutPosition) {
        match self {
            LayoutStore::Horizontal(l) => Layout::<H>::add_widget(l, widget_id, widget_position),
            LayoutStore::Vertical(l) => Layout::<H>::add_widget(l, widget_id, widget_position),
        }
    }

    fn set_padding(&mut self, padding: PaddingConstraint) {
        match self {
            LayoutStore::Horizontal(l) => Layout::<H>::set_padding(l, padding),
            LayoutStore::Vertical(l) => Layout::<H>::set_padding(l, padding),
        }
    }

    fn get_padding(&self) -> (p: PaddingConstraint) {
        match self {
            LayoutStore::Horizontal(l) => Layout::<H>::get_padding(l),
            LayoutStore::Vertical(l) => Layout::<H>::get_padding(l),
        }
    }

    fn do_layout(&mut self, widgets: &mut WidgetCache<H>) {
        match self {
            LayoutStore::Horizontal(l) => l.do_layout(widgets),
            LayoutStore::Vertical(l) => l.do_layout(widgets),
        }
    }

    fn needs_layout(&self) -> (b: bool) {
        match self {
            LayoutStore::Horizontal(l) => Layout::<H>::needs_layout(l),
            LayoutStore::Vertical(l) => Layout::<H>::needs_layout(l),
        }
    }

    fn fits(&self, count: usize) -> (b: bool) {
        match self {
            LayoutStore::Horizontal(l) => Layout::<H>::fits(l, count),
            LayoutStore::Vertical(l) => Layout::<H>::fits(l, count),
        }
    }
}

} // verus!
