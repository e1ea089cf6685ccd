use pushrod::layouts::horizontal_layout::HorizontalLayout;
use pushrod::layouts::vertical_layout::VerticalLayout;
use pushrod::layouts::LayoutStore;
use pushrod::render::layout::{clamp_i32, ids_fit, pad, Layout, LayoutPosition};
use pushrod::render::layout_cache::{LayoutCache, LayoutContainer};
use pushrod::render::widget::{BaseWidget, Widget};
use pushrod::render::widget_cache::WidgetCache;
use pushrod::render::widget_config::{PaddingConstraint, CONFIG_ORIGIN, CONFIG_SIZE};
use pushrod::render::widget_store::WidgetStore;

fn widgets(count: usize) -> WidgetCache<u32> {
    let mut cache: WidgetCache<u32> = WidgetCache::new();
    let mut i = 0;
    while i < count {
        cache.add_widget(WidgetStore::Base(BaseWidget::new([1, 2], [3, 4])), String::from("w"));
        i += 1;
    }
    cache.draw_loop();
    cache
}

fn spaced(spacing: i32) -> PaddingConstraint {
    PaddingConstraint::new(0, 0, 0, 0, spacing)
}

fn origin(cache: &WidgetCache<u32>, id: i32) -> [i32; 2] {
    cache.get_widget(id).get_point(CONFIG_ORIGIN)
}

fn size(cache: &WidgetCache<u32>, id: i32) -> [u32; 2] {
    cache.get_widget(id).get_size(CONFIG_SIZE)
}

#[test]
fn a_layout_without_widgets_moves_nothing() {
    let mut cache = widgets(2);
    let mut layout = HorizontalLayout::new(20, 20, 360, 80, spaced(1));
    layout.set_padding(spaced(2));
    assert!(layout.needs_layout());
    layout.do_layout(&mut cache);
    assert!(!layout.needs_layout());
    assert_eq!(origin(&cache, 0), [1, 2]);
    assert_eq!(size(&cache, 1), [3, 4]);
    assert!(!cache.get_widget(0).is_invalidated());
}

#[test]
fn a_layout_with_one_widget_moves_nothing() {
    let mut cache = widgets(2);
    let mut layout = HorizontalLayout::new(20, 20, 360, 80, spaced(1));
    layout.add_widget(1, LayoutPosition::new(0, 0));
    layout.do_layout(&mut cache);
    assert_eq!(origin(&cache, 1), [1, 2]);
    assert_eq!(size(&cache, 1), [3, 4]);
    assert!(!cache.get_widget(1).is_invalidated());
    let mut vertical = VerticalLayout::new(20, 20, 360, 80, PaddingConstraint::new(5, 5, 5, 5, 5));
    vertical.add_widget(0, LayoutPosition::new(0, 0));
    vertical.do_layout(&mut cache);
    assert_eq!(origin(&cache, 0), [1, 2]);
    assert_eq!(size(&cache, 0), [3, 4]);
    assert!(!vertical.needs_layout());
}

#[test]
fn two_widgets_side_by_side_share_the_width() {
    let mut cache = widgets(2);
    let mut layout = HorizontalLayout::new(0, 0, 360, 80, spaced(1));
    layout.add_widget(0, LayoutPosition::new(0, 0));
    layout.add_widget(1, LayoutPosition::new(1, 0));
    layout.do_layout(&mut cache);
    assert_eq!(origin(&cache, 0), [0, 0]);
    assert_eq!(size(&cache, 0), [179, 80]);
    assert_eq!(origin(&cache, 1), [180, 0]);
    assert_eq!(size(&cache, 1), [180, 80]);
    assert!(cache.get_widget(0).is_invalidated());
    assert!(cache.get_widget(1).is_invalidated());
}

#[test]
fn three_widgets_side_by_side_use_up_the_width_but_for_the_remainder() {
    let mut cache = widgets(3);
    let mut layout = HorizontalLayout::new(10, 5, 100, 20, spaced(4));
    layout.add_widget(0, LayoutPosition::new(0, 0));
    layout.add_widget(1, LayoutPosition::new(1, 0));
    layout.add_widget(2, LayoutPosition::new(2, 0));
    layout.do_layout(&mut cache);
    assert_eq!(origin(&cache, 0), [10, 5]);
    assert_eq!(size(&cache, 0), [31, 20]);
    assert_eq!(origin(&cache, 1), [45, 5]);
    assert_eq!(size(&cache, 1), [29, 20]);
    assert_eq!(origin(&cache, 2), [78, 5]);
    assert_eq!(size(&cache, 2), [31, 20]);
    let widths = size(&cache, 0)[0] + size(&cache, 1)[0] + size(&cache, 2)[0];
    assert_eq!(widths + 2 * 4, 3 * (100 / 3));
    assert_eq!(widths + 2 * 4, 99);
}

#[test]
fn four_widgets_in_a_width_of_103_leave_three_over() {
    let mut cache = widgets(4);
    let mut layout = HorizontalLayout::new(0, 0, 103, 20, spaced(0));
    let mut id = 0;
    while id < 4 {
        layout.add_widget(id, LayoutPosition::new(id, 0));
        id += 1;
    }
    layout.do_layout(&mut cache);
    let mut widths = 0;
    let mut id = 0;
    while id < 4 {
        widths += size(&cache, id)[0];
        id += 1;
    }
    assert_eq!(widths, 100);
    assert_eq!(origin(&cache, 3), [75, 0]);
}

#[test]
fn an_odd_spacing_gives_its_larger_half_to_the_left_neighbour() {
    let mut cache = widgets(2);
    let mut layout = HorizontalLayout::new(0, 0, 100, 10, spaced(5));
    layout.add_widget(0, LayoutPosition::new(0, 0));
    layout.add_widget(1, LayoutPosition::new(1, 0));
    layout.do_layout(&mut cache);
    assert_eq!(size(&cache, 0), [47, 10]);
    assert_eq!(origin(&cache, 1), [52, 0]);
    assert_eq!(size(&cache, 1), [48, 10]);
}

#[test]
fn a_negative_spacing_counts_as_none() {
    let mut cache = widgets(2);
    let mut layout = HorizontalLayout::new(0, 0, 100, 10, spaced(-6));
    layout.add_widget(0, LayoutPosition::new(0, 0));
    layout.add_widget(1, LayoutPosition::new(1, 0));
    layout.do_layout(&mut cache);
    assert_eq!(size(&cache, 0), [50, 10]);
    assert_eq!(origin(&cache, 1), [50, 0]);
    assert_eq!(size(&cache, 1), [50, 10]);
    assert_eq!(layout.get_padding().spacing, -6);
}

#[test]
fn a_spacing_wider_than_a_slot_leaves_the_slot_without_width() {
    let mut cache = widgets(3);
    let mut layout = HorizontalLayout::new(0, 0, 30, 10, spaced(25));
    layout.add_widget(0, LayoutPosition::new(0, 0));
    layout.add_widget(1, LayoutPosition::new(1, 0));
    layout.add_widget(2, LayoutPosition::new(2, 0));
    layout.do_layout(&mut cache);
    assert_eq!(size(&cache, 0), [0, 10]);
    assert_eq!(size(&cache, 1), [0, 10]);
    assert_eq!(size(&cache, 2), [0, 10]);
    assert_eq!(origin(&cache, 1), [22, 0]);
    assert_eq!(origin(&cache, 2), [32, 0]);
}

#[test]
fn a_layout_at_the_end_of_the_range_keeps_its_widgets_in_the_range() {
    let mut cache = widgets(2);
    let mut layout = HorizontalLayout::new(i32::MAX - 10, 0, 100, 10, spaced(0));
    layout.add_widget(0, LayoutPosition::new(0, 0));
    layout.add_widget(1, LayoutPosition::new(1, 0));
    layout.do_layout(&mut cache);
    assert_eq!(origin(&cache, 0), [i32::MAX - 10, 0]);
    assert_eq!(origin(&cache, 1), [i32::MAX, 0]);
}

#[test]
fn a_widget_that_is_bound_twice_ends_up_in_its_last_slot() {
    let mut cache = widgets(2);
    let mut layout = HorizontalLayout::new(0, 0, 90, 10, spaced(0));
    layout.add_widget(0, LayoutPosition::new(0, 0));
    layout.add_widget(1, LayoutPosition::new(1, 0));
    layout.add_widget(0, LayoutPosition::new(2, 0));
    layout.do_layout(&mut cache);
    assert_eq!(origin(&cache, 0), [60, 0]);
    assert_eq!(origin(&cache, 1), [30, 0]);
}

#[test]
fn two_widgets_one_below_the_other_share_the_height_within_the_insets() {
    let mut cache = widgets(2);
    let mut layout = VerticalLayout::new(250, 120, 130, 160, PaddingConstraint::new(5, 6, 7, 8, 3));
    layout.add_widget(0, LayoutPosition::new(0, 0));
    layout.add_widget(1, LayoutPosition::new(0, 1));
    layout.do_layout(&mut cache);
    assert_eq!(origin(&cache, 0), [257, 125]);
    assert_eq!(size(&cache, 0), [115, 73]);
    assert_eq!(origin(&cache, 1), [257, 201]);
    assert_eq!(size(&cache, 1), [115, 73]);
    assert!(!layout.needs_layout());
}

#[test]
fn three_widgets_one_below_the_other_keep_the_spacing_between_them() {
    let mut cache = widgets(3);
    let mut layout = VerticalLayout::new(0, 0, 50, 90, PaddingConstraint::new(0, 0, 0, 0, 4));
    layout.append_widget(0);
    layout.append_widget(1);
    layout.insert_widget(2, LayoutPosition::new(0, 2));
    layout.do_layout(&mut cache);
    assert_eq!(origin(&cache, 0), [0, 0]);
    assert_eq!(size(&cache, 0), [50, 28]);
    assert_eq!(origin(&cache, 1), [0, 32]);
    assert_eq!(size(&cache, 1), [50, 26]);
    assert_eq!(origin(&cache, 2), [0, 62]);
    assert_eq!(size(&cache, 2), [50, 28]);
}

#[test]
fn insets_wider_than_the_layout_leave_no_width() {
    let mut cache = widgets(2);
    let mut layout = VerticalLayout::new(0, 0, 10, 40, PaddingConstraint::new(30, -1, 6, 6, 0));
    layout.add_widget(0, LayoutPosition::new(0, 0));
    layout.add_widget(1, LayoutPosition::new(0, 1));
    layout.do_layout(&mut cache);
    assert_eq!(origin(&cache, 0), [6, 30]);
    assert_eq!(size(&cache, 0), [0, 0]);
    assert_eq!(origin(&cache, 1), [6, 20]);
    assert_eq!(size(&cache, 1), [0, 20]);
}

#[test]
fn binding_a_widget_or_changing_the_padding_asks_for_a_layout() {
    let mut layout = VerticalLayout::new(0, 0, 10, 40, spaced(0));
    assert!(!layout.needs_layout());
    assert_eq!(layout.widget_count(), 0);
    layout.add_widget(3, LayoutPosition::new(0, 0));
    assert!(layout.needs_layout());
    assert_eq!(layout.widget_count(), 1);
    let mut cache = widgets(4);
    layout.do_layout(&mut cache);
    assert!(!layout.needs_layout());
    layout.set_padding(PaddingConstraint::new(1, 2, 3, 4, 5));
    assert!(layout.needs_layout());
    assert_eq!(layout.get_padding(), PaddingConstraint::new(1, 2, 3, 4, 5));
}

#[test]
fn a_layout_fits_the_widgets_whose_ids_it_is_bound_to() {
    let mut layout = HorizontalLayout::new(0, 0, 10, 40, spaced(0));
    assert!(layout.fits(0));
    layout.add_widget(2, LayoutPosition::new(0, 0));
    layout.add_widget(0, LayoutPosition::new(1, 0));
    assert!(layout.fits(3));
    assert!(!layout.fits(2));
    layout.add_widget(-1, LayoutPosition::new(2, 0));
    assert!(!layout.fits(3));
    assert!(ids_fit(&vec![0, 1, 2], 3));
    assert!(!ids_fit(&vec![0, 3], 3));
    assert!(ids_fit(&Vec::new(), 0));
}

#[test]
fn the_layout_cache_computes_the_layouts_that_ask_for_it() {
    let mut cache = widgets(4);
    let mut layouts: LayoutCache<LayoutStore> = LayoutCache::new();
    let mut first = HorizontalLayout::new(0, 0, 100, 10, spaced(0));
    first.add_widget(0, LayoutPosition::new(0, 0));
    first.add_widget(1, LayoutPosition::new(1, 0));
    let mut second = VerticalLayout::new(0, 100, 10, 100, spaced(0));
    second.add_widget(2, LayoutPosition::new(0, 0));
    second.add_widget(3, LayoutPosition::new(0, 1));
    second.do_layout(&mut widgets(4));
    assert_eq!(layouts.add_layout(LayoutStore::Horizontal(first)), 0);
    assert_eq!(layouts.add_layout(LayoutStore::Vertical(second)), 1);
    assert_eq!(layouts.len(), 2);
    layouts.do_layout(&mut cache);
    assert_eq!(origin(&cache, 1), [50, 0]);
    assert_eq!(origin(&cache, 3), [1, 2]);
    let list = layouts.get_layout_cache();
    assert_eq!(list[1].get_layout_id(), 1);
    assert!(!Layout::<u32>::needs_layout(&list[0].layout));
    Layout::<u32>::set_padding(&mut layouts.get_layout_by_id(1).layout, spaced(0));
    layouts.do_layout(&mut cache);
    assert_eq!(origin(&cache, 3), [0, 150]);
    assert_eq!(size(&cache, 3), [10, 50]);
}

#[test]
fn a_layout_container_keeps_layout_and_id() {
    let container = LayoutContainer::new(HorizontalLayout::new(1, 2, 3, 4, spaced(5)), 7);
    assert_eq!(container.get_layout_id(), 7);
    assert_eq!(container.layout_id, 7);
    assert_eq!(container.layout.get_padding().spacing, 5);
}

#[test]
fn a_layout_of_either_kind_is_a_layout() {
    let mut cache = widgets(2);
    let mut store = LayoutStore::Vertical(VerticalLayout::new(0, 0, 10, 40, spaced(0)));
    Layout::<u32>::add_widget(&mut store, 0, LayoutPosition::new(0, 0));
    Layout::<u32>::add_widget(&mut store, 1, LayoutPosition::new(0, 1));
    assert!(Layout::<u32>::needs_layout(&store));
    assert!(Layout::<u32>::fits(&store, 2));
    assert!(!Layout::<u32>::fits(&store, 1));
    store.do_layout(&mut cache);
    assert!(!Layout::<u32>::needs_layout(&store));
    assert_eq!(origin(&cache, 1), [0, 20]);
    assert_eq!(Layout::<u32>::get_padding(&store).spacing, 0);
}

#[test]
fn values_are_kept_in_the_range_they_are_stored_in() {
    assert_eq!(clamp_i32(5), 5);
    assert_eq!(clamp_i32(-5), -5);
    assert_eq!(clamp_i32(i32::MAX as i64 + 1), i32::MAX);
    assert_eq!(clamp_i32(i32::MIN as i64 - 1), i32::MIN);
    assert_eq!(pad(-1), 0);
    assert_eq!(pad(0), 0);
    assert_eq!(pad(9), 9);
    assert_eq!(LayoutPosition::new(3, 4), LayoutPosition { x: 3, y: 4 });
}
