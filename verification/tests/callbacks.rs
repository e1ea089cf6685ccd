use pushrod::render::callbacks::{
    widget_id_for_name, Callback, CallbackRegistry, CallbackSlot, PendingCallback,
};
use pushrod::render::widget::BaseWidget;
use pushrod::render::widget_cache::{pending, WidgetCache, WidgetContainer};
use pushrod::render::widget_store::WidgetStore;

fn base(x: i32, y: i32, w: u32, h: u32) -> WidgetStore<u32> {
    WidgetStore::Base(BaseWidget::new([x, y], [w, h]))
}

#[test]
fn a_new_registry_has_no_handler() {
    let r: CallbackRegistry<u32> = CallbackRegistry::new();
    assert!(!r.has_on_tick());
    assert!(!r.has_on_mouse_entered());
    assert!(!r.has_on_mouse_exited());
    assert!(!r.has_on_mouse_moved());
    assert!(!r.has_on_mouse_scrolled());
    assert!(!r.has_on_mouse_clicked());
    assert!(r.on_tick.is_none());
    assert!(r.fire(Callback::Tick).is_empty());
    assert!(r.fire(Callback::MouseMoved { x: 1, y: 2 }).is_empty());
}

#[test]
fn setting_a_handler_raises_the_flag_of_its_slot_alone() {
    let mut r: CallbackRegistry<u32> = CallbackRegistry::new();
    r.on_mouse_entered(11);
    assert!(r.has_on_mouse_entered());
    assert!(!r.has_on_tick());
    assert!(!r.has_on_mouse_exited());
    assert_eq!(r.on_mouse_entered, Some(11));
    r.on_tick(1);
    r.on_mouse_exited(2);
    r.on_mouse_moved(3);
    r.on_mouse_scrolled(4);
    r.on_mouse_clicked(5);
    assert!(r.has_on_tick() && r.has_on_mouse_exited() && r.has_on_mouse_moved());
    assert!(r.has_on_mouse_scrolled() && r.has_on_mouse_clicked());
    assert_eq!(r.on_tick, Some(1));
    assert_eq!(r.on_mouse_exited, Some(2));
    assert_eq!(r.on_mouse_moved, Some(3));
    assert_eq!(r.on_mouse_scrolled, Some(4));
    assert_eq!(r.on_mouse_clicked, Some(5));
}

#[test]
fn an_event_fires_the_callback_whose_handler_is_set() {
    let mut r: CallbackRegistry<u32> = CallbackRegistry::new();
    r.on_mouse_clicked(5);
    let click = Callback::MouseClicked { button: 1, clicks: 2, state: true };
    assert_eq!(r.fire(click), vec![click]);
    assert!(r.fire(Callback::Tick).is_empty());
    assert!(r.fire(Callback::Clicked).is_empty());
}

#[test]
fn a_handler_that_is_taken_out_fires_nothing_until_it_is_back() {
    let mut r: CallbackRegistry<u32> = CallbackRegistry::new();
    r.on_tick(9);
    assert_eq!(r.take(CallbackSlot::Tick), Some(9));
    assert!(r.has_on_tick());
    assert!(r.on_tick.is_none());
    assert!(r.fire(Callback::Tick).is_empty());
    assert_eq!(r.take(CallbackSlot::Tick), None);
    assert_eq!(r.restore(CallbackSlot::Tick, 9), None);
    assert_eq!(r.fire(Callback::Tick), vec![Callback::Tick]);
}

#[test]
fn putting_a_handler_back_replaces_what_was_set_meanwhile() {
    let mut r: CallbackRegistry<u32> = CallbackRegistry::new();
    r.on_mouse_moved(1);
    let running = r.take(CallbackSlot::MouseMoved);
    r.on_mouse_moved(2);
    assert_eq!(r.restore(CallbackSlot::MouseMoved, running.unwrap()), None);
    assert_eq!(r.on_mouse_moved, Some(1));
}

#[test]
fn the_registry_keeps_no_slot_of_the_widgets_own_kind() {
    let mut r: CallbackRegistry<u32> = CallbackRegistry::new();
    assert_eq!(r.take(CallbackSlot::Widget), None);
    assert_eq!(r.restore(CallbackSlot::Widget, 4), Some(4));
}

#[test]
fn every_callback_has_its_slot() {
    assert_eq!(Callback::Tick.slot(), CallbackSlot::Tick);
    assert_eq!(Callback::MouseEntered.slot(), CallbackSlot::MouseEntered);
    assert_eq!(Callback::MouseExited.slot(), CallbackSlot::MouseExited);
    assert_eq!(Callback::MouseMoved { x: 0, y: 0 }.slot(), CallbackSlot::MouseMoved);
    assert_eq!(Callback::MouseScrolled { x: 0, y: 0 }.slot(), CallbackSlot::MouseScrolled);
    assert_eq!(
        Callback::MouseClicked { button: 1, clicks: 1, state: false }.slot(),
        CallbackSlot::MouseClicked
    );
    assert_eq!(Callback::Clicked.slot(), CallbackSlot::Widget);
    assert_eq!(Callback::Toggled { selected: true }.slot(), CallbackSlot::Widget);
    assert_eq!(Callback::ValueChanged { value: 1 }.slot(), CallbackSlot::Widget);
    assert_eq!(Callback::Selected { item: 1 }.slot(), CallbackSlot::Widget);
    assert_eq!(Callback::TabSelected { tab: 1 }.slot(), CallbackSlot::Widget);
    assert_eq!(Callback::TimedOut.slot(), CallbackSlot::Widget);
}

#[test]
fn callbacks_are_due_on_the_widget_that_fired_them() {
    let list = pending(3, vec![Callback::Clicked, Callback::Tick]);
    assert_eq!(
        list,
        vec![
            PendingCallback { widget_id: 3, callback: Callback::Clicked },
            PendingCallback { widget_id: 3, callback: Callback::Tick },
        ]
    );
    assert!(pending(3, Vec::new()).is_empty());
}

#[test]
fn a_name_is_found_under_the_id_of_its_widget() {
    let mut cache: WidgetCache<u32> = WidgetCache::new();
    cache.add_widget(base(0, 0, 1, 1), String::from("base"));
    cache.add_widget(base(0, 0, 1, 1), String::from("first"));
    cache.add_widget(base(0, 0, 1, 1), String::from("second"));
    assert_eq!(widget_id_for_name(cache.borrow_cache(), String::from("second")), 2);
    assert_eq!(widget_id_for_name(cache.borrow_cache(), String::from("first")), 1);
    assert_eq!(widget_id_for_name(cache.borrow_cache(), String::from("base")), 0);
}

#[test]
fn a_name_that_no_widget_has_is_found_under_zero() {
    let mut cache: WidgetCache<u32> = WidgetCache::new();
    assert_eq!(widget_id_for_name(cache.borrow_cache(), String::from("any")), 0);
    cache.add_widget(base(0, 0, 1, 1), String::from("base"));
    cache.add_widget(base(0, 0, 1, 1), String::from("first"));
    assert_eq!(widget_id_for_name(cache.borrow_cache(), String::from("third")), 0);
    assert_eq!(widget_id_for_name(cache.borrow_cache(), String::from("")), 0);
}

#[test]
fn a_name_that_was_given_twice_is_found_under_the_first_id() {
    let mut cache: WidgetCache<u32> = WidgetCache::new();
    cache.add_widget(base(0, 0, 1, 1), String::from("base"));
    let first = cache.add_widget(base(0, 0, 1, 1), String::from("twin"));
    let second = cache.add_widget(base(0, 0, 1, 1), String::from("twin"));
    assert_eq!(first, 1);
    assert_eq!(second, 2);
    assert_eq!(widget_id_for_name(cache.borrow_cache(), String::from("twin")), 1);
}

#[test]
fn a_name_is_found_in_a_slice_of_containers_by_the_id_they_bear() {
    let list = vec![
        WidgetContainer::new(base(0, 0, 1, 1), String::from("a"), 7),
        WidgetContainer::new(base(0, 0, 1, 1), String::from("b"), -3),
        WidgetContainer::new(base(0, 0, 1, 1), String::from("c"), 9),
    ];
    assert_eq!(widget_id_for_name(&list, String::from("a")), 7);
    assert_eq!(widget_id_for_name(&list, String::from("b")), 0);
    assert_eq!(widget_id_for_name(&list, String::from("c")), 9);
    assert_eq!(list[0].get_widget_name(), "a");
    assert_eq!(list[1].get_widget_id(), -3);
    assert!(list[2].is_named(&String::from("c")));
}
