use pushrod::render::callbacks::{Callback, CallbackSlot, PendingCallback};
use pushrod::render::widget::{BaseWidget, Rect, Widget};
use pushrod::render::widget_cache::{DrawRequest, WidgetCache};
use pushrod::render::widget_config::{CONFIG_ORIGIN, CONFIG_SIZE};
use pushrod::render::widget_store::WidgetStore;
use pushrod::widgets::push_button_widget::PushButtonWidget;
use pushrod::widgets::timer_widget::TimerWidget;

fn base(x: i32, y: i32, w: u32, h: u32) -> WidgetStore<u32> {
    WidgetStore::Base(BaseWidget::new([x, y], [w, h]))
}

fn three_widgets() -> WidgetCache<u32> {
    let mut cache: WidgetCache<u32> = WidgetCache::new();
    cache.add_widget(base(0, 0, 400, 300), String::from("base"));
    cache.add_widget(base(10, 10, 100, 100), String::from("a"));
    cache.add_widget(base(50, 50, 100, 100), String::from("b"));
    cache
}

#[test]
fn widgets_get_their_place_in_the_cache_as_their_id() {
    let mut cache: WidgetCache<u32> = WidgetCache::new();
    assert_eq!(cache.len(), 0);
    assert!(cache.has_room());
    assert_eq!(cache.add_widget(base(0, 0, 1, 1), String::from("x")), 0);
    assert_eq!(cache.add_widget(base(0, 0, 1, 1), String::from("y")), 1);
    assert_eq!(cache.add_widget(base(0, 0, 1, 1), String::from("z")), 2);
    assert_eq!(cache.len(), 3);
    let list = cache.borrow_cache();
    assert_eq!(list.len(), 3);
    assert_eq!(list[1].get_widget_id(), 1);
    assert_eq!(list[2].get_widget_name(), "z");
}

#[test]
fn of_two_widgets_that_overlap_the_one_added_later_is_hit() {
    let cache = three_widgets();
    assert_eq!(cache.find_widget(60, 60), 2);
    assert_eq!(cache.find_widget(109, 109), 2);
    assert_eq!(cache.find_widget(20, 20), 1);
    assert_eq!(cache.find_widget(49, 60), 1);
    assert_eq!(cache.find_widget(120, 120), 2);
    assert_eq!(cache.find_widget(149, 149), 2);
}

#[test]
fn a_point_over_no_widget_but_the_background_hits_the_background() {
    let cache = three_widgets();
    assert_eq!(cache.find_widget(300, 200), 0);
    assert_eq!(cache.find_widget(150, 150), 0);
    assert_eq!(cache.find_widget(0, 0), 0);
}

#[test]
fn a_point_over_no_widget_at_all_gives_zero() {
    let cache = three_widgets();
    assert_eq!(cache.find_widget(-1, -1), 0);
    assert_eq!(cache.find_widget(400, 300), 0);
    let empty: WidgetCache<u32> = WidgetCache::new();
    assert_eq!(empty.find_widget(5, 5), 0);
}

#[test]
fn a_hidden_widget_is_not_hit() {
    let mut cache = three_widgets();
    cache.get_widget_mut(2).get_config().hide_widget();
    assert_eq!(cache.find_widget(60, 60), 1);
    cache.get_widget_mut(2).get_config().show();
    assert_eq!(cache.find_widget(60, 60), 2);
}

#[test]
fn a_disabled_widget_is_not_hit() {
    let mut cache = three_widgets();
    cache.get_widget_mut(2).get_config().disable();
    cache.get_widget_mut(1).get_config().disable();
    assert_eq!(cache.find_widget(60, 60), 0);
    cache.get_widget_mut(1).get_config().enable();
    assert_eq!(cache.find_widget(60, 60), 1);
}

#[test]
fn an_event_fires_the_callbacks_of_the_widget_it_goes_to() {
    let mut cache = three_widgets();
    cache.get_widget_mut(1).get_callbacks().on_mouse_entered(1);
    cache.get_widget_mut(1).get_callbacks().on_mouse_exited(2);
    cache.get_widget_mut(1).get_callbacks().on_mouse_moved(3);
    cache.get_widget_mut(1).get_callbacks().on_mouse_scrolled(4);
    cache.get_widget_mut(1).get_callbacks().on_mouse_clicked(5);
    assert_eq!(
        cache.mouse_entered(1),
        vec![PendingCallback { widget_id: 1, callback: Callback::MouseEntered }]
    );
    assert_eq!(
        cache.mouse_exited(1),
        vec![PendingCallback { widget_id: 1, callback: Callback::MouseExited }]
    );
    assert_eq!(
        cache.mouse_moved(1, [12, 13]),
        vec![PendingCallback { widget_id: 1, callback: Callback::MouseMoved { x: 12, y: 13 } }]
    );
    assert_eq!(
        cache.mouse_scrolled(1, [0, -2]),
        vec![PendingCallback { widget_id: 1, callback: Callback::MouseScrolled { x: 0, y: -2 } }]
    );
    assert_eq!(
        cache.button_clicked(1, 3, 2, true),
        vec![PendingCallback {
            widget_id: 1,
            callback: Callback::MouseClicked { button: 3, clicks: 2, state: true }
        }]
    );
    assert!(cache.mouse_entered(2).is_empty());
    assert!(cache.mouse_moved(0, [1, 1]).is_empty());
    assert!(cache.other_event(1).is_empty());
}

#[test]
fn a_button_told_to_all_is_heard_by_every_widget_in_the_order_of_the_ids() {
    let mut cache = three_widgets();
    cache.get_widget_mut(2).get_callbacks().on_mouse_clicked(1);
    cache.get_widget_mut(0).get_callbacks().on_mouse_clicked(2);
    let click = Callback::MouseClicked { button: 1, clicks: 1, state: false };
    assert_eq!(
        cache.button_clicked(-1, 1, 1, false),
        vec![
            PendingCallback { widget_id: 0, callback: click },
            PendingCallback { widget_id: 2, callback: click },
        ]
    );
}

#[test]
fn a_tick_is_heard_by_every_widget_also_hidden_and_disabled_ones() {
    let mut cache = three_widgets();
    cache.get_widget_mut(0).get_callbacks().on_tick(1);
    cache.get_widget_mut(1).get_callbacks().on_tick(2);
    cache.get_widget_mut(2).get_callbacks().on_tick(3);
    cache.get_widget_mut(1).get_config().hide_widget();
    cache.get_widget_mut(2).get_config().disable();
    assert_eq!(
        cache.tick(1000),
        vec![
            PendingCallback { widget_id: 0, callback: Callback::Tick },
            PendingCallback { widget_id: 1, callback: Callback::Tick },
            PendingCallback { widget_id: 2, callback: Callback::Tick },
        ]
    );
}

#[test]
fn a_tick_lets_a_timer_run_out() {
    let mut cache: WidgetCache<u32> = WidgetCache::new();
    cache.add_widget(base(0, 0, 400, 300), String::from("base"));
    let mut timer: TimerWidget<u32> = TimerWidget::new_at(100, true, 1000);
    timer.on_timeout(5);
    cache.add_widget(WidgetStore::Timer(timer), String::from("timer"));
    assert!(cache.tick(1100).is_empty());
    assert_eq!(
        cache.tick(1101),
        vec![PendingCallback { widget_id: 1, callback: Callback::TimedOut }]
    );
    assert!(cache.tick(1201).is_empty());
    assert_eq!(
        cache.tick(1202),
        vec![PendingCallback { widget_id: 1, callback: Callback::TimedOut }]
    );
}

#[test]
fn every_shown_widget_is_asked_to_paint_in_the_order_of_the_ids() {
    let mut cache = three_widgets();
    let requests = cache.draw_loop();
    assert_eq!(
        requests,
        vec![
            DrawRequest { widget_id: 0, area: Rect { x: 0, y: 0, w: 400, h: 300 }, redraw: true },
            DrawRequest { widget_id: 1, area: Rect { x: 10, y: 10, w: 100, h: 100 }, redraw: true },
            DrawRequest { widget_id: 2, area: Rect { x: 50, y: 50, w: 100, h: 100 }, redraw: true },
        ]
    );
}

#[test]
fn a_widget_that_was_painted_is_asked_again_with_its_flag_down() {
    let mut cache = three_widgets();
    cache.draw_loop();
    assert!(!cache.get_widget(1).is_invalidated());
    cache.get_widget_mut(1).set_invalidated(true);
    let requests = cache.draw_loop();
    assert_eq!(requests.len(), 3);
    assert!(!requests[0].redraw);
    assert!(requests[1].redraw);
    assert!(!requests[2].redraw);
    assert!(!cache.get_widget(1).is_invalidated());
}

#[test]
fn a_hidden_widget_is_not_painted_and_keeps_its_flag() {
    let mut cache = three_widgets();
    cache.get_widget_mut(1).get_config().hide_widget();
    let requests = cache.draw_loop();
    assert_eq!(requests.len(), 2);
    assert_eq!(requests[0].widget_id, 0);
    assert_eq!(requests[1].widget_id, 2);
    assert!(cache.get_widget(1).is_invalidated());
    assert!(!cache.get_widget(2).is_invalidated());
}

#[test]
fn placing_a_widget_moves_it_and_asks_for_its_redraw() {
    let mut cache = three_widgets();
    cache.draw_loop();
    cache.place(2, 5, 6, 7, 8);
    assert_eq!(cache.get_widget(2).get_point(CONFIG_ORIGIN), [5, 6]);
    assert_eq!(cache.get_widget(2).get_size(CONFIG_SIZE), [7, 8]);
    assert!(cache.get_widget(2).is_invalidated());
    assert!(!cache.get_widget(1).is_invalidated());
    assert_eq!(cache.find_widget(60, 60), 1);
    assert_eq!(cache.find_widget(6, 7), 2);
}

#[test]
fn handlers_are_taken_out_of_the_cache_and_put_back() {
    let mut cache = three_widgets();
    let mut button: PushButtonWidget<u32> =
        PushButtonWidget::new([0, 0], [50, 20], String::from("ok"), 12);
    button.on_click(77);
    button.get_callbacks().on_tick(78);
    let id = cache.add_widget(WidgetStore::PushButton(button), String::from("ok"));
    assert_eq!(cache.take_callback(id, CallbackSlot::Widget), Some(77));
    assert_eq!(cache.take_callback(id, CallbackSlot::Widget), None);
    assert_eq!(cache.restore_callback(id, CallbackSlot::Widget, 77), None);
    assert_eq!(cache.take_callback(id, CallbackSlot::Widget), Some(77));
    assert_eq!(cache.take_callback(id, CallbackSlot::Tick), Some(78));
    assert!(cache.tick(0).is_empty());
    assert_eq!(cache.restore_callback(id, CallbackSlot::Tick, 78), None);
    assert_eq!(cache.tick(0), vec![PendingCallback { widget_id: id, callback: Callback::Tick }]);
    assert_eq!(cache.take_callback(1, CallbackSlot::Widget), None);
    assert_eq!(cache.restore_callback(1, CallbackSlot::Widget, 5), Some(5));
}
