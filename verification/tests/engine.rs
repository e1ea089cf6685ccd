use pushrod::layouts::horizontal_layout::HorizontalLayout;
use pushrod::layouts::LayoutStore;
use pushrod::render::callbacks::{Callback, CallbackSlot, PendingCallback};
use pushrod::render::engine::{Dispatch, Engine, Event};
use pushrod::render::layout::LayoutPosition;
use pushrod::render::widget::{BaseWidget, Widget};
use pushrod::render::widget_config::{PaddingConstraint, CONFIG_ORIGIN, CONFIG_SIZE};
use pushrod::render::widget_store::WidgetStore;
use pushrod::widgets::checkbox_widget::CheckboxWidget;
use pushrod::widgets::push_button_widget::PushButtonWidget;
use pushrod::widgets::slider_widget::{SliderOrientation, SliderWidget};

type Gui = Engine<u32, LayoutStore>;

fn base(x: i32, y: i32, w: u32, h: u32) -> WidgetStore<u32> {
    WidgetStore::Base(BaseWidget::new([x, y], [w, h]))
}

fn two_widgets() -> Gui {
    let mut engine: Gui = Engine::new(400, 300, 60);
    engine.add_widget(base(10, 10, 100, 100), String::from("a"));
    engine.add_widget(base(200, 10, 100, 100), String::from("b"));
    engine
}

fn with_button() -> Gui {
    let mut engine: Gui = Engine::new(400, 300, 60);
    let mut button: PushButtonWidget<u32> =
        PushButtonWidget::new([10, 10], [100, 40], String::from("press"), 16);
    button.on_click(1);
    engine.add_widget(WidgetStore::PushButton(button), String::from("button"));
    engine
}

fn clicked(id: i32) -> PendingCallback {
    PendingCallback { widget_id: id, callback: Callback::Clicked }
}

#[test]
fn a_new_engine_has_the_background_as_its_first_widget() {
    let engine: Gui = Engine::new(400, 300, 60);
    assert!(engine.is_running());
    assert_eq!(engine.get_current_widget_id(), 0);
    assert_eq!(engine.get_widget_cache().len(), 1);
    assert_eq!(engine.get_layout_cache().len(), 0);
    let list = engine.get_widget_cache().borrow_cache();
    assert_eq!(list[0].get_widget_name(), "base");
    assert_eq!(list[0].get_widget_id(), 0);
    assert_eq!(engine.get_widget(0).get_point(CONFIG_ORIGIN), [0, 0]);
    assert_eq!(engine.get_widget(0).get_size(CONFIG_SIZE), [400, 300]);
    assert!(engine.has_room());
}

#[test]
fn widgets_of_an_engine_are_numbered_from_one() {
    let mut engine: Gui = Engine::new(400, 300, 60);
    assert_eq!(engine.add_widget(base(0, 0, 1, 1), String::from("a")), 1);
    assert_eq!(engine.add_widget(base(0, 0, 1, 1), String::from("b")), 2);
}

#[test]
fn the_pointer_going_from_one_widget_to_another_is_told_as_exit_enter_and_move() {
    let mut engine = two_widgets();
    engine.route(Event::MouseMotion { x: 20, y: 20 });
    assert_eq!(engine.get_current_widget_id(), 1);
    let calls = engine.route(Event::MouseMotion { x: 210, y: 20 });
    assert_eq!(
        calls,
        vec![
            Dispatch::MouseExited { widget_id: 1 },
            Dispatch::MouseEntered { widget_id: 2 },
            Dispatch::MouseMoved { widget_id: 2, x: 210, y: 20 },
        ]
    );
    assert_eq!(engine.get_current_widget_id(), 2);
}

#[test]
fn the_pointer_moving_within_a_widget_is_told_as_a_move_alone() {
    let mut engine = two_widgets();
    engine.route(Event::MouseMotion { x: 20, y: 20 });
    let calls = engine.route(Event::MouseMotion { x: 21, y: 22 });
    assert_eq!(calls, vec![Dispatch::MouseMoved { widget_id: 1, x: 21, y: 22 }]);
    assert_eq!(engine.get_current_widget_id(), 1);
}

#[test]
fn the_pointer_leaving_all_widgets_enters_the_background() {
    let mut engine = two_widgets();
    engine.route(Event::MouseMotion { x: 20, y: 20 });
    let calls = engine.route(Event::MouseMotion { x: 150, y: 200 });
    assert_eq!(
        calls,
        vec![
            Dispatch::MouseExited { widget_id: 1 },
            Dispatch::MouseEntered { widget_id: 0 },
            Dispatch::MouseMoved { widget_id: 0, x: 150, y: 200 },
        ]
    );
}

#[test]
fn exit_and_enter_callbacks_come_in_that_order_before_the_move() {
    let mut engine = two_widgets();
    engine.get_widget_mut(1).get_callbacks().on_mouse_exited(1);
    engine.get_widget_mut(2).get_callbacks().on_mouse_entered(2);
    engine.get_widget_mut(2).get_callbacks().on_mouse_moved(3);
    engine.handle_event(Event::MouseMotion { x: 20, y: 20 });
    let fired = engine.handle_event(Event::MouseMotion { x: 210, y: 20 });
    assert_eq!(
        fired,
        vec![
            PendingCallback { widget_id: 1, callback: Callback::MouseExited },
            PendingCallback { widget_id: 2, callback: Callback::MouseEntered },
            PendingCallback { widget_id: 2, callback: Callback::MouseMoved { x: 210, y: 20 } },
        ]
    );
}

#[test]
fn a_press_goes_to_the_widget_under_the_pointer_and_a_release_to_all() {
    let mut engine = two_widgets();
    engine.route(Event::MouseMotion { x: 210, y: 20 });
    assert_eq!(
        engine.route(Event::MouseButtonDown { button: 1, clicks: 2 }),
        vec![Dispatch::ButtonClicked { widget_id: 2, button: 1, clicks: 2, state: true }]
    );
    assert_eq!(
        engine.route(Event::MouseButtonUp { button: 1, clicks: 2 }),
        vec![Dispatch::ButtonClicked { widget_id: -1, button: 1, clicks: 2, state: false }]
    );
}

#[test]
fn the_wheel_and_other_events_go_to_the_widget_under_the_pointer() {
    let mut engine = two_widgets();
    engine.route(Event::MouseMotion { x: 20, y: 20 });
    assert_eq!(
        engine.route(Event::MouseWheel { x: 0, y: -3 }),
        vec![Dispatch::MouseScrolled { widget_id: 1, x: 0, y: -3 }]
    );
    assert_eq!(engine.route(Event::Other), vec![Dispatch::OtherEvent { widget_id: 1 }]);
    assert!(engine.handle_event(Event::Other).is_empty());
}

#[test]
fn the_request_to_end_stops_the_loop_and_calls_no_hook() {
    let mut engine = two_widgets();
    assert!(engine.handle_event(Event::Quit).is_empty());
    assert!(!engine.is_running());
    let mut other = two_widgets();
    assert!(other.route(Event::Quit).is_empty());
    assert!(!other.is_running());
}

#[test]
fn the_loop_is_stopped_and_started_from_outside() {
    let mut engine = two_widgets();
    engine.set_running(false);
    assert!(!engine.is_running());
    engine.set_running(true);
    assert!(engine.is_running());
    engine.handle_event(Event::MouseMotion { x: 1, y: 1 });
    assert!(engine.is_running());
}

#[test]
fn a_press_and_a_release_inside_a_button_are_one_click() {
    let mut engine = with_button();
    engine.handle_event(Event::MouseMotion { x: 20, y: 20 });
    assert!(engine.handle_event(Event::MouseButtonDown { button: 1, clicks: 1 }).is_empty());
    let fired = engine.handle_event(Event::MouseButtonUp { button: 1, clicks: 1 });
    assert_eq!(fired, vec![clicked(1)]);
    assert!(engine.handle_event(Event::MouseButtonUp { button: 1, clicks: 1 }).is_empty());
}

#[test]
fn a_press_inside_and_a_release_outside_a_button_are_no_click() {
    let mut engine = with_button();
    engine.handle_event(Event::MouseMotion { x: 20, y: 20 });
    engine.handle_event(Event::MouseButtonDown { button: 1, clicks: 1 });
    engine.handle_event(Event::MouseMotion { x: 300, y: 200 });
    let fired = engine.handle_event(Event::MouseButtonUp { button: 1, clicks: 1 });
    assert!(fired.is_empty());
}

#[test]
fn a_press_that_left_the_button_and_came_back_is_a_click() {
    let mut engine = with_button();
    engine.handle_event(Event::MouseMotion { x: 20, y: 20 });
    engine.handle_event(Event::MouseButtonDown { button: 1, clicks: 1 });
    engine.handle_event(Event::MouseMotion { x: 300, y: 200 });
    engine.handle_event(Event::MouseMotion { x: 30, y: 30 });
    let fired = engine.handle_event(Event::MouseButtonUp { button: 1, clicks: 1 });
    assert_eq!(fired, vec![clicked(1)]);
}

#[test]
fn a_press_outside_and_a_release_inside_a_button_are_no_click() {
    let mut engine = with_button();
    engine.handle_event(Event::MouseMotion { x: 300, y: 200 });
    engine.handle_event(Event::MouseButtonDown { button: 1, clicks: 1 });
    engine.handle_event(Event::MouseMotion { x: 20, y: 20 });
    let fired = engine.handle_event(Event::MouseButtonUp { button: 1, clicks: 1 });
    assert!(fired.is_empty());
}

#[test]
fn another_button_than_the_left_is_no_click() {
    let mut engine = with_button();
    engine.handle_event(Event::MouseMotion { x: 20, y: 20 });
    engine.handle_event(Event::MouseButtonDown { button: 3, clicks: 1 });
    assert!(engine.handle_event(Event::MouseButtonUp { button: 3, clicks: 1 }).is_empty());
}

#[test]
fn a_checkbox_is_toggled_by_a_press_and_a_release_inside_it() {
    let mut engine: Gui = Engine::new(400, 300, 60);
    let mut checkbox: CheckboxWidget<u32> =
        CheckboxWidget::new([20, 20], [360, 30], String::from("check"), 14, false);
    checkbox.on_toggle(1);
    let id = engine.add_widget(WidgetStore::Checkbox(checkbox), String::from("check"));
    engine.handle_event(Event::MouseMotion { x: 30, y: 30 });
    assert_eq!(engine.get_current_widget_id(), id);
    assert!(engine.handle_event(Event::MouseButtonDown { button: 1, clicks: 1 }).is_empty());
    let fired = engine.handle_event(Event::MouseButtonUp { button: 1, clicks: 1 });
    assert_eq!(
        fired,
        vec![PendingCallback { widget_id: id, callback: Callback::Toggled { selected: true } }]
    );
    match engine.get_widget(id) {
        WidgetStore::Checkbox(checkbox) => assert!(checkbox.is_selected()),
        _ => panic!("the widget is a checkbox"),
    }
}

#[test]
fn a_slider_follows_a_drag_to_the_middle_of_its_track() {
    let mut engine: Gui = Engine::new(400, 300, 60);
    let mut slider: SliderWidget<u32> =
        SliderWidget::new([50, 50], [300, 20], 0, 100, 20, SliderOrientation::SliderHorizontal);
    slider.on_value_changed(1);
    let id = engine.add_widget(WidgetStore::Slider(slider), String::from("slider"));
    engine.handle_event(Event::MouseMotion { x: 200, y: 60 });
    engine.handle_event(Event::MouseButtonDown { button: 1, clicks: 1 });
    let fired = engine.handle_event(Event::MouseMotion { x: 200, y: 60 });
    assert_eq!(
        fired,
        vec![PendingCallback { widget_id: id, callback: Callback::ValueChanged { value: 50 } }]
    );
    match engine.get_widget(id) {
        WidgetStore::Slider(slider) => assert_eq!(slider.get_current(), 50),
        _ => panic!("the widget is a slider"),
    }
}

#[test]
fn a_frame_without_work_sleeps_for_the_whole_interval() {
    let engine: Gui = Engine::new(400, 300, 60);
    assert_eq!(engine.frame_interval(), 16);
    let mut frame = 0;
    while frame < 100 {
        assert_eq!(engine.frame_delay(0), 1000 / 60);
        frame += 1;
    }
    let slow: Gui = Engine::new(400, 300, 1);
    assert_eq!(slow.frame_delay(0), 1000);
    let fast: Gui = Engine::new(400, 300, 255);
    assert_eq!(fast.frame_delay(0), 3);
}

#[test]
fn a_frame_sleeps_for_what_its_work_left_of_the_interval() {
    let engine: Gui = Engine::new(400, 300, 50);
    assert_eq!(engine.frame_interval(), 20);
    assert_eq!(engine.frame_delay(5), 15);
    assert_eq!(engine.frame_delay(19), 1);
    assert_eq!(engine.frame_delay(20), 0);
    assert_eq!(engine.frame_delay(21), 0);
    assert_eq!(engine.frame_delay(u64::MAX), 0);
}

#[test]
fn at_the_rate_zero_no_further_frame_is_due() {
    let engine: Gui = Engine::new(400, 300, 0);
    assert_eq!(engine.frame_interval(), u64::MAX);
    assert_eq!(engine.frame_delay(0), u64::MAX);
    assert_eq!(engine.frame_delay(5), u64::MAX - 5);
}

#[test]
fn a_tick_by_the_clock_gives_the_time_it_ticked_at() {
    let mut engine = two_widgets();
    engine.get_widget_mut(1).get_callbacks().on_tick(1);
    let (now, fired) = engine.tick_now();
    assert!(now > 0);
    assert_eq!(fired, vec![PendingCallback { widget_id: 1, callback: Callback::Tick }]);
    assert!(engine.tick(now).len() == 1);
}

#[test]
fn the_engine_takes_handlers_out_and_puts_them_back() {
    let mut engine = with_button();
    assert_eq!(engine.take_callback(1, CallbackSlot::Widget), Some(1));
    engine.handle_event(Event::MouseMotion { x: 20, y: 20 });
    engine.handle_event(Event::MouseButtonDown { button: 1, clicks: 1 });
    assert!(engine.handle_event(Event::MouseButtonUp { button: 1, clicks: 1 }).is_empty());
    assert_eq!(engine.restore_callback(1, CallbackSlot::Widget, 1), None);
    engine.handle_event(Event::MouseButtonDown { button: 1, clicks: 1 });
    assert_eq!(engine.handle_event(Event::MouseButtonUp { button: 1, clicks: 1 }), vec![clicked(1)]);
    assert_eq!(engine.restore_callback(0, CallbackSlot::Widget, 9), Some(9));
}

#[test]
fn the_frame_steps_lay_out_and_then_paint() {
    let mut engine: Gui = Engine::new(400, 300, 60);
    let a = engine.add_widget(base(0, 0, 0, 0), String::from("a"));
    let b = engine.add_widget(base(0, 0, 0, 0), String::from("b"));
    let mut layout = HorizontalLayout::new(20, 20, 360, 80, PaddingConstraint::new(0, 0, 0, 0, 1));
    layout.add_widget(a, LayoutPosition::new(0, 0));
    layout.add_widget(b, LayoutPosition::new(1, 0));
    let layout = LayoutStore::Horizontal(layout);
    assert!(engine.accepts(&layout));
    assert_eq!(engine.add_layout(layout), 0);
    engine.draw_loop();
    engine.set_padding(0, PaddingConstraint::new(0, 0, 0, 0, 1));
    engine.do_layout();
    assert_eq!(engine.get_widget(a).get_point(CONFIG_ORIGIN), [20, 20]);
    assert_eq!(engine.get_widget(a).get_size(CONFIG_SIZE), [179, 80]);
    assert_eq!(engine.get_widget(b).get_point(CONFIG_ORIGIN), [200, 20]);
    assert_eq!(engine.get_widget(b).get_size(CONFIG_SIZE), [180, 80]);
    let requests = engine.draw_loop();
    assert_eq!(requests.len(), 3);
    assert!(!requests[0].redraw);
    assert!(requests[1].redraw);
    assert!(requests[2].redraw);
    assert_eq!(requests[2].area.x, 200);
    assert_eq!(engine.get_padding(0).spacing, 1);
}

#[test]
fn an_engine_accepts_layouts_that_are_bound_to_its_widgets_only() {
    let mut engine: Gui = Engine::new(400, 300, 60);
    engine.add_widget(base(0, 0, 0, 0), String::from("a"));
    let mut layout = HorizontalLayout::new(0, 0, 100, 10, PaddingConstraint::new(0, 0, 0, 0, 0));
    layout.add_widget(1, LayoutPosition::new(0, 0));
    assert!(engine.accepts(&LayoutStore::Horizontal(layout)));
    let mut stray = HorizontalLayout::new(0, 0, 100, 10, PaddingConstraint::new(0, 0, 0, 0, 0));
    stray.add_widget(2, LayoutPosition::new(0, 0));
    assert!(!engine.accepts(&LayoutStore::Horizontal(stray)));
    let mut negative = HorizontalLayout::new(0, 0, 100, 10, PaddingConstraint::new(0, 0, 0, 0, 0));
    negative.add_widget(-1, LayoutPosition::new(0, 0));
    assert!(!engine.accepts(&LayoutStore::Horizontal(negative)));
}

#[test]
fn widgets_are_bound_to_a_layout_of_the_engine() {
    let mut engine: Gui = Engine::new(400, 300, 60);
    let a = engine.add_widget(base(0, 0, 0, 0), String::from("a"));
    let b = engine.add_widget(base(0, 0, 0, 0), String::from("b"));
    let layout = HorizontalLayout::new(0, 0, 100, 10, PaddingConstraint::new(0, 0, 0, 0, 0));
    let id = engine.add_layout(LayoutStore::Horizontal(layout));
    engine.bind_widget(id, a, LayoutPosition::new(0, 0));
    engine.bind_widget(id, b, LayoutPosition::new(1, 0));
    engine.do_layout();
    assert_eq!(engine.get_widget(a).get_size(CONFIG_SIZE), [50, 10]);
    assert_eq!(engine.get_widget(b).get_point(CONFIG_ORIGIN), [50, 0]);
}
