use pushrod::render::callbacks::{Button, Callback, CallbackEvent, CallbackSlot, MouseButton};
use pushrod::render::texture_store::TextureStore;
use pushrod::render::widget::{BaseWidget, Rect, Widget};
use pushrod::render::widget_config::{
    Color, CompassPosition, Config, CONFIG_BORDER_WIDTH, CONFIG_COLOR_BASE, CONFIG_COLOR_BORDER,
    CONFIG_COLOR_HOVER, CONFIG_COLOR_SELECTED, CONFIG_COLOR_TEXT, CONFIG_FONT_SIZE,
    CONFIG_IMAGE_POSITION, CONFIG_ORIGIN, CONFIG_SELECTED_STATE, CONFIG_SIZE, CONFIG_TEXT,
};
use pushrod::render::widget_store::WidgetStore;
use pushrod::widgets::checkbox_widget::CheckboxWidget;
use pushrod::widgets::grid_widget::{grid_lines, GridWidget};
use pushrod::widgets::image_button_widget::ImageButtonWidget;
use pushrod::widgets::image_widget::{image_origin, ImageWidget};
use pushrod::widgets::list_widget::ListWidget;
use pushrod::widgets::progress_widget::ProgressWidget;
use pushrod::widgets::push_button_widget::PushButtonWidget;
use pushrod::widgets::slider_widget::{SliderOrientation, SliderWidget};
use pushrod::widgets::tab_bar_widget::TabBarWidget;
use pushrod::widgets::tab_widget::TabWidget;
use pushrod::widgets::text_widget::{text_x, FontStyle, TextJustify, TextWidget};
use pushrod::widgets::tile_widget::TileWidget;
use pushrod::widgets::timer_widget::{reading_to_ms, time_ms, TimerWidget};
use pushrod::widgets::toggle_button_widget::ToggleButtonWidget;
use pushrod::widgets::viewport_widget::ViewportWidget;

const BLACK: Color = Color { r: 0, g: 0, b: 0, a: 255 };
const WHITE: Color = Color { r: 255, g: 255, b: 255, a: 255 };

fn text(msg: &str) -> TextWidget<u32> {
    TextWidget::new(
        String::from("assets/OpenSans-Regular.ttf"),
        FontStyle::normal(),
        16,
        TextJustify::Right,
        String::from(msg),
        [20, 146],
        [70, 22],
    )
}

#[test]
fn a_base_widget_is_its_geometry() {
    let mut w: BaseWidget<u32> = BaseWidget::new([3, 4], [50, 60]);
    assert_eq!(w.get_drawing_area(), Rect { x: 3, y: 4, w: 50, h: 60 });
    assert!(w.is_invalidated());
    w.set_invalidated(false);
    assert!(!w.is_invalidated());
    assert!(!w.callbacks().has_on_tick());
    assert_eq!(w.config().get_numeric(CONFIG_BORDER_WIDTH), 0);
}

#[test]
fn moving_a_widget_to_where_it_is_asks_for_no_redraw() {
    let mut w: BaseWidget<u32> = BaseWidget::new([3, 4], [50, 60]);
    w.set_invalidated(false);
    w.set_origin([3, 4]);
    assert!(!w.is_invalidated());
    w.set_size([50, 60]);
    assert!(!w.is_invalidated());
    w.set_origin([3, 5]);
    assert!(w.is_invalidated());
    assert_eq!(w.get_point(CONFIG_ORIGIN), [3, 5]);
    w.set_invalidated(false);
    w.set_size([51, 60]);
    assert!(w.is_invalidated());
    assert_eq!(w.get_size(CONFIG_SIZE), [51, 60]);
}

#[test]
fn the_setters_of_a_widget_store_into_its_configuration() {
    let mut w: BaseWidget<u32> = BaseWidget::new([0, 0], [1, 1]);
    w.set_point(CONFIG_ORIGIN, 1, 2);
    w.set_color(CONFIG_COLOR_BORDER, BLACK);
    w.set_numeric(CONFIG_BORDER_WIDTH, 2);
    w.set_text(CONFIG_TEXT, String::from("t"));
    w.set_toggle(CONFIG_SELECTED_STATE, true);
    w.set_compass(CONFIG_IMAGE_POSITION, CompassPosition::NE);
    assert_eq!(w.get_point(CONFIG_ORIGIN), [1, 2]);
    assert_eq!(w.get_color(CONFIG_COLOR_BORDER), BLACK);
    assert_eq!(w.get_numeric(CONFIG_BORDER_WIDTH), 2);
    assert_eq!(w.get_text(CONFIG_TEXT), "t");
    assert!(w.get_toggle(CONFIG_SELECTED_STATE));
    assert_eq!(w.get_compass(CONFIG_IMAGE_POSITION), CompassPosition::NE);
}

#[test]
fn the_callbacks_of_a_widget_are_those_of_its_registry() {
    let mut w: BaseWidget<u32> = BaseWidget::new([0, 0], [1, 1]);
    assert!(w.tick_callback().is_empty());
    w.get_callbacks().on_tick(1);
    w.get_callbacks().on_mouse_entered(2);
    w.get_callbacks().on_mouse_exited(3);
    w.get_callbacks().on_mouse_moved(4);
    w.get_callbacks().on_mouse_scrolled(5);
    w.get_callbacks().on_mouse_clicked(6);
    assert_eq!(w.tick_callback(), vec![Callback::Tick]);
    assert_eq!(w.mouse_entered_callback(), vec![Callback::MouseEntered]);
    assert_eq!(w.mouse_exited_callback(), vec![Callback::MouseExited]);
    assert_eq!(w.mouse_moved_callback([1, 2]), vec![Callback::MouseMoved { x: 1, y: 2 }]);
    assert_eq!(w.mouse_scrolled_callback([3, 4]), vec![Callback::MouseScrolled { x: 3, y: 4 }]);
    assert_eq!(
        w.button_clicked_callback(1, 2, false),
        vec![Callback::MouseClicked { button: 1, clicks: 2, state: false }]
    );
}

#[test]
fn a_text_widget_shows_what_it_was_told() {
    let mut w = text("Top:");
    assert_eq!(w.get_text(), "Top:");
    assert_eq!(w.get_font_name(), "assets/OpenSans-Regular.ttf");
    assert_eq!(w.get_font_size(), 16);
    assert_eq!(w.get_font_style(), FontStyle::normal());
    assert_eq!(w.get_justification(), TextJustify::Right);
    w.set_invalidated(false);
    w.set_text(String::from("Bottom:"));
    assert!(w.is_invalidated());
    assert_eq!(w.get_text(), "Bottom:");
    w.set_invalidated(false);
    w.set_text(String::from("Bottom:"));
    assert!(w.is_invalidated());
}

#[test]
fn a_text_widget_takes_text_and_font_size_from_its_setters() {
    let mut w = text("1");
    w.set_invalidated(false);
    Widget::set_text(&mut w, CONFIG_TEXT, String::from("2"));
    assert_eq!(w.get_text(), "2");
    assert_eq!(Widget::get_text(&w, CONFIG_TEXT), "2");
    assert!(w.is_invalidated());
    w.set_invalidated(false);
    w.set_numeric(CONFIG_FONT_SIZE, 20);
    assert_eq!(w.get_font_size(), 20);
    assert!(w.is_invalidated());
    w.set_invalidated(false);
    w.set_numeric(CONFIG_FONT_SIZE, 20);
    assert!(!w.is_invalidated());
    Widget::set_text(&mut w, CONFIG_TEXT, String::from("2"));
    assert!(!w.is_invalidated());
    w.on_config_changed(CONFIG_FONT_SIZE, Config::Toggle(true));
    assert_eq!(w.get_font_size(), 20);
    w.on_config_changed(CONFIG_TEXT, Config::Text(String::from("3")));
    assert_eq!(w.get_text(), "3");
    w.on_config_changed(CONFIG_COLOR_TEXT, Config::Text(String::from("4")));
    assert_eq!(w.get_text(), "3");
}

#[test]
fn a_text_starts_where_its_justification_puts_it() {
    assert_eq!(text_x(TextJustify::Left, 100, 30), 0);
    assert_eq!(text_x(TextJustify::Right, 100, 30), 70);
    assert_eq!(text_x(TextJustify::Center, 100, 30), 35);
    assert_eq!(text_x(TextJustify::Center, 100, 31), 34);
    assert_eq!(text_x(TextJustify::Center, 30, 41), -5);
    assert_eq!(text_x(TextJustify::Right, 30, 41), -11);
}

#[test]
fn an_image_sits_where_the_compass_puts_it() {
    assert_eq!(image_origin(CompassPosition::NW, [100, 50], [20, 10]), (0, 0));
    assert_eq!(image_origin(CompassPosition::N, [100, 50], [20, 10]), (40, 0));
    assert_eq!(image_origin(CompassPosition::NE, [100, 50], [20, 10]), (80, 0));
    assert_eq!(image_origin(CompassPosition::W, [100, 50], [20, 10]), (0, 20));
    assert_eq!(image_origin(CompassPosition::Center, [100, 50], [20, 10]), (40, 20));
    assert_eq!(image_origin(CompassPosition::E, [100, 50], [20, 10]), (80, 20));
    assert_eq!(image_origin(CompassPosition::SW, [100, 50], [20, 10]), (0, 40));
    assert_eq!(image_origin(CompassPosition::S, [100, 50], [20, 10]), (40, 40));
    assert_eq!(image_origin(CompassPosition::SE, [100, 50], [20, 10]), (80, 40));
    assert_eq!(image_origin(CompassPosition::Center, [10, 10], [21, 21]), (-5, -5));
    assert_eq!(image_origin(CompassPosition::SE, [10, 10], [21, 21]), (-11, -11));
}

#[test]
fn an_image_widget_keeps_name_and_scaling() {
    let w: ImageWidget<u32> = ImageWidget::new(String::from("a.png"), [1, 2], [3, 4], true);
    assert_eq!(w.get_image_name(), "a.png");
    assert!(w.is_scaled());
    assert_eq!(w.get_compass(CONFIG_IMAGE_POSITION), CompassPosition::W);
}

#[test]
fn a_progress_widget_shows_no_more_than_all() {
    let mut w: ProgressWidget<u32> = ProgressWidget::new([0, 0], [200, 20], 25);
    assert_eq!(w.get_progress(), 25);
    assert_eq!(w.progress_width(), 50);
    w.set_invalidated(false);
    w.set_progress(150);
    assert_eq!(w.get_progress(), 100);
    assert_eq!(w.progress_width(), 200);
    assert!(w.is_invalidated());
    w.set_progress(0);
    assert_eq!(w.progress_width(), 0);
    w.set_progress(33);
    assert_eq!(w.progress_width(), 66);
    let odd: ProgressWidget<u32> = ProgressWidget::new([0, 0], [3, 20], 50);
    assert_eq!(odd.progress_width(), 1);
}

#[test]
fn a_timer_runs_out_after_more_than_its_timeout() {
    let mut w: TimerWidget<u32> = TimerWidget::new_at(1000, true, 5000);
    w.on_timeout(1);
    assert!(w.is_enabled());
    assert!(w.tick(5500).is_empty());
    assert!(w.tick(6000).is_empty());
    assert_eq!(w.tick(6001), vec![Callback::TimedOut]);
    assert!(w.tick(7001).is_empty());
    assert_eq!(w.tick(7002), vec![Callback::TimedOut]);
}

#[test]
fn a_timer_that_is_stopped_does_not_run_out() {
    let mut w: TimerWidget<u32> = TimerWidget::new_at(10, false, 0);
    w.on_timeout(1);
    assert!(w.tick(1000).is_empty());
    w.enable_at(1000);
    assert!(w.tick(1010).is_empty());
    assert_eq!(w.tick(1011), vec![Callback::TimedOut]);
    w.disable();
    assert!(!w.is_enabled());
    assert!(w.tick(5000).is_empty());
}

#[test]
fn a_timer_without_a_handler_starts_anew_in_silence() {
    let mut w: TimerWidget<u32> = TimerWidget::new_at(10, true, 0);
    assert!(w.tick(11).is_empty());
    w.on_timeout(1);
    assert!(w.tick(21).is_empty());
    assert_eq!(w.tick(22), vec![Callback::TimedOut]);
    assert_eq!(w.take_on_timeout(), Some(1));
    assert!(w.tick(100).is_empty());
}

#[test]
fn a_clock_that_went_back_counts_as_no_time_gone_by() {
    let mut w: TimerWidget<u32> = TimerWidget::new_at(10, true, 5000);
    w.on_timeout(1);
    assert!(w.tick(100).is_empty());
    assert!(w.tick(5010).is_empty());
    assert_eq!(w.tick(5011), vec![Callback::TimedOut]);
}

#[test]
fn a_timer_started_by_the_clock_has_not_run_out_at_once() {
    let before = time_ms();
    let mut w: TimerWidget<u32> = TimerWidget::new(1_000_000, true);
    w.on_timeout(1);
    assert!(before > 1_000_000_000_000);
    assert!(w.tick(before).is_empty());
    assert!(w.tick(time_ms()).is_empty());
    assert_eq!(w.tick(time_ms() + 2_000_000), vec![Callback::TimedOut]);
    w.disable();
    w.enable();
    assert!(w.is_enabled());
    assert!(w.tick(time_ms()).is_empty());
}

#[test]
fn a_timer_hears_the_tick_alone() {
    let mut timer: TimerWidget<u32> = TimerWidget::new_at(10, true, 0);
    timer.get_callbacks().on_mouse_entered(1);
    timer.get_callbacks().on_tick(2);
    let mut w = WidgetStore::Timer(timer);
    assert!(w.mouse_entered().is_empty());
    assert!(w.mouse_exited().is_empty());
    assert!(w.mouse_moved([1, 1]).is_empty());
    assert!(w.mouse_scrolled([1, 1]).is_empty());
    assert!(w.button_clicked(1, 1, true).is_empty());
    assert!(w.tick(5).is_empty());
}

#[test]
fn a_push_button_is_built_of_a_body_and_a_text() {
    let w: PushButtonWidget<u32> = PushButtonWidget::new([130, 112], [50, 30], String::from("<"), 20);
    assert_eq!(w.get_drawing_area(), Rect { x: 130, y: 112, w: 50, h: 30 });
    assert_eq!(w.base_widget().get_drawing_area(), Rect { x: 130, y: 112, w: 50, h: 30 });
    assert_eq!(w.base_widget().get_color(CONFIG_COLOR_BASE), WHITE);
    assert_eq!(w.base_widget().get_color(CONFIG_COLOR_BORDER), BLACK);
    assert_eq!(w.base_widget().get_numeric(CONFIG_BORDER_WIDTH), 2);
    assert_eq!(w.text_widget().get_drawing_area(), Rect { x: 132, y: 114, w: 46, h: 26 });
    assert_eq!(w.text_widget().get_color(CONFIG_COLOR_TEXT), BLACK);
    assert_eq!(w.text_widget().get_text(), "<");
    assert_eq!(w.text_widget().get_font_size(), 20);
    assert_eq!(w.text_widget().get_justification(), TextJustify::Center);
}

#[test]
fn a_push_button_looks_pressed_while_it_is_pressed_under_the_pointer() {
    let mut w: PushButtonWidget<u32> = PushButtonWidget::new([0, 0], [50, 30], String::from("x"), 20);
    w.mouse_entered();
    assert_eq!(w.base_widget().get_color(CONFIG_COLOR_BASE), WHITE);
    w.set_invalidated(false);
    w.button_clicked(1, 1, true);
    assert!(w.is_invalidated());
    assert_eq!(w.base_widget().get_color(CONFIG_COLOR_BASE), BLACK);
    assert_eq!(w.text_widget().get_color(CONFIG_COLOR_TEXT), WHITE);
    assert_eq!(w.text_widget().get_color(CONFIG_COLOR_BASE), BLACK);
    w.mouse_exited();
    assert_eq!(w.base_widget().get_color(CONFIG_COLOR_BASE), WHITE);
    assert_eq!(w.text_widget().get_color(CONFIG_COLOR_TEXT), BLACK);
    w.mouse_entered();
    assert_eq!(w.base_widget().get_color(CONFIG_COLOR_BASE), BLACK);
    w.button_clicked(1, 1, false);
    assert_eq!(w.base_widget().get_color(CONFIG_COLOR_BASE), WHITE);
}

#[test]
fn a_push_button_fires_its_click_before_the_callback_of_the_registry() {
    let mut w: PushButtonWidget<u32> = PushButtonWidget::new([0, 0], [50, 30], String::from("x"), 20);
    w.on_click(1);
    w.get_callbacks().on_mouse_clicked(2);
    w.get_callbacks().on_mouse_entered(3);
    w.get_callbacks().on_mouse_exited(4);
    assert_eq!(w.mouse_entered(), vec![Callback::MouseEntered]);
    assert_eq!(
        w.button_clicked(1, 1, true),
        vec![Callback::MouseClicked { button: 1, clicks: 1, state: true }]
    );
    assert_eq!(
        w.button_clicked(1, 1, false),
        vec![Callback::Clicked, Callback::MouseClicked { button: 1, clicks: 1, state: false }]
    );
    assert_eq!(w.mouse_exited(), vec![Callback::MouseExited]);
    assert_eq!(
        w.button_clicked(2, 1, true),
        vec![Callback::MouseClicked { button: 2, clicks: 1, state: true }]
    );
}

#[test]
fn a_push_button_without_a_handler_fires_no_click() {
    let mut w: PushButtonWidget<u32> = PushButtonWidget::new([0, 0], [50, 30], String::from("x"), 20);
    w.mouse_entered();
    w.button_clicked(1, 1, true);
    assert!(w.button_clicked(1, 1, false).is_empty());
    w.on_click(1);
    assert_eq!(w.take_on_click(), Some(1));
    w.button_clicked(1, 1, true);
    assert!(w.button_clicked(1, 1, false).is_empty());
}

#[test]
fn an_image_button_is_built_of_body_image_and_text() {
    let w: ImageButtonWidget<u32> = ImageButtonWidget::new(
        [20, 20],
        [360, 30],
        String::from("open"),
        14,
        String::from("assets/open.png"),
    );
    assert_eq!(w.text_widget().get_drawing_area(), Rect { x: 56, y: 22, w: 320, h: 26 });
    assert_eq!(w.text_widget().get_justification(), TextJustify::Left);
    assert_eq!(w.image_widget().get_drawing_area(), Rect { x: 22, y: 22, w: 26, h: 26 });
    assert_eq!(w.image_widget().get_image_name(), "assets/open.png");
    assert!(!w.image_widget().is_scaled());
    assert_eq!(w.image_widget().get_compass(CONFIG_IMAGE_POSITION), CompassPosition::Center);
    assert_eq!(w.base_widget().get_color(CONFIG_COLOR_BASE), WHITE);
}

#[test]
fn an_image_button_is_clicked_as_a_push_button_is() {
    let mut w: ImageButtonWidget<u32> =
        ImageButtonWidget::new([20, 20], [360, 30], String::from("o"), 14, String::from("o.png"));
    w.on_click(1);
    w.mouse_entered();
    w.button_clicked(1, 1, true);
    assert_eq!(w.button_clicked(1, 1, false), vec![Callback::Clicked]);
    w.button_clicked(1, 1, true);
    w.mouse_exited();
    assert!(w.button_clicked(1, 1, false).is_empty());
    assert_eq!(w.take_on_click(), Some(1));
}

#[test]
fn a_toggle_button_changes_its_state_with_every_click() {
    let mut w: ToggleButtonWidget<u32> =
        ToggleButtonWidget::new(10, 10, 100, 30, String::from("t"), 14, false);
    w.on_toggle(1);
    assert!(!w.is_selected());
    assert!(!w.get_toggle(CONFIG_SELECTED_STATE));
    w.mouse_entered();
    w.button_clicked(1, 1, true);
    assert_eq!(w.button_clicked(1, 1, false), vec![Callback::Toggled { selected: true }]);
    assert!(w.is_selected());
    assert!(w.get_toggle(CONFIG_SELECTED_STATE));
    w.button_clicked(1, 1, true);
    assert_eq!(w.button_clicked(1, 1, false), vec![Callback::Toggled { selected: false }]);
    assert!(!w.is_selected());
    assert!(!w.get_toggle(CONFIG_SELECTED_STATE));
}

#[test]
fn a_toggle_button_is_not_toggled_by_a_release_alone() {
    let mut w: ToggleButtonWidget<u32> =
        ToggleButtonWidget::new(10, 10, 100, 30, String::from("t"), 14, true);
    w.on_toggle(1);
    w.mouse_entered();
    assert!(w.button_clicked(1, 1, false).is_empty());
    assert!(w.is_selected());
    w.button_clicked(1, 1, true);
    w.mouse_exited();
    assert!(w.button_clicked(1, 1, false).is_empty());
    assert!(w.is_selected());
}

#[test]
fn a_toggle_button_wears_the_colors_of_its_state() {
    let on: ToggleButtonWidget<u32> =
        ToggleButtonWidget::new(10, 10, 100, 30, String::from("t"), 14, true);
    assert_eq!(on.base_widget().get_color(CONFIG_COLOR_BASE), BLACK);
    assert_eq!(on.text_widget().get_color(CONFIG_COLOR_TEXT), WHITE);
    assert_eq!(on.text_widget().get_drawing_area(), Rect { x: 12, y: 12, w: 96, h: 26 });
    let mut off: ToggleButtonWidget<u32> =
        ToggleButtonWidget::new(10, 10, 100, 30, String::from("t"), 14, false);
    assert_eq!(off.base_widget().get_color(CONFIG_COLOR_BASE), WHITE);
    assert_eq!(off.text_widget().get_color(CONFIG_COLOR_TEXT), BLACK);
    off.mouse_entered();
    off.button_clicked(1, 1, true);
    assert_eq!(off.base_widget().get_color(CONFIG_COLOR_BASE), BLACK);
    off.mouse_exited();
    assert_eq!(off.base_widget().get_color(CONFIG_COLOR_BASE), WHITE);
}

#[test]
fn a_checkbox_is_built_of_a_text_and_two_images() {
    let w: CheckboxWidget<u32> =
        CheckboxWidget::new([20, 20], [360, 30], String::from("check"), 14, true);
    assert!(w.is_selected());
    assert!(w.get_toggle(CONFIG_SELECTED_STATE));
    assert_eq!(w.text_widget().get_drawing_area(), Rect { x: 56, y: 22, w: 320, h: 26 });
    assert_eq!(w.text_widget().get_text(), "check");
    assert_eq!(w.text_widget().get_color(CONFIG_COLOR_TEXT), BLACK);
    assert_eq!(w.checked_widget().get_drawing_area(), Rect { x: 22, y: 22, w: 26, h: 26 });
    assert_eq!(w.unchecked_widget().get_drawing_area(), Rect { x: 22, y: 22, w: 26, h: 26 });
    assert_eq!(w.checked_widget().get_image_name(), "assets/checkbox_selected.png");
    assert_eq!(w.unchecked_widget().get_image_name(), "assets/checkbox_unselected.png");
    assert!(w.checked_widget().is_scaled());
    assert_eq!(w.checked_widget().get_compass(CONFIG_IMAGE_POSITION), CompassPosition::Center);
}

#[test]
fn a_checkbox_previews_its_toggle_while_it_is_pressed() {
    let mut w: CheckboxWidget<u32> =
        CheckboxWidget::new([20, 20], [360, 30], String::from("c"), 14, false);
    assert!(!w.shows_checked());
    w.mouse_entered();
    w.button_clicked(1, 1, true);
    assert!(w.shows_checked());
    assert!(!w.is_selected());
    w.mouse_exited();
    assert!(!w.shows_checked());
    w.mouse_entered();
    w.button_clicked(1, 1, false);
    assert!(w.shows_checked());
    assert!(w.is_selected());
}

#[test]
fn a_checkbox_is_not_toggled_by_a_release_after_a_drag_out() {
    let mut w: CheckboxWidget<u32> =
        CheckboxWidget::new([20, 20], [360, 30], String::from("c"), 14, false);
    w.on_toggle(1);
    w.mouse_entered();
    w.button_clicked(1, 1, true);
    w.mouse_exited();
    assert!(w.button_clicked(1, 1, false).is_empty());
    assert!(!w.is_selected());
    w.mouse_entered();
    assert!(w.button_clicked(1, 1, false).is_empty());
    assert!(!w.is_selected());
    assert_eq!(w.take_on_toggle(), Some(1));
}

#[test]
fn a_slider_scrolls_between_its_ends() {
    let mut w: SliderWidget<u32> =
        SliderWidget::new([0, 0], [300, 20], 10, 100, 20, SliderOrientation::SliderHorizontal);
    w.on_value_changed(1);
    assert_eq!(w.mouse_scrolled([5, 9]), vec![Callback::ValueChanged { value: 25 }]);
    assert_eq!(w.get_current(), 25);
    assert_eq!(w.mouse_scrolled([-20, 0]), vec![Callback::ValueChanged { value: 10 }]);
    assert_eq!(w.mouse_scrolled([500, 0]), vec![Callback::ValueChanged { value: 100 }]);
    assert_eq!(w.mouse_scrolled([i32::MIN, 0]), vec![Callback::ValueChanged { value: 10 }]);
    assert_eq!(w.get_min(), 10);
    assert_eq!(w.get_max(), 100);
}

#[test]
fn a_vertical_slider_scrolls_against_the_wheel() {
    let mut w: SliderWidget<u32> =
        SliderWidget::new([0, 0], [20, 300], 0, 100, 20, SliderOrientation::SliderVertical);
    w.mouse_scrolled([7, 5]);
    assert_eq!(w.get_current(), 15);
    w.mouse_scrolled([0, -10]);
    assert_eq!(w.get_current(), 25);
    w.mouse_scrolled([0, i32::MIN]);
    assert_eq!(w.get_current(), 100);
}

#[test]
fn a_slider_follows_the_pointer_only_while_it_is_dragged() {
    let mut w: SliderWidget<u32> =
        SliderWidget::new([50, 50], [300, 20], 0, 100, 20, SliderOrientation::SliderHorizontal);
    w.on_value_changed(1);
    assert!(w.mouse_moved([200, 60]).is_empty());
    w.mouse_entered();
    assert!(w.mouse_moved([200, 60]).is_empty());
    w.button_clicked(1, 1, true);
    assert_eq!(w.mouse_moved([200, 60]), vec![Callback::ValueChanged { value: 50 }]);
    assert_eq!(w.mouse_moved([51, 60]), vec![Callback::ValueChanged { value: 0 }]);
    assert_eq!(w.mouse_moved([53, 60]), vec![Callback::ValueChanged { value: 1 }]);
    assert_eq!(w.mouse_moved([349, 60]), vec![Callback::ValueChanged { value: 99 }]);
    assert_eq!(w.mouse_moved([40, 60]), vec![Callback::ValueChanged { value: 0 }]);
    w.mouse_exited();
    assert!(w.mouse_moved([200, 60]).is_empty());
    w.mouse_entered();
    w.button_clicked(1, 1, false);
    assert!(w.mouse_moved([200, 60]).is_empty());
    assert_eq!(w.get_current(), 0);
}

#[test]
fn a_vertical_slider_follows_the_height_of_the_pointer() {
    let mut w: SliderWidget<u32> =
        SliderWidget::new([50, 50], [20, 200], 100, 200, 100, SliderOrientation::SliderVertical);
    w.mouse_entered();
    w.button_clicked(1, 1, true);
    w.mouse_moved([55, 100]);
    assert_eq!(w.get_current(), 125);
    w.mouse_moved([900, 249]);
    assert_eq!(w.get_current(), 199);
}

#[test]
fn a_slider_without_extent_stays_at_its_minimum() {
    let mut w: SliderWidget<u32> =
        SliderWidget::new([0, 0], [0, 20], 7, 100, 20, SliderOrientation::SliderHorizontal);
    w.mouse_entered();
    w.button_clicked(1, 1, true);
    w.mouse_moved([10, 5]);
    assert_eq!(w.get_current(), 7);
}

#[test]
fn the_handle_of_a_slider_stays_on_its_track() {
    let mut w: SliderWidget<u32> =
        SliderWidget::new([0, 0], [300, 20], 0, 100, 50, SliderOrientation::SliderHorizontal);
    assert_eq!(w.slider_start(), 135);
    w.mouse_scrolled([-50, 0]);
    assert_eq!(w.slider_start(), 0);
    w.mouse_scrolled([5, 0]);
    assert_eq!(w.slider_start(), 0);
    w.mouse_scrolled([5, 0]);
    assert_eq!(w.slider_start(), 15);
    w.mouse_scrolled([90, 0]);
    assert_eq!(w.slider_start(), 270);
    let flat: SliderWidget<u32> =
        SliderWidget::new([0, 0], [300, 20], 5, 5, 5, SliderOrientation::SliderHorizontal);
    assert_eq!(flat.slider_start(), 0);
    let short: SliderWidget<u32> =
        SliderWidget::new([0, 0], [10, 20], 0, 100, 50, SliderOrientation::SliderHorizontal);
    assert_eq!(short.slider_start(), 0);
}

#[test]
fn a_grid_has_a_line_at_every_multiple_of_its_size() {
    assert_eq!(grid_lines(10, 4), vec![0, 4, 8]);
    assert_eq!(grid_lines(8, 4), vec![0, 4]);
    assert_eq!(grid_lines(1, 4), vec![0]);
    assert!(grid_lines(0, 4).is_empty());
    assert_eq!(grid_lines(u32::MAX, u32::MAX), vec![0]);
    let mut w: GridWidget<u32> = GridWidget::new([0, 0], [100, 100], 10);
    assert_eq!(w.get_grid_size(), 10);
    w.set_invalidated(false);
    w.set_grid_size(20);
    assert_eq!(w.get_grid_size(), 20);
    assert!(w.is_invalidated());
}

#[test]
fn a_list_highlights_the_row_under_the_pointer() {
    let mut w: ListWidget<u32> = ListWidget::new([0, 100], [200, 200]);
    assert_eq!(w.add_item(String::from("one")), 1);
    assert_eq!(w.add_item(String::from("two")), 2);
    assert_eq!(w.add_item(String::from("three")), 3);
    assert_eq!(w.item_count(), 3);
    assert_eq!(w.get_item(1), "two");
    assert_eq!(w.get_highlighted_item(), -1);
    w.mouse_moved([5, 135]);
    assert_eq!(w.get_highlighted_item(), -1);
    w.mouse_entered();
    w.set_invalidated(false);
    w.mouse_moved([5, 135]);
    assert_eq!(w.get_highlighted_item(), 1);
    assert!(w.is_invalidated());
    w.set_invalidated(false);
    w.mouse_moved([9, 159]);
    assert_eq!(w.get_highlighted_item(), 1);
    assert!(!w.is_invalidated());
    w.mouse_moved([5, 160]);
    assert_eq!(w.get_highlighted_item(), 2);
    w.mouse_moved([5, 195]);
    assert_eq!(w.get_highlighted_item(), -1);
    w.mouse_moved([5, 100]);
    assert_eq!(w.get_highlighted_item(), 0);
    w.mouse_moved([5, 85]);
    assert_eq!(w.get_highlighted_item(), 0);
    w.mouse_moved([5, 40]);
    assert_eq!(w.get_highlighted_item(), -2);
    w.mouse_exited();
    assert_eq!(w.get_highlighted_item(), -1);
}

#[test]
fn a_list_selects_the_highlighted_row_at_a_press() {
    let mut w: ListWidget<u32> = ListWidget::new([0, 100], [200, 200]);
    w.add_item(String::from("one"));
    w.add_item(String::from("two"));
    w.on_selected(1);
    w.mouse_entered();
    w.mouse_moved([5, 135]);
    assert!(w.button_clicked(1, 1, false).is_empty());
    assert!(w.button_clicked(2, 1, true).is_empty());
    assert_eq!(w.get_selected_item(), -1);
    assert_eq!(w.button_clicked(1, 1, true), vec![Callback::Selected { item: 1 }]);
    assert_eq!(w.get_selected_item(), 1);
    w.mouse_exited();
    assert_eq!(w.button_clicked(1, 1, true), vec![Callback::Selected { item: -1 }]);
    assert_eq!(w.get_selected_item(), -1);
    assert_eq!(w.take_on_selected(), Some(1));
    assert!(w.button_clicked(1, 1, true).is_empty());
}

#[test]
fn a_tab_bar_tells_its_tabs_apart_once_their_widths_are_known() {
    let mut w: TabBarWidget<u32> =
        TabBarWidget::new([100, 0], [400, 30], vec![String::from("a"), String::from("b")]);
    assert_eq!(w.tab_count(), 2);
    assert_eq!(w.get_tab_item(1), "b");
    w.mouse_entered();
    w.mouse_moved([125, 5]);
    assert_eq!(w.get_hovered_item(), -1);
    w.adjust_widgets(vec![30, 40]);
    assert_eq!(w.find_hovered_item(19), -1);
    assert_eq!(w.find_hovered_item(20), 0);
    assert_eq!(w.find_hovered_item(100), 0);
    assert_eq!(w.find_hovered_item(101), 1);
    assert_eq!(w.find_hovered_item(191), 1);
    assert_eq!(w.find_hovered_item(192), -1);
    assert_eq!(w.find_hovered_item(i64::MIN), -1);
    assert_eq!(w.find_hovered_item(i64::MAX), -1);
    w.set_invalidated(false);
    w.mouse_moved([125, 5]);
    assert_eq!(w.get_hovered_item(), 0);
    assert!(w.is_invalidated());
    w.mouse_moved([201, 5]);
    assert_eq!(w.get_hovered_item(), 1);
    w.mouse_moved([99, 5]);
    assert_eq!(w.get_hovered_item(), -1);
}

#[test]
fn a_tab_bar_selects_the_marked_tab_at_a_press() {
    let mut w: TabBarWidget<u32> =
        TabBarWidget::new([0, 0], [400, 30], vec![String::from("a"), String::from("b")]);
    w.on_tab_selected(1);
    w.adjust_widgets(vec![u32::MAX, 40]);
    w.mouse_entered();
    assert!(w.button_clicked(1, 1, true).is_empty());
    w.mouse_moved([i32::MAX, 5]);
    assert_eq!(w.get_hovered_item(), 0);
    assert_eq!(w.button_clicked(1, 1, true), vec![Callback::TabSelected { tab: 0 }]);
    assert_eq!(w.get_selected_item(), 0);
    assert!(w.button_clicked(1, 1, false).is_empty());
    w.mouse_exited();
    assert!(w.button_clicked(1, 1, true).is_empty());
    assert_eq!(w.get_selected_item(), 0);
    assert_eq!(w.take_on_tab_selected(), Some(1));
}

#[test]
fn a_tile_is_selected_by_a_click_and_wears_the_colors_of_its_state() {
    let mut w: TileWidget<u32> =
        TileWidget::new([10, 10], [80, 80], String::from("a.png"), String::from("tile"));
    assert_eq!(w.text_widget().get_drawing_area(), Rect { x: 11, y: 71, w: 78, h: 18 });
    assert_eq!(w.get_image_name(), "a.png");
    w.set_color(CONFIG_COLOR_HOVER, Color::RGB(10, 20, 30));
    w.set_color(CONFIG_COLOR_SELECTED, Color::RGB(200, 100, 0));
    w.on_click(1);
    w.adjust_widgets();
    assert_eq!(w.base_widget().get_color(CONFIG_COLOR_BASE), WHITE);
    assert_eq!(w.text_widget().get_color(CONFIG_COLOR_TEXT), BLACK);
    w.mouse_entered();
    w.adjust_widgets();
    assert_eq!(w.base_widget().get_color(CONFIG_COLOR_BASE), Color::RGB(10, 20, 30));
    assert_eq!(w.text_widget().get_color(CONFIG_COLOR_BASE), Color::RGB(10, 20, 30));
    assert_eq!(w.text_widget().get_color(CONFIG_COLOR_TEXT), Color::RGB(245, 235, 225));
    assert!(w.button_clicked(1, 1, true).is_empty());
    assert_eq!(w.button_clicked(1, 1, false), vec![Callback::Toggled { selected: true }]);
    assert!(w.is_selected());
    w.adjust_widgets();
    assert_eq!(w.base_widget().get_color(CONFIG_COLOR_BASE), Color::RGB(200, 100, 0));
    assert_eq!(w.text_widget().get_color(CONFIG_COLOR_TEXT), Color::RGB(55, 155, 255));
    w.button_clicked(1, 1, true);
    w.mouse_exited();
    assert!(w.button_clicked(1, 1, false).is_empty());
    assert!(w.is_selected());
    w.mouse_entered();
    assert!(w.button_clicked(1, 1, false).is_empty());
    w.button_clicked(1, 1, true);
    assert_eq!(w.button_clicked(1, 1, false), vec![Callback::Toggled { selected: false }]);
    assert_eq!(w.take_on_click(), Some(1));
}

#[test]
fn a_tab_widget_does_nothing_about_the_mouse() {
    let mut tab: TabWidget<u32> = TabWidget::new(0, 0, 100, 100);
    assert_eq!(tab.get_selected_tab(), 0);
    tab.get_callbacks().on_mouse_entered(1);
    tab.get_callbacks().on_mouse_clicked(2);
    let mut w = WidgetStore::Tab(tab);
    assert!(w.mouse_entered().is_empty());
    assert!(w.mouse_exited().is_empty());
    assert!(w.mouse_moved([1, 1]).is_empty());
    assert!(w.button_clicked(1, 1, true).is_empty());
}

#[test]
fn a_viewport_shows_the_area_from_its_view_point() {
    let mut w: ViewportWidget<u32> = ViewportWidget::new([5, 5], [100, 80]);
    assert_eq!(w.get_view_point(), [0, 0]);
    assert_eq!(w.get_view_size(), [100, 80]);
    w.set_invalidated(false);
    w.move_viewport([30, 40]);
    assert_eq!(w.get_view_point(), [30, 40]);
    assert!(w.is_invalidated());
}

#[test]
fn a_widget_of_any_kind_hears_events_as_its_kind_does() {
    let mut plain: WidgetStore<u32> = WidgetStore::Text(text("t"));
    plain.get_callbacks().on_mouse_scrolled(1);
    plain.get_callbacks().on_tick(2);
    assert_eq!(plain.mouse_scrolled([1, 2]), vec![Callback::MouseScrolled { x: 1, y: 2 }]);
    assert_eq!(plain.tick(0), vec![Callback::Tick]);
    assert!(plain.mouse_entered().is_empty());
    assert!(plain.is_hit(20, 146));
    assert!(!plain.is_hit(90, 146));
    assert_eq!(plain.take_callback(CallbackSlot::Widget), None);
    assert_eq!(plain.restore_callback(CallbackSlot::Widget, 3), Some(3));
    assert_eq!(plain.take_callback(CallbackSlot::Tick), Some(2));
    assert!(plain.tick(0).is_empty());
    let mut slider: WidgetStore<u32> = WidgetStore::Slider(SliderWidget::new(
        [0, 0],
        [100, 10],
        0,
        10,
        5,
        SliderOrientation::SliderHorizontal,
    ));
    assert_eq!(slider.restore_callback(CallbackSlot::Widget, 4), None);
    assert_eq!(slider.mouse_scrolled([1, 0]), vec![Callback::ValueChanged { value: 6 }]);
    assert_eq!(slider.take_callback(CallbackSlot::Widget), Some(4));
    slider.set_text(CONFIG_TEXT, String::from("s"));
    assert_eq!(slider.get_text(CONFIG_TEXT), "s");
}

#[test]
fn a_picture_is_made_anew_when_there_is_none_or_the_size_changed() {
    let mut store = TextureStore::new();
    assert!(store.create_or_resize_texture(10, 20));
    assert!(!store.create_or_resize_texture(10, 20));
    assert!(store.create_or_resize_texture(11, 20));
    assert!(store.create_or_resize_texture(11, 21));
    assert!(!store.create_or_resize_texture(11, 21));
    assert_eq!(store, TextureStore { stored: true, width: 11, height: 21 });
    let mut none = TextureStore::new();
    assert!(none.create_or_resize_texture(0, 0));
}

#[test]
fn a_push_button_answers_a_release_inside_it_with_a_click() {
    let left = Button::Mouse(MouseButton::Left);
    let mut w: PushButtonWidget<u32> = PushButtonWidget::new([0, 0], [50, 30], String::from("x"), 20);
    assert_eq!(w.handle_event(false, CallbackEvent::MouseButtonDown { widget_id: 4, button: left }), None);
    assert_eq!(w.base_widget().get_color(CONFIG_COLOR_BASE), BLACK);
    assert_eq!(w.handle_event(false, CallbackEvent::MouseExited { widget_id: 4 }), None);
    assert_eq!(w.base_widget().get_color(CONFIG_COLOR_BASE), WHITE);
    assert_eq!(w.handle_event(false, CallbackEvent::MouseEntered { widget_id: 4 }), None);
    assert_eq!(w.base_widget().get_color(CONFIG_COLOR_BASE), BLACK);
    assert_eq!(
        w.handle_event(false, CallbackEvent::MouseButtonUpInside { widget_id: 4, button: left }),
        Some(CallbackEvent::WidgetClicked { widget_id: 4, button: left })
    );
    assert_eq!(w.base_widget().get_color(CONFIG_COLOR_BASE), WHITE);
    assert_eq!(w.handle_event(false, CallbackEvent::MouseEntered { widget_id: 4 }), None);
    assert_eq!(w.base_widget().get_color(CONFIG_COLOR_BASE), WHITE);
}

#[test]
fn a_push_button_answers_nothing_else() {
    let left = Button::Mouse(MouseButton::Left);
    let right = Button::Mouse(MouseButton::Right);
    let mut w: PushButtonWidget<u32> = PushButtonWidget::new([0, 0], [50, 30], String::from("x"), 20);
    assert_eq!(w.handle_event(true, CallbackEvent::MouseButtonDown { widget_id: 4, button: left }), None);
    assert_eq!(w.base_widget().get_color(CONFIG_COLOR_BASE), WHITE);
    assert_eq!(
        w.handle_event(true, CallbackEvent::MouseButtonUpInside { widget_id: 4, button: left }),
        None
    );
    assert_eq!(
        w.handle_event(false, CallbackEvent::MouseButtonUpInside { widget_id: 4, button: right }),
        None
    );
    assert_eq!(
        w.handle_event(false, CallbackEvent::MouseButtonUpInside { widget_id: 4, button: Button::Keyboard }),
        None
    );
    assert_eq!(w.handle_event(false, CallbackEvent::MouseButtonDown { widget_id: 4, button: right }), None);
    assert_eq!(w.base_widget().get_color(CONFIG_COLOR_BASE), WHITE);
    w.handle_event(false, CallbackEvent::MouseButtonDown { widget_id: 4, button: left });
    assert_eq!(
        w.handle_event(false, CallbackEvent::MouseButtonUpOutside { widget_id: 4, button: left }),
        None
    );
    assert_eq!(w.base_widget().get_color(CONFIG_COLOR_BASE), WHITE);
    assert_eq!(
        w.handle_event(false, CallbackEvent::WidgetClicked { widget_id: 4, button: left }),
        None
    );
}

#[test]
fn a_reading_of_the_clock_is_a_time_in_64_bits() {
    assert_eq!(reading_to_ms(None), 0);
    assert_eq!(reading_to_ms(Some(0)), 0);
    assert_eq!(reading_to_ms(Some(1_700_000_000_123)), 1_700_000_000_123);
    assert_eq!(reading_to_ms(Some(u64::MAX as u128)), u64::MAX);
    assert_eq!(reading_to_ms(Some(u64::MAX as u128 + 1)), u64::MAX);
    assert_eq!(reading_to_ms(Some(u128::MAX)), u64::MAX);
}
