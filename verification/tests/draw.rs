use pushrod::render::draw::{add_border, add_step, add_steps, move_by, DrawCommand};
use pushrod::render::widget::{BaseWidget, Rect, Widget};
use pushrod::render::widget_config::{
    Color, CompassPosition, CONFIG_BORDER_WIDTH, CONFIG_COLOR_BASE, CONFIG_COLOR_BORDER,
    CONFIG_COLOR_HOVER, CONFIG_COLOR_SECONDARY, CONFIG_COLOR_TEXT, CONFIG_IMAGE_POSITION,
};
use pushrod::render::widget_store::WidgetStore;
use pushrod::widgets::checkbox_widget::CheckboxWidget;
use pushrod::widgets::grid_widget::GridWidget;
use pushrod::widgets::image_widget::ImageWidget;
use pushrod::widgets::list_widget::ListWidget;
use pushrod::widgets::progress_widget::ProgressWidget;
use pushrod::widgets::push_button_widget::PushButtonWidget;
use pushrod::widgets::slider_widget::{SliderOrientation, SliderWidget};
use pushrod::widgets::tab_bar_widget::TabBarWidget;
use pushrod::widgets::tab_widget::TabWidget;
use pushrod::widgets::text_widget::{FontStyle, TextJustify, TextWidget};
use pushrod::widgets::tile_widget::TileWidget;
use pushrod::widgets::timer_widget::TimerWidget;
use pushrod::widgets::viewport_widget::ViewportWidget;

const BLACK: Color = Color { r: 0, g: 0, b: 0, a: 255 };
const WHITE: Color = Color { r: 255, g: 255, b: 255, a: 255 };
const GREY: Color = Color { r: 192, g: 192, b: 192, a: 255 };
const FONT: &str = "assets/OpenSans-Regular.ttf";

fn rect(x: i32, y: i32, w: u32, h: u32) -> Rect {
    Rect { x, y, w, h }
}

fn fill(x: i32, y: i32, w: u32, h: u32, color: Color) -> DrawCommand {
    DrawCommand::Fill { area: rect(x, y, w, h), color }
}

fn outline(x: i32, y: i32, w: u32, h: u32, color: Color) -> DrawCommand {
    DrawCommand::Outline { area: rect(x, y, w, h), color }
}

fn line(x1: i32, y1: i32, x2: i32, y2: i32, color: Color) -> DrawCommand {
    DrawCommand::Line { x1, y1, x2, y2, color }
}

fn label(area: Rect, size: i32, justification: TextJustify, color: Color, msg: &str) -> DrawCommand {
    DrawCommand::Text {
        area,
        wrap_width: area.w,
        font_name: String::from(FONT),
        font_style: FontStyle::normal(),
        font_size: size,
        justification,
        color,
        msg: String::from(msg),
    }
}

#[test]
fn a_base_widget_is_painted_as_its_body() {
    let w: BaseWidget<u32> = BaseWidget::new([3, 4], [50, 60]);
    assert_eq!(w.draw(), vec![fill(3, 4, 50, 60, WHITE)]);
}

#[test]
fn a_border_is_painted_ring_by_ring() {
    let mut w: BaseWidget<u32> = BaseWidget::new([3, 4], [50, 60]);
    w.set_color(CONFIG_COLOR_BORDER, BLACK);
    w.set_numeric(CONFIG_BORDER_WIDTH, 2);
    assert_eq!(
        w.draw(),
        vec![fill(3, 4, 50, 60, WHITE), outline(3, 4, 50, 60, BLACK), outline(4, 5, 48, 58, BLACK)]
    );
    w.set_color(CONFIG_COLOR_BASE, BLACK);
    assert_eq!(w.draw(), vec![fill(3, 4, 50, 60, BLACK)]);
    w.set_color(CONFIG_COLOR_BASE, WHITE);
    w.set_numeric(CONFIG_BORDER_WIDTH, -1);
    assert_eq!(w.draw(), vec![fill(3, 4, 50, 60, WHITE)]);
}

#[test]
fn a_border_wider_than_the_widget_has_empty_rings() {
    let mut commands = Vec::new();
    add_border(&mut commands, rect(i32::MAX, 0, 3, 2), WHITE, BLACK, 3);
    assert_eq!(
        commands,
        vec![
            outline(i32::MAX, 0, 3, 2, BLACK),
            outline(i32::MAX, 1, 1, 0, BLACK),
            outline(i32::MAX, 2, 0, 0, BLACK),
        ]
    );
}

#[test]
fn steps_are_added_in_their_order() {
    let mut commands = vec![fill(0, 0, 1, 1, WHITE)];
    add_step(&mut commands, fill(1, 1, 1, 1, BLACK));
    add_steps(&mut commands, vec![line(0, 0, 1, 1, GREY), outline(2, 2, 2, 2, GREY)]);
    add_steps(&mut commands, Vec::new());
    assert_eq!(
        commands,
        vec![
            fill(0, 0, 1, 1, WHITE),
            fill(1, 1, 1, 1, BLACK),
            line(0, 0, 1, 1, GREY),
            outline(2, 2, 2, 2, GREY),
        ]
    );
    assert_eq!(move_by(5, 7), 12);
    assert_eq!(move_by(5, -7), -2);
    assert_eq!(move_by(i32::MAX, 1), i32::MAX);
    assert_eq!(move_by(i32::MIN, -1), i32::MIN);
}

#[test]
fn a_text_widget_is_painted_as_its_body_and_its_text() {
    let mut w: TextWidget<u32> = TextWidget::new(
        String::from("font.ttf"),
        FontStyle { bold: true, italic: false, underline: false, strikethrough: false },
        16,
        TextJustify::Right,
        String::from("Top:"),
        [20, 146],
        [70, 22],
    );
    w.set_color(CONFIG_COLOR_TEXT, BLACK);
    w.set_numeric(CONFIG_BORDER_WIDTH, 3);
    assert_eq!(
        w.draw(),
        vec![
            fill(20, 146, 70, 22, WHITE),
            DrawCommand::Text {
                area: rect(20, 146, 70, 22),
                wrap_width: 64,
                font_name: String::from("font.ttf"),
                font_style: FontStyle {
                    bold: true,
                    italic: false,
                    underline: false,
                    strikethrough: false
                },
                font_size: 16,
                justification: TextJustify::Right,
                color: BLACK,
                msg: String::from("Top:"),
            },
        ]
    );
}

#[test]
fn an_image_widget_is_painted_as_its_body_and_its_image() {
    let mut w: ImageWidget<u32> = ImageWidget::new(String::from("a.png"), [1, 2], [30, 40], false);
    w.set_compass(CONFIG_IMAGE_POSITION, CompassPosition::SE);
    assert_eq!(
        w.draw(),
        vec![
            fill(1, 2, 30, 40, WHITE),
            DrawCommand::Image {
                area: rect(1, 2, 30, 40),
                image_name: String::from("a.png"),
                scaled: false,
                position: CompassPosition::SE,
            },
        ]
    );
}

#[test]
fn a_progress_widget_is_painted_as_a_bar_in_an_outline() {
    let mut w: ProgressWidget<u32> = ProgressWidget::new([10, 20], [200, 20], 25);
    w.set_color(CONFIG_COLOR_SECONDARY, GREY);
    w.set_color(CONFIG_COLOR_BORDER, BLACK);
    assert_eq!(
        w.draw(),
        vec![fill(10, 20, 200, 20, WHITE), fill(11, 21, 50, 18, GREY), outline(10, 20, 200, 20, BLACK)]
    );
    let flat: ProgressWidget<u32> = ProgressWidget::new([0, 0], [10, 1], 255);
    assert_eq!(flat.draw()[1], fill(1, 1, 25, 0, WHITE));
}

#[test]
fn a_timer_is_not_painted() {
    let w: TimerWidget<u32> = TimerWidget::new_at(1, true, 0);
    assert!(w.draw().is_empty());
}

#[test]
fn a_viewport_is_painted_with_room_for_its_scroll_bars() {
    let w: ViewportWidget<u32> = ViewportWidget::new([5, 6], [100, 80]);
    assert_eq!(w.draw(), vec![fill(5, 6, 100, 80, WHITE), outline(5, 6, 72, 52, BLACK)]);
    let small: ViewportWidget<u32> = ViewportWidget::new([5, 6], [20, 28]);
    assert_eq!(small.draw()[1], outline(5, 6, 0, 0, BLACK));
}

#[test]
fn a_tab_widget_is_painted_with_a_line_along_its_lower_edge() {
    let w: TabWidget<u32> = TabWidget::new(10, 20, 100, 30);
    assert_eq!(w.draw(), vec![fill(10, 20, 100, 30, WHITE), line(10, 49, 110, 49, BLACK)]);
}

#[test]
fn a_push_button_is_painted_as_its_body_and_its_text() {
    let w: PushButtonWidget<u32> = PushButtonWidget::new([10, 10], [50, 30], String::from("<"), 20);
    assert_eq!(
        w.draw(),
        vec![
            fill(10, 10, 50, 30, WHITE),
            fill(10, 10, 50, 30, WHITE),
            outline(10, 10, 50, 30, BLACK),
            outline(11, 11, 48, 28, BLACK),
            fill(12, 12, 46, 26, WHITE),
            label(rect(12, 12, 46, 26), 20, TextJustify::Center, BLACK, "<"),
        ]
    );
}

#[test]
fn a_checkbox_is_painted_with_the_image_of_its_state() {
    let mut w: CheckboxWidget<u32> =
        CheckboxWidget::new([20, 20], [360, 30], String::from("check"), 14, false);
    let image = |name: &str| DrawCommand::Image {
        area: rect(22, 22, 26, 26),
        image_name: String::from(name),
        scaled: true,
        position: CompassPosition::Center,
    };
    let text = vec![
        fill(56, 22, 320, 26, WHITE),
        label(rect(56, 22, 320, 26), 14, TextJustify::Left, BLACK, "check"),
    ];
    let mut unchecked = vec![fill(22, 22, 26, 26, WHITE), image("assets/checkbox_unselected.png")];
    unchecked.extend(text.clone());
    let mut checked = vec![fill(22, 22, 26, 26, WHITE), image("assets/checkbox_selected.png")];
    checked.extend(text);
    assert_eq!(w.draw(), unchecked);
    w.mouse_entered();
    w.button_clicked(1, 1, true);
    assert_eq!(w.draw(), checked);
    w.mouse_exited();
    assert_eq!(w.draw(), unchecked);
}

#[test]
fn a_slider_is_painted_as_a_track_and_a_handle() {
    let w: SliderWidget<u32> =
        SliderWidget::new([50, 50], [300, 20], 0, 100, 50, SliderOrientation::SliderHorizontal);
    assert_eq!(
        w.draw(),
        vec![
            fill(50, 50, 300, 20, WHITE),
            line(50, 60, 350, 60, GREY),
            line(50, 59, 350, 59, GREY),
            line(50, 61, 350, 61, GREY),
            fill(185, 50, 30, 20, WHITE),
            outline(185, 50, 30, 20, BLACK),
        ]
    );
    let upright: SliderWidget<u32> =
        SliderWidget::new([50, 50], [20, 300], 0, 100, 100, SliderOrientation::SliderVertical);
    assert_eq!(
        upright.draw(),
        vec![
            fill(50, 50, 20, 300, WHITE),
            line(60, 50, 60, 350, GREY),
            line(59, 50, 59, 350, GREY),
            line(61, 50, 61, 350, GREY),
            fill(50, 320, 20, 30, WHITE),
            outline(50, 320, 20, 30, BLACK),
        ]
    );
}

#[test]
fn a_grid_is_painted_line_by_line() {
    let mut w: GridWidget<u32> = GridWidget::new([10, 20], [10, 5], 4);
    assert_eq!(
        w.draw(),
        vec![
            fill(10, 20, 10, 5, WHITE),
            line(10, 20, 10, 25, GREY),
            line(14, 20, 14, 25, GREY),
            line(18, 20, 18, 25, GREY),
            line(10, 20, 20, 20, GREY),
            line(10, 24, 20, 24, GREY),
        ]
    );
    w.set_grid_size(0);
    assert_eq!(w.draw(), vec![fill(10, 20, 10, 5, WHITE)]);
    w.set_grid_size(100);
    w.set_color(CONFIG_COLOR_BORDER, BLACK);
    w.set_numeric(CONFIG_BORDER_WIDTH, 1);
    assert_eq!(
        w.draw(),
        vec![
            fill(10, 20, 10, 5, WHITE),
            line(10, 20, 10, 25, GREY),
            line(10, 20, 20, 20, GREY),
            outline(10, 20, 10, 5, BLACK),
        ]
    );
}

#[test]
fn a_list_is_painted_row_by_row() {
    let mut w: ListWidget<u32> = ListWidget::new([0, 100], [200, 90]);
    w.set_color(CONFIG_COLOR_HOVER, GREY);
    w.set_color(CONFIG_COLOR_BORDER, BLACK);
    w.add_item(String::from("one"));
    w.add_item(String::from("two"));
    w.add_item(String::from("three"));
    w.mouse_entered();
    w.mouse_moved([5, 135]);
    w.button_clicked(1, 1, true);
    w.mouse_moved([5, 165]);
    assert_eq!(
        w.draw(),
        vec![
            fill(0, 100, 200, 90, WHITE),
            fill(0, 100, 200, 30, WHITE),
            label(rect(10, 103, 200, 30), 16, TextJustify::Left, BLACK, "one"),
            fill(0, 130, 200, 30, BLACK),
            label(rect(10, 133, 200, 30), 16, TextJustify::Left, WHITE, "two"),
            fill(0, 160, 200, 30, GREY),
            label(rect(10, 163, 200, 30), 16, TextJustify::Left, BLACK, "three"),
            outline(0, 100, 200, 90, BLACK),
        ]
    );
}

#[test]
fn a_tab_bar_is_painted_tab_by_tab() {
    let mut w: TabBarWidget<u32> =
        TabBarWidget::new([100, 0], [400, 30], vec![String::from("a"), String::from("b")]);
    assert_eq!(
        w.draw(),
        vec![
            fill(100, 0, 400, 30, WHITE),
            fill(120, 0, 30, 30, Color::RGB(224, 224, 224)),
            label(rect(130, 5, 400, 30), 14, TextJustify::Left, BLACK, "a"),
            line(100, 29, 500, 29, BLACK),
        ]
    );
    w.adjust_widgets(vec![30, 40, 50]);
    w.mouse_entered();
    w.mouse_moved([125, 5]);
    w.button_clicked(1, 1, true);
    w.mouse_moved([205, 5]);
    assert_eq!(
        w.draw(),
        vec![
            fill(100, 0, 400, 30, WHITE),
            fill(120, 0, 80, 30, Color::RGB(128, 128, 128)),
            label(rect(130, 5, 400, 30), 14, TextJustify::Left, WHITE, "a"),
            fill(201, 0, 90, 30, GREY),
            label(rect(211, 5, 400, 30), 14, TextJustify::Left, BLACK, "b"),
            fill(292, 0, 100, 30, Color::RGB(224, 224, 224)),
            label(rect(302, 5, 400, 30), 14, TextJustify::Left, BLACK, ""),
            line(100, 29, 500, 29, BLACK),
        ]
    );
}

#[test]
fn a_tab_bar_beyond_the_screen_is_painted_at_its_edge() {
    let mut w: TabBarWidget<u32> = TabBarWidget::new([0, 0], [400, 30], Vec::new());
    w.adjust_widgets(vec![u32::MAX, u32::MAX, 5]);
    let commands = w.draw();
    assert_eq!(commands[1], fill(20, 0, u32::MAX, 30, Color::RGB(224, 224, 224)));
    assert_eq!(commands[3], fill(i32::MAX, 0, u32::MAX, 30, Color::RGB(224, 224, 224)));
    assert_eq!(commands[5], fill(i32::MAX, 0, 55, 30, Color::RGB(224, 224, 224)));
}

#[test]
fn a_tile_is_painted_as_body_text_and_image() {
    let w: TileWidget<u32> =
        TileWidget::new([10, 10], [80, 80], String::from("a.png"), String::from("tile"));
    assert_eq!(
        w.draw(),
        vec![
            fill(10, 10, 80, 80, WHITE),
            fill(10, 10, 80, 80, WHITE),
            outline(10, 10, 80, 80, BLACK),
            fill(11, 71, 78, 18, WHITE),
            label(rect(11, 71, 78, 18), 14, TextJustify::Center, BLACK, "tile"),
            DrawCommand::Image {
                area: rect(34, 18, 32, 32),
                image_name: String::from("a.png"),
                scaled: true,
                position: CompassPosition::Center,
            },
        ]
    );
}

#[test]
fn a_widget_of_any_kind_is_painted_as_its_kind_is() {
    let base: WidgetStore<u32> = WidgetStore::Base(BaseWidget::new([3, 4], [50, 60]));
    assert_eq!(base.draw(), vec![fill(3, 4, 50, 60, WHITE)]);
    let timer: WidgetStore<u32> = WidgetStore::Timer(TimerWidget::new_at(1, true, 0));
    assert!(timer.draw().is_empty());
    let tab: WidgetStore<u32> = WidgetStore::Tab(TabWidget::new(0, 0, 10, 10));
    assert_eq!(tab.draw().len(), 2);
}
