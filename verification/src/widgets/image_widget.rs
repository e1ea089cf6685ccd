use crate::render::{Points, Size};
use crate::render::callbacks::CallbackRegistry;
use crate::render::draw::{add_step, DrawCommand, DrawCommandView, steps};
use crate::render::widget::Widget;
use crate::render::widget_config::{
    CompassPosition, Config, CONFIG_COLOR_BASE, CONFIG_IMAGE_POSITION, ConfigValue, WidgetConfig,
    WidgetConfigView,
};
use crate::widgets::text_widget::truncated_half;
use vstd::prelude::*;

verus! {

/// An image widget as a mathematical value.
pub struct ImageWidgetView<H> {
    pub config: WidgetConfigView,
    pub callbacks: CallbackRegistry<H>,
    pub image_name: Seq<char>,
    pub scaled: bool,
}

/// A widget that shows an image, either scaled to its bounds or placed in them by
/// the compass position under `CONFIG_IMAGE_POSITION`.
pub struct ImageWidget<H> {
    config: WidgetConfig,
    callback_registry: CallbackRegistry<H>,
    image_name: String,
    scaled: bool,
}

impl<H> View for ImageWidget<H> {
    type V = ImageWidgetView<H>;

    closed spec fn view(&self) -> ImageWidgetView<H> {
        ImageWidgetView {
            config: self.config@,
            callbacks: self.callback_registry,
            image_name: self.image_name@,
            scaled: self.scaled,
        }
    }
}

impl<H> Widget<H> for ImageWidget<H> {
    open spec fn config_of(v: ImageWidgetView<H>) -> WidgetConfigView {
        v.config
    }

    open spec fn callbacks_of(v: ImageWidgetView<H>) -> CallbackRegistry<H> {
        v.callbacks
    }

    open spec fn with_config(v: ImageWidgetView<H>, c: WidgetConfigView) -> ImageWidgetView<H> {
        ImageWidgetView { config: c, ..v }
    }

    open spec fn with_callbacks(v: ImageWidgetView<H>, r: CallbackRegistry<H>) -> ImageWidgetView<H> {
        ImageWidgetView { callbacks: r, ..v }
    }

    open spec fn config_changed(v: ImageWidgetView<H>, k: u8, value: ConfigValue) -> ImageWidgetView<H> {
        v
    }

    fn config(&self) -> (c: &WidgetConfig) {
        &self.config
    }

    fn get_config(&mut self) -> (c: &mut WidgetConfig) {
        &mut self.config
    }

    fn callbacks(&self) -> (r: &CallbackRegistry<H>) {
        &self.callback_registry
    }

    fn get_callbacks(&mut self) -> (r: &mut CallbackRegistry<H>) {
        &mut self.callback_registry
    }

    fn on_config_changed(&mut self, k: u8, v: Config) {
    }
}

impl<H> ImageWidget<H> {
    /// An image widget at `points` of size `size` for the image `image_name`,
    /// scaled to the bounds if `scaled`.
    pub fn new(image_name: String, points: Points, size: Size, scaled: bool) -> (w: ImageWidget<H>)
        ensures
            w@ == (ImageWidgetView {
                config: WidgetConfigView::initial(points[0], points[1], size[0], size[1]),
                callbacks: CallbackRegistry::<H>::empty(),
                image_name: image_name@,
                scaled,
            }),
    {
        ImageWidget {
            config: WidgetConfig::new(points[0], points[1], size[0], size[1]),
            callback_registry: CallbackRegistry::new(),
            image_name,
            scaled,
        }
    }

    /// The name of the image.
    pub fn get_image_name(&self) -> (t: String)
        ensures
            t@ == self@.image_name,
    {
        self.image_name.clone()
    }

    /// Whether the image is scaled to the bounds.
    pub fn is_scaled(&self) -> (b: bool)
        ensures
            b == self@.scaled,
    {
        self.scaled
    }
}

/// Where along one axis an image of extent `image` starts inside a widget of extent
/// `widget`: at the near edge, in the middle, or against the far edge.
pub open spec fn spec_placed(column: int, widget: u32, image: u32) -> int {
    if column == 0 {
        0
    } else if column == 1 {
        truncated_half(widget - image)
    } else {
        widget - image
    }
}

/// The column of a compass position: 0 for the west, 1 for the middle, 2 for the east.
pub open spec fn compass_column(position: CompassPosition) -> int {
    match position {
        CompassPosition::NW | CompassPosition::W | CompassPosition::SW => 0,
        CompassPosition::N | CompassPosition::Center | CompassPosition::S => 1,
        CompassPosition::NE | CompassPosition::E | CompassPosition::SE => 2,
    }
}

/// The row of a compass position: 0 for the north, 1 for the middle, 2 for the south.
pub open spec fn compass_row(position: CompassPosition) -> int {
    match position {
        CompassPosition::NW | CompassPosition::N | CompassPosition::NE => 0,
        CompassPosition::W | CompassPosition::Center | CompassPosition::E => 1,
        CompassPosition::SW | CompassPosition::S | CompassPosition::SE => 2,
    }
}

/// The upper left-hand corner, inside a widget of size `widget`, of an image of
/// size `image` that sits at `position`.
pub fn image_origin(position: CompassPosition, widget: Size, image: Size) -> (p: (i64, i64))
    ensures
        p.0 == spec_placed(compass_column(position), widget[0], image[0]),
        p.1 == spec_placed(compass_row(position), widget[1], image[1]),
{
    let free_w: i64 = widget[0] as i64 - image[0] as i64;
    let free_h: i64 = widget[1] as i64 - image[1] as i64;
    let x: i64 = match position {
        CompassPosition::NW | CompassPosition::W | CompassPosition::SW => 0,
        CompassPosition::N | CompassPosition::Center | CompassPosition::S => free_w / 2,
        CompassPosition::NE | CompassPosition::E | CompassPosition::SE => free_w,
    };
    let y: i64 = match position {
        CompassPosition::NW | CompassPosition::N | CompassPosition::NE => 0,
        CompassPosition::W | CompassPosition::Center | CompassPosition::E => free_h / 2,
        CompassPosition::SW | CompassPosition::S | CompassPosition::SE => free_h,
    };
    (x, y)
}

impl<H> ImageWidgetView<H> {
    /// The steps of painting the widget: its body, then its image.
    pub open spec fn drawn(self) -> Seq<DrawCommandView> {
        seq![
            DrawCommandView::Fill {
                area: self.config.area(),
                color: self.config.color(CONFIG_COLOR_BASE),
            },
            DrawCommandView::Image {
                area: self.config.area(),
                image_name: self.image_name,
                scaled: self.scaled,
                position: self.config.compass(CONFIG_IMAGE_POSITION),
            },
        ]
    }
}

impl<H> ImageWidget<H> {
    /// The steps of painting the widget.
    pub fn draw(&self) -> (commands: Vec<DrawCommand>)
        ensures
            steps(commands@) == self@.drawn(),
    {
        let area = self.config.area();
        let mut commands: Vec<DrawCommand> = Vec::new();
        add_step(
            &mut commands,
            DrawCommand::Fill { area, color: self.config.get_color(CONFIG_COLOR_BASE) },
        );
        add_step(
            &mut commands,
            DrawCommand::Image {
                area,
                image_name: self.image_name.clone(),
                scaled: self.scaled,
                position: self.config.get_compass(CONFIG_IMAGE_POSITION),
            },
        );
        assert(steps(commands@) =~= self@.drawn());
        commands
    }
}

} // verus!
