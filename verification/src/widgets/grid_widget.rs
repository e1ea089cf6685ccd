use crate::render::{Points, Size};
use crate::render::callbacks::CallbackRegistry;
use crate::render::draw::{
    add_border, add_step, border, DrawCommand, DrawCommandView, move_by, moved, steps,
};
use crate::render::widget::{Rect, Widget};
use crate::render::widget_config::{
    Color, Config, CONFIG_BORDER_WIDTH, CONFIG_COLOR_BASE, CONFIG_COLOR_BORDER, ConfigValue,
    WidgetConfig, WidgetConfigView,
};
use vstd::prelude::*;

verus! {

/// A grid widget as a mathematical value.
pub struct GridWidgetView<H> {
    pub config: WidgetConfigView,
    pub callbacks: CallbackRegistry<H>,
    pub grid_size: u32,
}

/// A widget that shows a grid of lines, `grid_size` apart, for other widgets to
/// snap to.
pub struct GridWidget<H> {
    config: WidgetConfig,
    callback_registry: CallbackRegistry<H>,
    grid_size: u32,
}

impl<H> View for GridWidget<H> {
    type V = GridWidgetView<H>;

    closed spec fn view(&self) -> GridWidgetView<H> {
        GridWidgetView {
            config: self.config@,
            callbacks: self.callback_registry,
            grid_size: self.grid_size,
        }
    }
}

impl<H> Widget<H> for GridWidget<H> {
    open spec fn config_of(v: GridWidgetView<H>) -> WidgetConfigView {
        v.config
    }

    open spec fn callbacks_of(v: GridWidgetView<H>) -> CallbackRegistry<H> {
        v.callbacks
    }

    open spec fn with_config(v: GridWidgetView<H>, c: WidgetConfigView) -> GridWidgetView<H> {
        GridWidgetView { config: c, ..v }
    }

    open spec fn with_callbacks(v: GridWidgetView<H>, r: CallbackRegistry<H>) -> GridWidgetView<H> {
        GridWidgetView { callbacks: r, ..v }
    }

    open spec fn config_changed(v: GridWidgetView<H>, k: u8, value: ConfigValue) -> GridWidgetView<H> {
        v
    }

    fn config(&self) -> (c: &WidgetConfig) {
        &self.config
    }

    fn get_config(&mut self) -> (c: &mut WidgetConfig) {
        &mut self.config
    }

    fn callbacks(&self) -> (r: &CallbackRegistry<H>) {
        &self.callback_registry
    }

    fn get_callbacks(&mut self) -> (r: &mut CallbackRegistry<H>) {
        &mut self.callback_registry
    }

    fn on_config_changed(&mut self, k: u8, v: Config) {
    }
}

/// The number of grid lines across an extent of `extent` with `grid_size` between
/// two lines: one at 0 and one at every further multiple of `grid_size` below the
/// extent.
pub open spec fn line_count(extent: u32, grid_size: u32) -> int {
    (extent + grid_size - 1) / (grid_size as int)
}

/// The places of the grid lines across an extent of `extent` with `grid_size`
/// between two lines.
pub fn grid_lines(extent: u32, grid_size: u32) -> (lines: Vec<u32>)
    requires
        grid_size > 0,
    ensures
        lines@.len() == line_count(extent, grid_size),
        forall|k: int| 0 <= k < lines@.len() ==> #[trigger] lines@[k] == k * grid_size,
{
    let mut lines: Vec<u32> = Vec::new();
    let mut at: u64 = 0;
    assert(0 * grid_size == 0) by (nonlinear_arith);
    while at < extent as u64
        invariant
            grid_size > 0,
            at == lines@.len() * grid_size,
            at < extent + grid_size,
            forall|k: int| 0 <= k < lines@.len() ==> #[trigger] lines@[k] == k * grid_size,
        decreases extent + grid_size - at,
    {
        lines.push(at as u32);
        assert((lines@.len() - 1) * grid_size + grid_size == lines@.len() * grid_size)
            by (nonlinear_arith);
        at = at + grid_size as u64;
    }
    proof {
        let n = lines@.len() as int;
        let g = grid_size as int;
        let e = extent as int;
        assert(n == (e + g - 1) / g) by (nonlinear_arith)
            requires
                g > 0,
                e >= 0,
                n >= 0,
                n * g >= e,
                n * g < e + g,
        ;
    }
    lines
}

impl<H> GridWidget<H> {
    /// A grid widget at `points` of size `size` with `grid_size` between two lines.
    pub fn new(points: Points, size: Size, grid_size: u32) -> (w: GridWidget<H>)
        ensures
            w@ == (GridWidgetView {
                config: WidgetConfigView::initial(points[0], points[1], size[0], size[1]),
                callbacks: CallbackRegistry::<H>::empty(),
                grid_size,
            }),
    {
        GridWidget {
            config: WidgetConfig::new(points[0], points[1], size[0], size[1]),
            callback_registry: CallbackRegistry::new(),
            grid_size,
        }
    }

    /// Puts `grid_size` between two lines from now on, and asks for a redraw.
    pub fn set_grid_size(&mut self, grid_size: u32)
        ensures
            final(self)@ == (GridWidgetView {
                grid_size,
                config: old(self)@.config.invalidate(),
                ..old(self)@
            }),
    {
        self.grid_size = grid_size;
        self.config.set_invalidated(true);
    }

    /// The distance between two lines.
    pub fn get_grid_size(&self) -> (g: u32)
        ensures
            g == self@.grid_size,
    {
        self.grid_size
    }
}

/// The grey of the lines of a grid.
pub open spec fn line_color() -> Color {
    Color { r: 192, g: 192, b: 192, a: 255 }
}

/// The number of lines of a grid across `extent`: none for a grid without a
/// distance between its lines.
pub open spec fn lines_across(extent: u32, grid_size: u32) -> nat {
    if grid_size == 0 {
        0
    } else {
        line_count(extent, grid_size) as nat
    }
}

/// The first `n` upright lines of a grid in `area`, from top to bottom of it,
/// `grid_size` apart from the left edge on.
pub open spec fn upright_lines(area: Rect, grid_size: u32, n: nat) -> Seq<DrawCommandView>
    decreases n,
{
    if n == 0 {
        Seq::<DrawCommandView>::empty()
    } else {
        upright_lines(area, grid_size, (n - 1) as nat).push(
            DrawCommandView::Line {
                x1: moved(area.x, (n - 1) * grid_size),
                y1: area.y,
                x2: moved(area.x, (n - 1) * grid_size),
                y2: moved(area.y, area.h as int),
                color: line_color(),
            },
        )
    }
}

/// The first `n` level lines of a grid in `area`, from the left to the right of it,
/// `grid_size` apart from the upper edge on.
pub open spec fn level_lines(area: Rect, grid_size: u32, n: nat) -> Seq<DrawCommandView>
    decreases n,
{
    if n == 0 {
        Seq::<DrawCommandView>::empty()
    } else {
        level_lines(area, grid_size, (n - 1) as nat).push(
            DrawCommandView::Line {
                x1: area.x,
                y1: moved(area.y, (n - 1) * grid_size),
                x2: moved(area.x, area.w as int),
                y2: moved(area.y, (n - 1) * grid_size),
                color: line_color(),
            },
        )
    }
}

impl<H> GridWidgetView<H> {
    /// The steps of painting the widget: its body, the upright lines from left to
    /// right, the level lines from top to bottom, and the border.
    pub open spec fn drawn(self) -> Seq<DrawCommandView> {
        seq![
            DrawCommandView::Fill {
                area: self.config.area(),
                color: self.config.color(CONFIG_COLOR_BASE),
            },
        ] + upright_lines(
            self.config.area(),
            self.grid_size,
            lines_across(self.config.extent().0, self.grid_size),
        ) + level_lines(
            self.config.area(),
            self.grid_size,
            lines_across(self.config.extent().1, self.grid_size),
        ) + border(
            self.config.area(),
            self.config.color(CONFIG_COLOR_BASE),
            self.config.color(CONFIG_COLOR_BORDER),
            self.config.numeric(CONFIG_BORDER_WIDTH),
        )
    }
}

impl<H> GridWidget<H> {
    /// The steps of painting the widget. A grid without a distance between its
    /// lines has no lines.
    pub fn draw(&self) -> (commands: Vec<DrawCommand>)
        ensures
            steps(commands@) == self@.drawn(),
    {
        let area = self.config.area();
        let base_color = self.config.get_color(CONFIG_COLOR_BASE);
        let mut commands: Vec<DrawCommand> = Vec::new();
        add_step(&mut commands, DrawCommand::Fill { area, color: base_color });
        let ghost filled = steps(commands@);
        if self.grid_size > 0 {
            let columns = grid_lines(area.w, self.grid_size);
            let bottom = move_by(area.y, area.h as i64);
            let mut i: usize = 0;
            assert(steps(commands@) =~= filled + upright_lines(area, self.grid_size, 0));
            while i < columns.len()
                invariant
                    i <= columns.len(),
                    bottom == moved(area.y, area.h as int),
                    forall|k: int|
                        0 <= k < columns@.len() ==> #[trigger] columns@[k] == k * self.grid_size,
                    steps(commands@) == filled + upright_lines(area, self.grid_size, i as nat),
                decreases columns.len() - i,
            {
                let x = move_by(area.x, columns[i] as i64);
                add_step(
                    &mut commands,
                    DrawCommand::Line {
                        x1: x,
                        y1: area.y,
                        x2: x,
                        y2: bottom,
                        color: Color::RGB(192, 192, 192),
                    },
                );
                i = i + 1;
                assert(steps(commands@) =~= filled + upright_lines(area, self.grid_size, i as nat));
            }
        } else {
            assert(steps(commands@) =~= filled + upright_lines(area, self.grid_size, 0));
        }
        let ghost upright = steps(commands@);
        if self.grid_size > 0 {
            let rows = grid_lines(area.h, self.grid_size);
            let right = move_by(area.x, area.w as i64);
            let mut i: usize = 0;
            assert(steps(commands@) =~= upright + level_lines(area, self.grid_size, 0));
            while i < rows.len()
                invariant
                    i <= rows.len(),
                    right == moved(area.x, area.w as int),
                    forall|k: int| 0 <= k < rows@.len() ==> #[trigger] rows@[k] == k * self.grid_size,
                    steps(commands@) == upright + level_lines(area, self.grid_size, i as nat),
                decreases rows.len() - i,
            {
                let y = move_by(area.y, rows[i] as i64);
                add_step(
                    &mut commands,
                    DrawCommand::Line {
                        x1: area.x,
                        y1: y,
                        x2: right,
                        y2: y,
                        color: Color::RGB(192, 192, 192),
                    },
                );
                i = i + 1;
                assert(steps(commands@) =~= upright + level_lines(area, self.grid_size, i as nat));
            }
        } else {
            assert(steps(commands@) =~= upright + level_lines(area, self.grid_size, 0));
        }
        add_border(
            &mut commands,
            area,
            base_color,
            self.config.get_color(CONFIG_COLOR_BORDER),
            self.config.get_numeric(CONFIG_BORDER_WIDTH),
        );
        assert(steps(commands@) =~= self@.drawn());
        commands
    }
}

} // verus!
