//! The heatmap: a grid of cells whose colour runs from the weak background
//! to the strong accent with the value of the cell.

use vstd::prelude::*;
use vstd::string::*;
use crate::charts::cache::GeometryCache;
use crate::charts::geometry::Color;
use crate::charts::geometry::Cursor;
use crate::charts::geometry::HorizontalAlign;
use crate::charts::geometry::Interaction;
use crate::charts::geometry::Point;
use crate::charts::geometry::Rectangle;
use crate::charts::geometry::Size;
use crate::charts::geometry::Theme;
use crate::charts::geometry::VerticalAlign;
use crate::charts::interaction::ChartKind;
use crate::charts::interaction::Event;
use crate::charts::model::HeatmapGrid;
use crate::charts::model::InteractionConfig;
use crate::charts::model::InteractionState;
use crate::charts::model::LineChartConfig;
use crate::charts::numeric::clamp;
use crate::charts::numeric::div_floor;
use crate::charts::numeric::lemma_div_bound;
use crate::charts::numeric::lemma_mul_bound;
use crate::charts::numeric::max_int;
use crate::charts::numeric::min_int;
use crate::charts::numeric::mul_wide;
use crate::charts::numeric::sat;
use crate::charts::numeric::saturate;
use crate::charts::parts::emit_selection;
use crate::charts::parts::make_tooltip;
use crate::charts::parts::selection_shapes;
use crate::charts::parts::tooltip_at;
use crate::charts::parts::LABEL_SIZE;
use crate::charts::scale::lemma_slot_index_inverts;
use crate::charts::scale::slot;
use crate::charts::scale::slot_index;
use crate::charts::scale::slot_middle;
use crate::charts::scale::slot_start;
use crate::charts::scale::spec_slot;
use crate::charts::scale::spec_slot_index;
use crate::charts::scale::spec_slot_middle;
use crate::charts::scale::spec_slot_start;
use crate::charts::scale::spec_span;
use crate::charts::scale::Plot;
use crate::charts::shape::emit;
use crate::charts::shape::layer_views;
use crate::charts::shape::views;
use crate::charts::shape::Shape;
use crate::charts::shape::ShapeView;
use crate::text::append_fixed2;
use crate::text::fixed2;

verus! {

/// A heatmap over one grid.
#[derive(Debug, Clone, PartialEq, Eq)]
pub struct HeatmapChart {
    pub grid: HeatmapGrid,
    pub config: LineChartConfig,
    pub interaction: InteractionConfig,
}

/// A cell of a heatmap.
#[derive(Debug, Clone, Copy, PartialEq, Eq, Structural)]
pub struct Cell {
    pub row: usize,
    pub col: usize,
}

/// One channel of a blend: `a` at `t` of zero and below, `b` at `t` of one
/// and above, and in between the share `t` of the way from `a` to `b`.
pub open spec fn spec_lerp_channel(a: int, b: int, t: int) -> int {
    sat(a + ((b - a) * clamp(t, 0, 1000)) / 1000)
}

/// The blend of two colours, channel by channel, alpha too.
pub open spec fn spec_lerp_color(a: Color, b: Color, t: int) -> Color {
    Color {
        r: spec_lerp_channel(a.r as int, b.r as int, t) as i32,
        g: spec_lerp_channel(a.g as int, b.g as int, t) as i32,
        b: spec_lerp_channel(a.b as int, b.b as int, t) as i32,
        a: spec_lerp_channel(a.a as int, b.a as int, t) as i32,
    }
}

fn lerp_channel(a: i32, b: i32, t: i32) -> (c: i32)
    requires
        0 <= t <= 1000,
    ensures
        c == spec_lerp_channel(a as int, b as int, t as int),
{
    let step: i128 = div_floor(mul_wide(b as i64 - a as i64, t as i64), 1000);
    proof {
        lemma_mul_bound(b as int - a as int, t as int, 0x1_0000_0000, 1000);
        lemma_div_bound((b as int - a as int) * t as int, 1000, 0x1_0000_0000int * 1000int);
    }
    saturate(a as i128 + step)
}

/// Blends `a` and `b`. `t` is the share of `b`, in thousandths; it is
/// limited to the interval from zero to one.
pub fn lerp_color(a: Color, b: Color, t: i32) -> (c: Color)
    ensures
        c == spec_lerp_color(a, b, t as int),
{
    let t: i32 = if t < 0 {
        0
    } else if t > 1000 {
        1000
    } else {
        t
    };
    Color {
        r: lerp_channel(a.r, b.r, t),
        g: lerp_channel(a.g, b.g, t),
        b: lerp_channel(a.b, b.b, t),
        a: lerp_channel(a.a, b.a, t),
    }
}

/// The least and the greatest value once one more value is taken in.
pub open spec fn widen(range: Option<(i32, i32)>, v: i32) -> Option<(i32, i32)> {
    match range {
        None => Some((v, v)),
        Some(r) => Some(
            (min_int(r.0 as int, v as int) as i32, max_int(r.1 as int, v as int) as i32),
        ),
    }
}

/// The least and the greatest of `start` and the first `k` values of `row`.
pub open spec fn range_of_row(start: Option<(i32, i32)>, row: Seq<i32>, k: nat) -> Option<
    (i32, i32),
>
    decreases k,
{
    if k == 0 {
        start
    } else {
        widen(range_of_row(start, row, (k - 1) as nat), row[k - 1])
    }
}

/// The least and the greatest value of the first `k` rows; none if they
/// hold no value.
pub open spec fn range_of_rows(rows: Seq<Vec<i32>>, k: nat) -> Option<(i32, i32)>
    decreases k,
{
    if k == 0 {
        None
    } else {
        range_of_row(range_of_rows(rows, (k - 1) as nat), rows[k - 1]@, rows[k - 1]@.len())
    }
}

/// How far `value` lies between the least and the greatest value, in
/// thousandths. A range of less than one unit counts as one unit.
pub open spec fn spec_intensity(value: int, range: (i32, i32)) -> int {
    ((value - range.0) * 1000) / spec_span(range.0 as int, range.1 as int)
}

/// The text of a tooltip on a cell: the row label, the column label and
/// the value with two decimal places.
pub open spec fn cell_label(row: Seq<char>, col: Seq<char>, value: int) -> Seq<char> {
    row + " / "@ + col + ": "@ + fixed2(value)
}

/// Builds the text of a tooltip on a cell.
pub fn make_cell_label(row: &String, col: &String, value: i32) -> (label: String)
    ensures
        label@ == cell_label(row@, col@, value as int),
{
    let mut label = row.clone();
    label.append(" / ");
    label.append(col.as_str());
    label.append(": ");
    append_fixed2(&mut label, value);
    label
}

impl HeatmapChart {
    /// A chart with the default rendering parameters and every interaction
    /// enabled.
    pub open spec fn spec_new(grid: HeatmapGrid) -> HeatmapChart {
        HeatmapChart {
            grid,
            config: LineChartConfig { padding: 40_000, grid_lines: 5 },
            interaction: InteractionConfig {
                enable_hover: true,
                enable_zoom: true,
                enable_pan: true,
                enable_selection: true,
            },
        }
    }

    pub fn new(grid: HeatmapGrid) -> (chart: Self)
        ensures
            chart == HeatmapChart::spec_new(grid),
    {
        HeatmapChart {
            grid,
            config: LineChartConfig::default(),
            interaction: InteractionConfig::default(),
        }
    }

    pub fn with_config(self, config: LineChartConfig) -> (chart: Self)
        ensures
            chart.grid == self.grid,
            chart.config == config,
            chart.interaction == self.interaction,
    {
        HeatmapChart { grid: self.grid, config, interaction: self.interaction }
    }

    pub fn with_interaction(self, interaction: InteractionConfig) -> (chart: Self)
        ensures
            chart.grid == self.grid,
            chart.config == self.config,
            chart.interaction == interaction,
    {
        HeatmapChart { grid: self.grid, config: self.config, interaction }
    }

    /// Whether there is nothing to draw: no column or no row.
    pub open spec fn is_empty(&self) -> bool {
        self.grid.x_labels@.len() == 0 || self.grid.y_labels@.len() == 0
    }

    /// The least and the greatest value of the grid; none if it holds no
    /// value.
    pub open spec fn spec_value_range(&self) -> Option<(i32, i32)> {
        range_of_rows(self.grid.values@, self.grid.values@.len())
    }

    /// The width of a cell.
    pub open spec fn cell_width(&self, state: InteractionState, plot: Plot) -> int {
        spec_slot(
            plot.spec_width(),
            self.grid.x_labels@.len() as int,
            state.spec_effective_zoom(),
        )
    }

    /// The height of a cell.
    pub open spec fn cell_height(&self, state: InteractionState, plot: Plot) -> int {
        spec_slot(
            plot.spec_height(),
            self.grid.y_labels@.len() as int,
            state.spec_effective_zoom(),
        )
    }

    /// The colour of a cell of the given value.
    pub open spec fn cell_color(&self, theme: Theme, value: i32) -> Color {
        spec_lerp_color(
            theme.background_weak,
            theme.primary_strong,
            spec_intensity(value as int, self.spec_value_range()->0),
        )
    }

    /// The rectangle of the cell in row `y` and column `x`, filled with the
    /// colour of its value. A cell is drawn at least one pixel wide and
    /// high.
    pub open spec fn cell_shape(
        &self,
        state: InteractionState,
        plot: Plot,
        theme: Theme,
        y: int,
        x: int,
    ) -> ShapeView {
        ShapeView::FillRect {
            rect: Rectangle {
                x: spec_slot_start(
                    plot.left as int,
                    x,
                    self.cell_width(state, plot),
                    state.pan.x as int,
                ) as i32,
                y: spec_slot_start(
                    plot.top as int,
                    y,
                    self.cell_height(state, plot),
                    state.pan.y as int,
                ) as i32,
                width: sat(max_int(self.cell_width(state, plot), 1000)) as i32,
                height: sat(max_int(self.cell_height(state, plot), 1000)) as i32,
            },
            color: self.cell_color(theme, self.grid.values@[y]@[x]),
        }
    }

    /// The first `k` cells of row `y`.
    pub open spec fn row_cells(
        &self,
        state: InteractionState,
        plot: Plot,
        theme: Theme,
        y: int,
        k: nat,
    ) -> Seq<ShapeView>
        decreases k,
    {
        if k == 0 {
            Seq::empty()
        } else {
            self.row_cells(state, plot, theme, y, (k - 1) as nat).push(
                self.cell_shape(state, plot, theme, y, k - 1),
            )
        }
    }

    /// The cells of the first `k` rows, row by row.
    pub open spec fn cells(&self, state: InteractionState, plot: Plot, theme: Theme, k: nat) -> Seq<
        ShapeView,
    >
        decreases k,
    {
        if k == 0 {
            Seq::empty()
        } else {
            self.cells(state, plot, theme, (k - 1) as nat) + self.row_cells(
                state,
                plot,
                theme,
                k - 1,
                self.grid.values@[k - 1]@.len(),
            )
        }
    }

    /// The label of column `x`, centred under the column.
    pub open spec fn column_label(
        &self,
        state: InteractionState,
        plot: Plot,
        theme: Theme,
        x: int,
    ) -> ShapeView {
        ShapeView::Text {
            content: self.grid.x_labels@[x]@,
            position: Point {
                x: spec_slot_middle(
                    plot.left as int,
                    x,
                    self.cell_width(state, plot),
                    state.pan.x as int,
                ) as i32,
                y: sat(plot.bottom + 8000) as i32,
            },
            color: theme.text,
            size: LABEL_SIZE,
            align_x: HorizontalAlign::Center,
            align_y: VerticalAlign::Top,
        }
    }

    /// The label of row `y`, to the left of the middle of the row.
    pub open spec fn row_label(
        &self,
        state: InteractionState,
        plot: Plot,
        theme: Theme,
        y: int,
    ) -> ShapeView {
        ShapeView::Text {
            content: self.grid.y_labels@[y]@,
            position: Point {
                x: sat(plot.left - 8000) as i32,
                y: spec_slot_middle(
                    plot.top as int,
                    y,
                    self.cell_height(state, plot),
                    state.pan.y as int,
                ) as i32,
            },
            color: theme.text,
            size: LABEL_SIZE,
            align_x: HorizontalAlign::Right,
            align_y: VerticalAlign::Center,
        }
    }

    /// The labels of all columns. No label is left out.
    pub open spec fn column_labels(&self, state: InteractionState, plot: Plot, theme: Theme) -> Seq<
        ShapeView,
    > {
        Seq::new(
            self.grid.x_labels@.len(),
            |x: int| self.column_label(state, plot, theme, x),
        )
    }

    /// The labels of all rows. No label is left out.
    pub open spec fn row_labels(&self, state: InteractionState, plot: Plot, theme: Theme) -> Seq<
        ShapeView,
    > {
        Seq::new(self.grid.y_labels@.len(), |y: int| self.row_label(state, plot, theme, y))
    }

    /// The base layer: nothing if there is no column, no row or no room
    /// for a plot, else the cells, the column labels and the row labels.
    pub open spec fn base_shapes(
        &self,
        state: InteractionState,
        size: Size,
        theme: Theme,
    ) -> Seq<ShapeView> {
        match Plot::spec_within(size, self.config.padding) {
            Some(plot) => if self.is_empty() {
                Seq::empty()
            } else {
                self.cells(state, plot, theme, self.grid.values@.len()) + self.column_labels(
                    state,
                    plot,
                    theme,
                ) + self.row_labels(state, plot, theme)
            },
            None => Seq::empty(),
        }
    }

    /// The cell under a pointer at `at`, in the pixel space of a viewport
    /// of `size`: the column and the row whose slots `at` falls in, if `at`
    /// is in the plot rectangle and the grid has a value there.
    pub open spec fn cell_at(&self, state: InteractionState, size: Size, at: Point) -> Option<
        Cell,
    > {
        match Plot::spec_within(size, self.config.padding) {
            Some(plot) => {
                let w = self.cell_width(state, plot);
                let h = self.cell_height(state, plot);
                let col = spec_slot_index(at.x as int, plot.left as int, w, state.pan.x as int);
                let row = spec_slot_index(at.y as int, plot.top as int, h, state.pan.y as int);
                if !self.is_empty() && plot.spec_holds(at) && w > 0 && h > 0 && 0 <= col
                    < self.grid.x_labels@.len() && 0 <= row < self.grid.y_labels@.len() && row
                    < self.grid.values@.len() && col < self.grid.values@[row]@.len() {
                    Some(Cell { row: row as usize, col: col as usize })
                } else {
                    None
                }
            },
            None => None,
        }
    }

    /// The cell under the pointer, if the pointer is over one.
    pub open spec fn spec_hit_test(
        &self,
        state: InteractionState,
        bounds: Rectangle,
        cursor: Cursor,
    ) -> Option<Cell> {
        match cursor.spec_position_in(bounds) {
            Some(at) => self.cell_at(state, bounds.spec_size(), at),
            None => None,
        }
    }

    /// The overlay for a pointer at `at`: the tooltip of the cell under it,
    /// if there is one, and the outline of the selection, if there is one.
    pub open spec fn overlay_shapes(
        &self,
        state: InteractionState,
        size: Size,
        theme: Theme,
        at: Point,
    ) -> Seq<ShapeView> {
        (match self.cell_at(state, size, at) {
            Some(cell) => seq![
                tooltip_at(
                    cell_label(
                        self.grid.y_labels@[cell.row as int]@,
                        self.grid.x_labels@[cell.col as int]@,
                        self.grid.values@[cell.row as int]@[cell.col as int] as int,
                    ),
                    at,
                    theme,
                ),
            ],
            None => Seq::empty(),
        }) + selection_shapes(state, theme)
    }

    /// The layers of one frame around a given base layer: none if the grid
    /// has no column or no row, else the base layer and, with the pointer
    /// inside `bounds`, the overlay.
    pub open spec fn layers(
        &self,
        state: InteractionState,
        theme: Theme,
        bounds: Rectangle,
        cursor: Cursor,
        base: Seq<ShapeView>,
    ) -> Seq<Seq<ShapeView>> {
        if self.is_empty() {
            Seq::empty()
        } else {
            match cursor.spec_position_in(bounds) {
                Some(at) => seq![base, self.overlay_shapes(state, bounds.spec_size(), theme, at)],
                None => seq![base],
            }
        }
    }

    /// Applies one event to the view state and says whether a redraw is
    /// wanted.
    pub fn update(
        &self,
        state: &mut InteractionState,
        event: &Event,
        bounds: Rectangle,
        cursor: Cursor,
    ) -> (redraw: bool)
        ensures
            *final(state) == old(state).after(
                ChartKind::Heatmap,
                self.interaction,
                *event,
                bounds,
                cursor,
            ),
            redraw == old(state).requests_redraw(self.interaction, *event),
    {
        state.handle(ChartKind::Heatmap, &self.interaction, event, bounds, cursor)
    }

    /// The least and the greatest value of the grid.
    pub fn value_range(&self) -> (range: Option<(i32, i32)>)
        ensures
            range == self.spec_value_range(),
    {
        let mut range: Option<(i32, i32)> = None;
        let mut y: usize = 0;
        while y < self.grid.values.len()
            invariant
                y <= self.grid.values@.len(),
                range == range_of_rows(self.grid.values@, y as nat),
            decreases self.grid.values.len() - y,
        {
            let row = &self.grid.values[y];
            let mut x: usize = 0;
            while x < row.len()
                invariant
                    x <= row@.len(),
                    y < self.grid.values@.len(),
                    row == &self.grid.values@[y as int],
                    range == range_of_row(
                        range_of_rows(self.grid.values@, y as nat),
                        row@,
                        x as nat,
                    ),
                decreases row.len() - x,
            {
                let v: i32 = row[x];
                range = match range {
                    None => Some((v, v)),
                    Some(r) => Some(
                        (
                            if v < r.0 {
                                v
                            } else {
                                r.0
                            },
                            if v > r.1 {
                                v
                            } else {
                                r.1
                            },
                        ),
                    ),
                };
                x += 1;
            }
            y += 1;
        }
        range
    }

    fn intensity(value: i32, range: (i32, i32)) -> (t: i32)
        ensures
            t == sat(spec_intensity(value as int, range)),
    {
        let span: i64 = crate::charts::scale::span(range.0, range.1);
        saturate(div_floor((value as i128 - range.0 as i128) * 1000, span as i128))
    }

    fn emit_cells(
        &self,
        shapes: &mut Vec<Shape>,
        state: &InteractionState,
        plot: Plot,
        theme: &Theme,
        w: i64,
        h: i64,
    )
        requires
            w == self.cell_width(*state, plot),
            h == self.cell_height(*state, plot),
            0 <= w <= 0x40_0000_0000_0000,
            0 <= h <= 0x40_0000_0000_0000,
        ensures
            views(final(shapes)@) == views(old(shapes)@) + self.cells(
                *state,
                plot,
                *theme,
                self.grid.values@.len(),
            ),
    {
        let ghost start = views(shapes@);
        let range = self.value_range();
        let wide: i32 = saturate(if w >= 1000 { w as i128 } else { 1000 });
        let high: i32 = saturate(if h >= 1000 { h as i128 } else { 1000 });
        let mut y: usize = 0;
        while y < self.grid.values.len()
            invariant
                y <= self.grid.values@.len(),
                w == self.cell_width(*state, plot),
                h == self.cell_height(*state, plot),
                wide == sat(max_int(w as int, 1000)),
                high == sat(max_int(h as int, 1000)),
                range == self.spec_value_range(),
                views(shapes@) == start + self.cells(*state, plot, *theme, y as nat),
            decreases self.grid.values.len() - y,
        {
            let row = &self.grid.values[y];
            let py: i32 = slot_start(plot.top, y, h, state.pan.y);
            let ghost before = views(shapes@);
            let mut x: usize = 0;
            while x < row.len()
                invariant
                    x <= row@.len(),
                    y < self.grid.values@.len(),
                    row == &self.grid.values@[y as int],
                    w == self.cell_width(*state, plot),
                    h == self.cell_height(*state, plot),
                    wide == sat(max_int(w as int, 1000)),
                    high == sat(max_int(h as int, 1000)),
                    range == self.spec_value_range(),
                    py == spec_slot_start(plot.top as int, y as int, h as int, state.pan.y as int),
                    views(shapes@) == before + self.row_cells(
                        *state,
                        plot,
                        *theme,
                        y as int,
                        x as nat,
                    ),
                decreases row.len() - x,
            {
                let value: i32 = row[x];
                proof {
                    lemma_range_is_some(
                        self.grid.values@,
                        self.grid.values@.len(),
                        y as int,
                        x as int,
                    );
                }
                let t: i32 = HeatmapChart::intensity(value, range.unwrap());
                let color = lerp_color(theme.background_weak, theme.primary_strong, t);
                proof {
                    let exact = spec_intensity(value as int, self.spec_value_range()->0);
                }
                emit(
                    shapes,
                    Shape::FillRect {
                        rect: Rectangle {
                            x: slot_start(plot.left, x, w, state.pan.x),
                            y: py,
                            width: wide,
                            height: high,
                        },
                        color,
                    },
                );
                x += 1;
            }
            y += 1;
        }
    }

    /// Computes the base layer for a viewport of `size`.
    pub fn base_geometry(
        &self,
        state: &InteractionState,
        size: Size,
        theme: &Theme,
    ) -> (shapes: Vec<Shape>)
        ensures
            views(shapes@) == self.base_shapes(*state, size, *theme),
    {
        let mut shapes: Vec<Shape> = Vec::new();
        let plot = match Plot::within(size, self.config.padding) {
            Some(plot) => plot,
            None => {
                return shapes;
            },
        };
        if self.grid.x_labels.len() == 0 || self.grid.y_labels.len() == 0 {
            return shapes;
        }
        let zoom: i32 = state.effective_zoom();
        let w: i64 = slot(plot.width(), self.grid.x_labels.len(), zoom);
        let h: i64 = slot(plot.height(), self.grid.y_labels.len(), zoom);
        self.emit_cells(&mut shapes, state, plot, theme, w, h);
        let ghost cells = views(shapes@);
        let mut x: usize = 0;
        while x < self.grid.x_labels.len()
            invariant
                x <= self.grid.x_labels@.len(),
                w == self.cell_width(*state, plot),
                0 <= w,
                views(shapes@) == cells + self.column_labels(*state, plot, *theme).subrange(
                    0,
                    x as int,
                ),
            decreases self.grid.x_labels.len() - x,
        {
            emit(
                &mut shapes,
                Shape::Text {
                    content: self.grid.x_labels[x].clone(),
                    position: Point {
                        x: slot_middle(plot.left, x, w, state.pan.x),
                        y: saturate(plot.bottom as i128 + 8000),
                    },
                    color: theme.text,
                    size: LABEL_SIZE,
                    align_x: HorizontalAlign::Center,
                    align_y: VerticalAlign::Top,
                },
            );
            x += 1;
        }
        let ghost columns = views(shapes@);
        let mut y: usize = 0;
        while y < self.grid.y_labels.len()
            invariant
                y <= self.grid.y_labels@.len(),
                h == self.cell_height(*state, plot),
                0 <= h,
                views(shapes@) == columns + self.row_labels(*state, plot, *theme).subrange(
                    0,
                    y as int,
                ),
            decreases self.grid.y_labels.len() - y,
        {
            emit(
                &mut shapes,
                Shape::Text {
                    content: self.grid.y_labels[y].clone(),
                    position: Point {
                        x: saturate(plot.left as i128 - 8000),
                        y: slot_middle(plot.top, y, h, state.pan.y),
                    },
                    color: theme.text,
                    size: LABEL_SIZE,
                    align_x: HorizontalAlign::Right,
                    align_y: VerticalAlign::Center,
                },
            );
            y += 1;
        }
        shapes
    }

    /// The cell under a pointer at `at`, in the pixel space of a viewport
    /// of `size`.
    pub fn cell_under(&self, state: &InteractionState, size: Size, at: Point) -> (hit: Option<
        Cell,
    >)
        ensures
            hit == self.cell_at(*state, size, at),
            hit matches Some(cell) ==> cell.row < self.grid.y_labels@.len() && cell.col
                < self.grid.x_labels@.len() && cell.row < self.grid.values@.len() && cell.col
                < self.grid.values@[cell.row as int]@.len(),
    {
        let plot = match Plot::within(size, self.config.padding) {
            Some(plot) => plot,
            None => {
                return None;
            },
        };
        let cols: usize = self.grid.x_labels.len();
        let rows: usize = self.grid.y_labels.len();
        if cols == 0 || rows == 0 || !plot.holds(at) {
            return None;
        }
        let zoom: i32 = state.effective_zoom();
        let w: i64 = slot(plot.width(), cols, zoom);
        let h: i64 = slot(plot.height(), rows, zoom);
        if w <= 0 || h <= 0 {
            return None;
        }
        let col: i128 = slot_index(at.x, plot.left, w, state.pan.x);
        let row: i128 = slot_index(at.y, plot.top, h, state.pan.y);
        if 0 <= col && col < cols as i128 && 0 <= row && row < rows as i128 && row
            < self.grid.values.len() as i128 {
            if col < self.grid.values[row as usize].len() as i128 {
                return Some(Cell { row: row as usize, col: col as usize });
            }
        }
        None
    }

    /// The cell under the pointer, if the pointer is over one.
    pub fn hit_test(
        &self,
        state: &InteractionState,
        bounds: Rectangle,
        cursor: Cursor,
    ) -> (hit: Option<Cell>)
        ensures
            hit == self.spec_hit_test(*state, bounds, cursor),
    {
        match cursor.position_in(bounds) {
            Some(at) => self.cell_under(state, bounds.size(), at),
            None => None,
        }
    }

    /// Computes the overlay for a pointer at `at`.
    pub fn overlay_geometry(
        &self,
        state: &InteractionState,
        size: Size,
        theme: &Theme,
        at: Point,
    ) -> (shapes: Vec<Shape>)
        ensures
            views(shapes@) == self.overlay_shapes(*state, size, *theme, at),
    {
        let mut shapes: Vec<Shape> = Vec::new();
        match self.cell_under(state, size, at) {
            Some(cell) => {
                let label = make_cell_label(
                    &self.grid.y_labels[cell.row],
                    &self.grid.x_labels[cell.col],
                    self.grid.values[cell.row][cell.col],
                );
                emit(&mut shapes, make_tooltip(label, at, theme));
            },
            None => {},
        }
        emit_selection(&mut shapes, state, theme);
        shapes
    }

    /// Draws one frame. A grid without a column or without a row gives no
    /// layers. Otherwise the base layer comes first, from the cache if the
    /// cache holds a layer for the size of `bounds` and computed and
    /// remembered if not; with the pointer inside `bounds` the overlay
    /// follows.
    pub fn draw(
        &self,
        cache: &mut GeometryCache,
        state: &InteractionState,
        theme: &Theme,
        bounds: Rectangle,
        cursor: Cursor,
    ) -> (layers: Vec<Vec<Shape>>)
        ensures
            layer_views(layers@) == self.layers(
                *state,
                *theme,
                bounds,
                cursor,
                old(cache).resolve(
                    bounds.spec_size(),
                    self.base_shapes(*state, bounds.spec_size(), *theme),
                ),
            ),
            self.is_empty() ==> layers@.len() == 0,
            self.is_empty() ==> *final(cache) == *old(cache),
            !self.is_empty() ==> final(cache).key() == Some(bounds.spec_size())
                && final(cache).layer() == old(cache).resolve(
                bounds.spec_size(),
                self.base_shapes(*state, bounds.spec_size(), *theme),
            ),
    {
        let mut layers: Vec<Vec<Shape>> = Vec::new();
        if self.grid.x_labels.len() == 0 || self.grid.y_labels.len() == 0 {
            return layers;
        }
        let size = bounds.size();
        let base = match cache.lookup(size) {
            Some(shapes) => shapes,
            None => {
                let shapes = self.base_geometry(state, size, theme);
                cache.store(size, &shapes);
                shapes
            },
        };
        layers.push(base);
        match cursor.position_in(bounds) {
            Some(at) => {
                let overlay = self.overlay_geometry(state, size, theme, at);
                layers.push(overlay);
            },
            None => {},
        }
        layers
    }

    /// The pointer shape to show: a crosshair inside `bounds`.
    pub fn mouse_interaction(
        &self,
        state: &InteractionState,
        bounds: Rectangle,
        cursor: Cursor,
    ) -> (shape: Interaction)
        ensures
            shape == if cursor.spec_position_in(bounds) is Some {
                Interaction::Crosshair
            } else {
                Interaction::Idle
            },
    {
        if cursor.position_in(bounds).is_some() {
            Interaction::Crosshair
        } else {
            Interaction::Idle
        }
    }
}

/// Whether `v` lies between the least and the greatest value.
pub open spec fn spans(range: (i32, i32), v: i32) -> bool {
    range.0 <= v <= range.1
}

/// A grid that holds a value has a least and a greatest value, and the
/// value lies between them.
pub proof fn lemma_range_is_some(rows: Seq<Vec<i32>>, k: nat, y: int, x: int)
    requires
        k <= rows.len(),
        0 <= y < k,
        0 <= x < rows[y]@.len(),
    ensures
        range_of_rows(rows, k) is Some,
        spans(range_of_rows(rows, k)->0, rows[y]@[x]),
    decreases k,
{
    let before = range_of_rows(rows, (k - 1) as nat);
    let last = rows[k - 1]@;
    if y < k - 1 {
        lemma_range_is_some(rows, (k - 1) as nat, y, x);
        lemma_range_keeps_start(before->0, last, last.len());
    } else {
        lemma_range_holds_value(before, last, last.len(), x);
    }
}

/// The range taken over a row holds whatever the start held.
pub proof fn lemma_range_keeps_start(start: (i32, i32), row: Seq<i32>, k: nat)
    requires
        k <= row.len(),
        start.0 <= start.1,
    ensures
        range_of_row(Some(start), row, k) is Some,
        spans(range_of_row(Some(start), row, k)->0, start.0),
        spans(range_of_row(Some(start), row, k)->0, start.1),
    decreases k,
{
    if k > 0 {
        lemma_range_keeps_start(start, row, (k - 1) as nat);
    }
}

/// The range taken over a row holds each value of the row.
pub proof fn lemma_range_holds_value(start: Option<(i32, i32)>, row: Seq<i32>, k: nat, x: int)
    requires
        k <= row.len(),
        0 <= x < k,
    ensures
        range_of_row(start, row, k) is Some,
        spans(range_of_row(start, row, k)->0, row[x]),
    decreases k,
{
    if x < k - 1 {
        lemma_range_holds_value(start, row, (k - 1) as nat, x);
    }
}

/// At a share of zero or less a blend is the first colour exactly; at a
/// share of one or more it is the second colour exactly; at a share of one
/// half each channel is the mean of the two, rounded down.
pub proof fn lemma_lerp_ends_and_middle(a: Color, b: Color, t: int)
    ensures
        t <= 0 ==> spec_lerp_color(a, b, t) == a,
        t >= 1000 ==> spec_lerp_color(a, b, t) == b,
        t == 500 ==> spec_lerp_color(a, b, t) == (Color {
            r: ((a.r + b.r) / 2) as i32,
            g: ((a.g + b.g) / 2) as i32,
            b: ((a.b + b.b) / 2) as i32,
            a: ((a.a + b.a) / 2) as i32,
        }),
{
    lemma_lerp_channel(a.r as int, b.r as int, t);
    lemma_lerp_channel(a.g as int, b.g as int, t);
    lemma_lerp_channel(a.b as int, b.b as int, t);
    lemma_lerp_channel(a.a as int, b.a as int, t);
}

/// The three cases of [`lemma_lerp_ends_and_middle`] for one channel.
pub proof fn lemma_lerp_channel(a: int, b: int, t: int)
    requires
        -0x8000_0000 <= a <= 0x7fff_ffff,
        -0x8000_0000 <= b <= 0x7fff_ffff,
    ensures
        t <= 0 ==> spec_lerp_channel(a, b, t) == a,
        t >= 1000 ==> spec_lerp_channel(a, b, t) == b,
        t == 500 ==> spec_lerp_channel(a, b, t) == (a + b) / 2,
{
    if t <= 0 {
        assert((b - a) * 0 == 0);
    } else if t >= 1000 {
        vstd::arithmetic::div_mod::lemma_div_multiples_vanish(b - a, 1000);
        assert((b - a) * 1000 == 1000 * (b - a));
    } else if t == 500 {
        let d = b - a;
        assert((d * 500) / 1000 == d / 2) by {
            vstd::arithmetic::div_mod::lemma_fundamental_div_mod(d, 2);
            let q = d / 2;
            let r = d % 2;
            assert(d * 500 == 1000 * q + 500 * r);
            vstd::arithmetic::div_mod::lemma_fundamental_div_mod_converse(
                d * 500,
                1000,
                q,
                500 * r,
            );
        }
        assert(a + d / 2 == (a + b) / 2);
    }
}

/// The cell with the least value has the weak background colour exactly.
/// If the greatest value lies at least one unit above the least, the cell
/// with the greatest value has the accent colour exactly, and a cell half
/// way between the two has, in each channel, the mean of the two colours.
pub proof fn lemma_cell_colors(chart: HeatmapChart, theme: Theme, value: i32)
    requires
        chart.spec_value_range() is Some,
    ensures
        ({
            let range = chart.spec_value_range()->0;
            let weak = theme.background_weak;
            let accent = theme.primary_strong;
            &&& value == range.0 ==> chart.cell_color(theme, value) == weak
            &&& value == range.1 && range.1 - range.0 >= 1000 ==> chart.cell_color(theme, value)
                == accent
            &&& 2 * (value - range.0) == range.1 - range.0 && range.1 - range.0 >= 1000
                ==> chart.cell_color(theme, value) == (Color {
                r: ((weak.r + accent.r) / 2) as i32,
                g: ((weak.g + accent.g) / 2) as i32,
                b: ((weak.b + accent.b) / 2) as i32,
                a: ((weak.a + accent.a) / 2) as i32,
            })
        }),
{
    let range = chart.spec_value_range()->0;
    let span = spec_span(range.0 as int, range.1 as int);
    let t = spec_intensity(value as int, range);
    lemma_lerp_ends_and_middle(theme.background_weak, theme.primary_strong, t);
    if value == range.0 {
        assert(t == 0);
    }
    if value == range.1 && range.1 - range.0 >= 1000 {
        assert((value - range.0) * 1000 == span * 1000);
        vstd::arithmetic::div_mod::lemma_div_multiples_vanish(1000, span);
        assert(span * 1000 == 1000 * span);
        assert(t == 1000);
    }
    if 2 * (value - range.0) == range.1 - range.0 && range.1 - range.0 >= 1000 {
        let half = value - range.0;
        assert(span == 2 * half);
        assert(half * 1000 == span * 500 + 0);
        vstd::arithmetic::div_mod::lemma_fundamental_div_mod_converse(half * 1000, span, 500, 0);
        assert(t == 500);
    }
}

/// The inverse mapping agrees with the forward one: a pointer in the plot
/// rectangle and within the slots of column `x` and row `y` is over the
/// cell of that row and column, if the grid has a value there.
pub proof fn lemma_pointer_in_slots_hits_cell(
    chart: HeatmapChart,
    state: InteractionState,
    size: Size,
    at: Point,
    y: int,
    x: int,
)
    requires
        Plot::spec_within(size, chart.config.padding) is Some,
        0 <= x < chart.grid.x_labels@.len() <= usize::MAX,
        0 <= y < chart.grid.y_labels@.len() <= usize::MAX,
        y < chart.grid.values@.len(),
        x < chart.grid.values@[y]@.len(),
        ({
            let plot = Plot::spec_within(size, chart.config.padding)->0;
            let w = chart.cell_width(state, plot);
            let h = chart.cell_height(state, plot);
            &&& w > 0
            &&& h > 0
            &&& plot.spec_holds(at)
            &&& plot.left + x * w + state.pan.x <= at.x < plot.left + (x + 1) * w + state.pan.x
            &&& plot.top + y * h + state.pan.y <= at.y < plot.top + (y + 1) * h + state.pan.y
        }),
    ensures
        chart.cell_at(state, size, at) == Some(Cell { row: y as usize, col: x as usize }),
{
    let plot = Plot::spec_within(size, chart.config.padding)->0;
    lemma_slot_index_inverts(
        at.x as int,
        plot.left as int,
        x,
        chart.cell_width(state, plot),
        state.pan.x as int,
    );
    lemma_slot_index_inverts(
        at.y as int,
        plot.top as int,
        y,
        chart.cell_height(state, plot),
        state.pan.y as int,
    );
}

} // verus!
