//! The bar chart: one rectangle per value, side by side along the x axis.

use vstd::prelude::*;
use vstd::string::*;
use crate::charts::cache::GeometryCache;
use crate::charts::geometry::Cursor;
use crate::charts::geometry::HorizontalAlign;
use crate::charts::geometry::Interaction;
use crate::charts::geometry::Point;
use crate::charts::geometry::Rectangle;
use crate::charts::geometry::Size;
use crate::charts::geometry::Theme;
use crate::charts::geometry::VerticalAlign;
use crate::charts::interaction::ChartKind;
use crate::charts::interaction::Event;
use crate::charts::model::BarPoint;
use crate::charts::model::BarSeries;
use crate::charts::model::InteractionConfig;
use crate::charts::model::InteractionState;
use crate::charts::model::LineChartConfig;
use crate::charts::numeric::div_floor;
use crate::charts::numeric::lemma_div_bound;
use crate::charts::numeric::lemma_mul_bound;
use crate::charts::numeric::max_int;
use crate::charts::numeric::mul_wide;
use crate::charts::numeric::sat;
use crate::charts::numeric::saturate;
use crate::charts::scale::lemma_slot_index_inverts;
use crate::charts::scale::slot;
use crate::charts::scale::slot_index;
use crate::charts::scale::slot_start;
use crate::charts::scale::spec_slot;
use crate::charts::scale::spec_slot_index;
use crate::charts::scale::spec_slot_start;
use crate::charts::scale::Plot;
use crate::charts::parts::axes;
use crate::charts::parts::emit_axes;
use crate::charts::parts::emit_selection;
use crate::charts::parts::make_tooltip;
use crate::charts::parts::make_value_label;
use crate::charts::parts::selection_shapes;
use crate::charts::parts::tooltip_at;
use crate::charts::parts::value_label;
use crate::charts::parts::LABEL_SIZE;
use crate::charts::shape::emit;
use crate::charts::shape::layer_views;
use crate::charts::shape::views;
use crate::charts::shape::Shape;
use crate::charts::shape::ShapeView;

verus! {

/// A bar chart over one series.
#[derive(Debug, Clone, PartialEq, Eq)]
pub struct BarChart {
    pub series: BarSeries,
    pub config: LineChartConfig,
    pub interaction: InteractionConfig,
}

/// The largest of the first `k` values, but at least one unit.
pub open spec fn spec_ceiling(values: Seq<BarPoint>, k: nat) -> int
    decreases k,
{
    if k == 0 {
        1000
    } else {
        max_int(spec_ceiling(values, (k - 1) as nat), values[k - 1].value as int)
    }
}

impl BarChart {
    /// A chart with the default rendering parameters and every interaction
    /// enabled.
    pub open spec fn spec_new(series: BarSeries) -> BarChart {
        BarChart {
            series,
            config: LineChartConfig { padding: 40_000, grid_lines: 5 },
            interaction: InteractionConfig {
                enable_hover: true,
                enable_zoom: true,
                enable_pan: true,
                enable_selection: true,
            },
        }
    }

    pub fn new(series: BarSeries) -> (chart: Self)
        ensures
            chart == BarChart::spec_new(series),
    {
        BarChart {
            series,
            config: LineChartConfig::default(),
            interaction: InteractionConfig::default(),
        }
    }

    pub fn with_config(self, config: LineChartConfig) -> (chart: Self)
        ensures
            chart.series == self.series,
            chart.config == config,
            chart.interaction == self.interaction,
    {
        BarChart { series: self.series, config, interaction: self.interaction }
    }

    pub fn with_interaction(self, interaction: InteractionConfig) -> (chart: Self)
        ensures
            chart.series == self.series,
            chart.config == self.config,
            chart.interaction == interaction,
    {
        BarChart { series: self.series, config: self.config, interaction }
    }

    /// The value that fills the whole height of the plot: the largest value
    /// of the series, but at least one unit.
    pub open spec fn ceiling(&self) -> int {
        spec_ceiling(self.series.values@, self.series.values@.len())
    }

    /// The width of the slot of one bar.
    pub open spec fn slot_width(&self, state: InteractionState, plot: Plot) -> int {
        spec_slot(
            plot.spec_width(),
            self.series.values@.len() as int,
            state.spec_effective_zoom(),
        )
    }

    /// The height of bar `i`: its share of the ceiling, of the plot height.
    pub open spec fn bar_height(&self, plot: Plot, i: int) -> int {
        (self.series.values@[i].value * plot.spec_height()) / self.ceiling()
    }

    /// The rectangle of bar `i`. It stands on the bottom edge at the start
    /// of its slot and takes eight tenths of the slot.
    pub open spec fn bar_rect(&self, state: InteractionState, plot: Plot, i: int) -> Rectangle {
        let slot = self.slot_width(state, plot);
        Rectangle {
            x: spec_slot_start(plot.left as int, i, slot, state.pan.x as int) as i32,
            y: sat(plot.bottom - self.bar_height(plot, i)) as i32,
            width: sat(slot * 8 / 10) as i32,
            height: sat(self.bar_height(plot, i)) as i32,
        }
    }

    /// The label under bar `i`, centred under the bar.
    pub open spec fn bar_label(
        &self,
        state: InteractionState,
        plot: Plot,
        theme: Theme,
        i: int,
    ) -> ShapeView {
        let slot = self.slot_width(state, plot);
        ShapeView::Text {
            content: self.series.values@[i].label@,
            position: Point {
                x: sat(
                    spec_slot_start(plot.left as int, i, slot, state.pan.x as int) + slot * 4 / 10,
                ) as i32,
                y: sat(plot.bottom + 6000) as i32,
            },
            color: theme.text,
            size: LABEL_SIZE,
            align_x: HorizontalAlign::Center,
            align_y: VerticalAlign::Top,
        }
    }

    /// What bar `i` contributes: its rectangle, and its label if `i` is
    /// even. Every second label is left out to reduce clutter.
    pub open spec fn bar_item(
        &self,
        state: InteractionState,
        plot: Plot,
        theme: Theme,
        i: int,
    ) -> Seq<ShapeView> {
        let rect = ShapeView::FillRect {
            rect: self.bar_rect(state, plot, i),
            color: self.series.color,
        };
        if i % 2 == 0 {
            seq![rect, self.bar_label(state, plot, theme, i)]
        } else {
            seq![rect]
        }
    }

    /// The shapes of the first `k` bars.
    pub open spec fn bars(
        &self,
        state: InteractionState,
        plot: Plot,
        theme: Theme,
        k: nat,
    ) -> Seq<ShapeView>
        decreases k,
    {
        if k == 0 {
            Seq::empty()
        } else {
            self.bars(state, plot, theme, (k - 1) as nat) + self.bar_item(
                state,
                plot,
                theme,
                k - 1,
            )
        }
    }

    /// The base layer: nothing if there is no bar or no room for a plot,
    /// else the axes and the bars.
    pub open spec fn base_shapes(
        &self,
        state: InteractionState,
        size: Size,
        theme: Theme,
    ) -> Seq<ShapeView> {
        match Plot::spec_within(size, self.config.padding) {
            Some(plot) => if self.series.values@.len() == 0 {
                Seq::empty()
            } else {
                axes(plot, theme) + self.bars(state, plot, theme, self.series.values@.len())
            },
            None => Seq::empty(),
        }
    }

    /// The bar under a pointer at `at`, in the pixel space of a viewport of
    /// `size`: the index of the slot that `at` falls in, if `at` is in the
    /// plot rectangle and the slot belongs to a bar.
    pub open spec fn bar_at(&self, state: InteractionState, size: Size, at: Point) -> Option<
        usize,
    > {
        match Plot::spec_within(size, self.config.padding) {
            Some(plot) => {
                let slot = self.slot_width(state, plot);
                let index = spec_slot_index(
                    at.x as int,
                    plot.left as int,
                    slot,
                    state.pan.x as int,
                );
                if plot.spec_holds(at) && slot > 0 && 0 <= index < self.series.values@.len() {
                    Some(index as usize)
                } else {
                    None
                }
            },
            None => None,
        }
    }

    /// The bar under the pointer, if the pointer is over one.
    pub open spec fn spec_hit_test(
        &self,
        state: InteractionState,
        bounds: Rectangle,
        cursor: Cursor,
    ) -> Option<usize> {
        match cursor.spec_position_in(bounds) {
            Some(at) => self.bar_at(state, bounds.spec_size(), at),
            None => None,
        }
    }

    /// The overlay for a pointer at `at`: the tooltip of the bar under it,
    /// if there is one, and the outline of the selection, if there is one.
    pub open spec fn overlay_shapes(
        &self,
        state: InteractionState,
        size: Size,
        theme: Theme,
        at: Point,
    ) -> Seq<ShapeView> {
        (match self.bar_at(state, size, at) {
            Some(i) => seq![
                tooltip_at(
                    value_label(
                        self.series.values@[i as int].label@,
                        self.series.values@[i as int].value as int,
                    ),
                    at,
                    theme,
                ),
            ],
            None => Seq::empty(),
        }) + selection_shapes(state, theme)
    }

    /// The layers of one frame, drawn afresh: none if the series is empty,
    /// else the base layer and, with the pointer inside `bounds`, the
    /// overlay.
    pub open spec fn layers(
        &self,
        state: InteractionState,
        theme: Theme,
        bounds: Rectangle,
        cursor: Cursor,
        base: Seq<ShapeView>,
    ) -> Seq<Seq<ShapeView>> {
        if self.series.values@.len() == 0 {
            Seq::empty()
        } else {
            match cursor.spec_position_in(bounds) {
                Some(at) => seq![base, self.overlay_shapes(state, bounds.spec_size(), theme, at)],
                None => seq![base],
            }
        }
    }

    /// Applies one event to the view state and says whether a redraw is
    /// wanted.
    pub fn update(
        &self,
        state: &mut InteractionState,
        event: &Event,
        bounds: Rectangle,
        cursor: Cursor,
    ) -> (redraw: bool)
        ensures
            *final(state) == old(state).after(
                ChartKind::Bar,
                self.interaction,
                *event,
                bounds,
                cursor,
            ),
            redraw == old(state).requests_redraw(self.interaction, *event),
    {
        state.handle(ChartKind::Bar, &self.interaction, event, bounds, cursor)
    }

    fn max_value(&self) -> (ceiling: i32)
        ensures
            ceiling == self.ceiling(),
            ceiling >= 1000,
    {
        let mut ceiling: i32 = 1000;
        let mut i: usize = 0;
        while i < self.series.values.len()
            invariant
                i <= self.series.values@.len(),
                ceiling == spec_ceiling(self.series.values@, i as nat),
                ceiling >= 1000,
            decreases self.series.values.len() - i,
        {
            if self.series.values[i].value > ceiling {
                ceiling = self.series.values[i].value;
            }
            i += 1;
        }
        ceiling
    }

    /// Computes the base layer for a viewport of `size`.
    pub fn base_geometry(
        &self,
        state: &InteractionState,
        size: Size,
        theme: &Theme,
    ) -> (shapes: Vec<Shape>)
        ensures
            views(shapes@) == self.base_shapes(*state, size, *theme),
    {
        let mut shapes: Vec<Shape> = Vec::new();
        let plot = match Plot::within(size, self.config.padding) {
            Some(plot) => plot,
            None => {
                return shapes;
            },
        };
        if self.series.values.len() == 0 {
            return shapes;
        }
        emit_axes(&mut shapes, plot, theme);
        let ceiling: i32 = self.max_value();
        let count: usize = self.series.values.len();
        let width: i64 = slot(plot.width(), count, state.effective_zoom());
        let height: i64 = plot.height();
        let mut i: usize = 0;
        while i < count
            invariant
                i <= count,
                count == self.series.values@.len(),
                ceiling == self.ceiling(),
                ceiling >= 1000,
                width == self.slot_width(*state, plot),
                0 <= width <= 0x40_0000_0000_0000,
                height == plot.spec_height(),
                views(shapes@) == axes(plot, *theme) + self.bars(*state, plot, *theme, i as nat),
            decreases count - i,
        {
            let point = &self.series.values[i];
            let x: i32 = slot_start(plot.left, i, width, state.pan.x);
            let tall: i128 = div_floor(mul_wide(point.value as i64, height), ceiling as i128);
            proof {
                lemma_mul_bound(point.value as int, height as int, 0x8000_0000, 0x1_0000_0000);
                lemma_div_bound(
                    point.value as int * height as int,
                    ceiling as int,
                    0x8000_0000int * 0x1_0000_0000int,
                );
            }
            let rect = Rectangle {
                x,
                y: saturate(plot.bottom as i128 - tall),
                width: saturate(div_floor(width as i128 * 8, 10)),
                height: saturate(tall),
            };
            emit(&mut shapes, Shape::FillRect { rect, color: self.series.color });
            if i % 2 == 0 {
                emit(
                    &mut shapes,
                    Shape::Text {
                        content: point.label.clone(),
                        position: Point {
                            x: saturate(x as i128 + div_floor(width as i128 * 4, 10)),
                            y: saturate(plot.bottom as i128 + 6000),
                        },
                        color: theme.text,
                        size: LABEL_SIZE,
                        align_x: HorizontalAlign::Center,
                        align_y: VerticalAlign::Top,
                    },
                );
            }
            i += 1;
        }
        shapes
    }

    /// The bar under a pointer at `at`, in the pixel space of a viewport of
    /// `size`.
    pub fn bar_under(&self, state: &InteractionState, size: Size, at: Point) -> (hit: Option<
        usize,
    >)
        ensures
            hit == self.bar_at(*state, size, at),
            hit matches Some(i) ==> i < self.series.values@.len(),
    {
        let plot = match Plot::within(size, self.config.padding) {
            Some(plot) => plot,
            None => {
                return None;
            },
        };
        let count: usize = self.series.values.len();
        if count == 0 || !plot.holds(at) {
            return None;
        }
        let width: i64 = slot(plot.width(), count, state.effective_zoom());
        if width <= 0 {
            return None;
        }
        let index: i128 = slot_index(at.x, plot.left, width, state.pan.x);
        if 0 <= index && index < count as i128 {
            Some(index as usize)
        } else {
            None
        }
    }

    /// The bar under the pointer, if the pointer is over one.
    pub fn hit_test(
        &self,
        state: &InteractionState,
        bounds: Rectangle,
        cursor: Cursor,
    ) -> (hit: Option<usize>)
        ensures
            hit == self.spec_hit_test(*state, bounds, cursor),
            hit matches Some(i) ==> i < self.series.values@.len(),
    {
        match cursor.position_in(bounds) {
            Some(at) => self.bar_under(state, bounds.size(), at),
            None => None,
        }
    }

    /// Computes the overlay for a pointer at `at`.
    pub fn overlay_geometry(
        &self,
        state: &InteractionState,
        size: Size,
        theme: &Theme,
        at: Point,
    ) -> (shapes: Vec<Shape>)
        ensures
            views(shapes@) == self.overlay_shapes(*state, size, *theme, at),
    {
        let mut shapes: Vec<Shape> = Vec::new();
        match self.bar_under(state, size, at) {
            Some(i) => {
                let point = &self.series.values[i];
                emit(
                    &mut shapes,
                    make_tooltip(make_value_label(&point.label, point.value), at, theme),
                );
            },
            None => {},
        }
        emit_selection(&mut shapes, state, theme);
        shapes
    }

    /// Draws one frame. An empty series gives no layers. Otherwise the base
    /// layer comes first, from the cache if the cache holds a layer for the
    /// size of `bounds` and computed and remembered if not; with the
    /// pointer inside `bounds` the overlay follows.
    pub fn draw(
        &self,
        cache: &mut GeometryCache,
        state: &InteractionState,
        theme: &Theme,
        bounds: Rectangle,
        cursor: Cursor,
    ) -> (layers: Vec<Vec<Shape>>)
        ensures
            layer_views(layers@) == self.layers(
                *state,
                *theme,
                bounds,
                cursor,
                old(cache).resolve(
                    bounds.spec_size(),
                    self.base_shapes(*state, bounds.spec_size(), *theme),
                ),
            ),
            self.series.values@.len() == 0 ==> layers@.len() == 0,
            self.series.values@.len() == 0 ==> *final(cache) == *old(cache),
            self.series.values@.len() > 0 ==> final(cache).key() == Some(bounds.spec_size())
                && final(cache).layer() == old(cache).resolve(
                bounds.spec_size(),
                self.base_shapes(*state, bounds.spec_size(), *theme),
            ),
    {
        let mut layers: Vec<Vec<Shape>> = Vec::new();
        if self.series.values.len() == 0 {
            return layers;
        }
        let size = bounds.size();
        let base = match cache.lookup(size) {
            Some(shapes) => shapes,
            None => {
                let shapes = self.base_geometry(state, size, theme);
                cache.store(size, &shapes);
                shapes
            },
        };
        layers.push(base);
        match cursor.position_in(bounds) {
            Some(at) => {
                let overlay = self.overlay_geometry(state, size, theme, at);
                layers.push(overlay);
            },
            None => {},
        }
        layers
    }

    /// The pointer shape to show: a pointing hand inside `bounds`.
    pub fn mouse_interaction(
        &self,
        state: &InteractionState,
        bounds: Rectangle,
        cursor: Cursor,
    ) -> (shape: Interaction)
        ensures
            shape == if cursor.spec_position_in(bounds) is Some {
                Interaction::Pointer
            } else {
                Interaction::Idle
            },
    {
        if cursor.position_in(bounds).is_some() {
            Interaction::Pointer
        } else {
            Interaction::Idle
        }
    }
}

/// The inverse mapping agrees with the forward one: a pointer in the plot
/// rectangle, at or after the left edge of the slot of bar `i` and before
/// the left edge of the next slot, is over bar `i`.
pub proof fn lemma_pointer_in_slot_hits_bar(
    chart: BarChart,
    state: InteractionState,
    size: Size,
    at: Point,
    i: int,
)
    requires
        Plot::spec_within(size, chart.config.padding) is Some,
        0 <= i < chart.series.values@.len(),
        chart.series.values@.len() <= usize::MAX,
        ({
            let plot = Plot::spec_within(size, chart.config.padding)->0;
            let slot = chart.slot_width(state, plot);
            &&& slot > 0
            &&& plot.spec_holds(at)
            &&& plot.left + i * slot + state.pan.x <= at.x < plot.left + (i + 1) * slot
                + state.pan.x
        }),
    ensures
        chart.bar_at(state, size, at) == Some(i as usize),
{
    let plot = Plot::spec_within(size, chart.config.padding)->0;
    lemma_slot_index_inverts(
        at.x as int,
        plot.left as int,
        i,
        chart.slot_width(state, plot),
        state.pan.x as int,
    );
}

} // verus!
