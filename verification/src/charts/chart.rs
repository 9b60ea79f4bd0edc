//! Any of the six chart variants behind one set of operations: react to an
//! event, draw a frame, say what is under the pointer, and say which
//! pointer shape to show.

use vstd::prelude::*;
use crate::charts::bar::BarChart;
use crate::charts::cache::GeometryCache;
use crate::charts::circle::CircleChart;
use crate::charts::geometry::Cursor;
use crate::charts::geometry::Interaction;
use crate::charts::geometry::Point;
use crate::charts::geometry::Rectangle;
use crate::charts::geometry::Size;
use crate::charts::geometry::Theme;
use crate::charts::heatmap::Cell;
use crate::charts::heatmap::HeatmapChart;
use crate::charts::interaction::ChartKind;
use crate::charts::interaction::Event;
use crate::charts::line::LineChart;
use crate::charts::line::Nearest;
use crate::charts::model::ChartData;
use crate::charts::pie::PieChart;
use crate::charts::pie::PieState;
use crate::charts::polar::center;
use crate::charts::polar::spec_center;
use crate::charts::radar::RadarChart;
use crate::charts::shape::layer_views;
use crate::charts::shape::Shape;
use crate::charts::shape::ShapeView;

verus! {

/// A chart of any variant.
#[derive(Debug, Clone, PartialEq, Eq)]
pub enum Chart {
    Line(LineChart),
    Bar(BarChart),
    Pie(PieChart),
    Heatmap(HeatmapChart),
    Radar(RadarChart),
    Circle(CircleChart),
}

/// What is under the pointer, as a reference into the data of the chart.
#[derive(Debug, Clone, Copy, PartialEq, Eq, Structural)]
pub enum Hit {
    /// A data point of a line chart.
    Point(Nearest),
    /// A bar, by its index.
    Bar(usize),
    /// A slice of a pie, by its index.
    Slice(usize),
    /// A cell of a heatmap.
    Cell(Cell),
    /// An axis of a radar chart, by its index.
    Axis(usize),
    /// The gauge as a whole.
    Gauge,
}

/// The view state of a chart of any variant. The picked slice matters to
/// the pie alone.
pub type ChartState = PieState;

impl Chart {
    /// The chart of the given data, with the default rendering parameters
    /// and every interaction enabled.
    pub open spec fn spec_new(data: ChartData) -> Chart {
        match data {
            ChartData::Line(series) => Chart::Line(LineChart::spec_new(series)),
            ChartData::Bar(series) => Chart::Bar(BarChart::spec_new(series)),
            ChartData::Pie(slices) => Chart::Pie(PieChart::spec_new(slices)),
            ChartData::Heatmap(grid) => Chart::Heatmap(HeatmapChart::spec_new(grid)),
            ChartData::Radar(axes, series) => Chart::Radar(RadarChart::spec_new(axes, series)),
            ChartData::Circle(metric) => Chart::Circle(CircleChart::spec_new(metric)),
        }
    }

    pub fn new(data: ChartData) -> (chart: Chart)
        ensures
            chart == Chart::spec_new(data),
    {
        match data {
            ChartData::Line(series) => Chart::Line(LineChart::new(series)),
            ChartData::Bar(series) => Chart::Bar(BarChart::new(series)),
            ChartData::Pie(slices) => Chart::Pie(PieChart::new(slices)),
            ChartData::Heatmap(grid) => Chart::Heatmap(HeatmapChart::new(grid)),
            ChartData::Radar(axes, series) => Chart::Radar(RadarChart::new(axes, series)),
            ChartData::Circle(metric) => Chart::Circle(CircleChart::new(metric)),
        }
    }

    /// The variant of the chart.
    pub open spec fn spec_kind(&self) -> ChartKind {
        match self {
            Chart::Line(_) => ChartKind::Line,
            Chart::Bar(_) => ChartKind::Bar,
            Chart::Pie(_) => ChartKind::Pie,
            Chart::Heatmap(_) => ChartKind::Heatmap,
            Chart::Radar(_) => ChartKind::Radar,
            Chart::Circle(_) => ChartKind::Circle,
        }
    }

    pub fn kind(&self) -> (kind: ChartKind)
        ensures
            kind == self.spec_kind(),
    {
        match self {
            Chart::Line(_) => ChartKind::Line,
            Chart::Bar(_) => ChartKind::Bar,
            Chart::Pie(_) => ChartKind::Pie,
            Chart::Heatmap(_) => ChartKind::Heatmap,
            Chart::Radar(_) => ChartKind::Radar,
            Chart::Circle(_) => ChartKind::Circle,
        }
    }

    /// The point from which the host takes the direction of the pointer:
    /// the middle of the viewport, moved by the pan. It is the centre of
    /// the disc of the round charts.
    pub fn center(&self, state: &ChartState, size: Size) -> (c: Point)
        ensures
            c == spec_center(size, state.interaction.pan),
    {
        center(size, state.interaction.pan)
    }

    /// The state after one event, by the rules of the variant.
    pub open spec fn after(
        &self,
        state: ChartState,
        event: Event,
        bounds: Rectangle,
        cursor: Cursor,
        direction: i32,
    ) -> ChartState {
        match self {
            Chart::Line(chart) => PieState {
                interaction: state.interaction.after(
                    ChartKind::Line,
                    chart.interaction,
                    event,
                    bounds,
                    cursor,
                ),
                ..state
            },
            Chart::Bar(chart) => PieState {
                interaction: state.interaction.after(
                    ChartKind::Bar,
                    chart.interaction,
                    event,
                    bounds,
                    cursor,
                ),
                ..state
            },
            Chart::Pie(chart) => PieState {
                interaction: state.interaction.after(
                    ChartKind::Pie,
                    chart.interaction,
                    event,
                    bounds,
                    cursor,
                ),
                selected_index: chart.pick_after(state, event, bounds, cursor, direction),
            },
            Chart::Heatmap(chart) => PieState {
                interaction: state.interaction.after(
                    ChartKind::Heatmap,
                    chart.interaction,
                    event,
                    bounds,
                    cursor,
                ),
                ..state
            },
            Chart::Radar(chart) => PieState {
                interaction: state.interaction.after(
                    ChartKind::Radar,
                    chart.interaction,
                    event,
                    bounds,
                    cursor,
                ),
                ..state
            },
            Chart::Circle(chart) => PieState {
                interaction: state.interaction.after(
                    ChartKind::Circle,
                    chart.interaction,
                    event,
                    bounds,
                    cursor,
                ),
                ..state
            },
        }
    }

    /// Whether one event asks for a redraw.
    pub open spec fn requests_redraw(&self, state: ChartState, event: Event) -> bool {
        state.interaction.requests_redraw(
            match self {
                Chart::Line(chart) => chart.interaction,
                Chart::Bar(chart) => chart.interaction,
                Chart::Pie(chart) => chart.interaction,
                Chart::Heatmap(chart) => chart.interaction,
                Chart::Radar(chart) => chart.interaction,
                Chart::Circle(chart) => chart.interaction,
            },
            event,
        )
    }

    /// Applies one event to the view state and says whether a redraw is
    /// wanted. `direction` is the direction from [`Chart::center`] to the
    /// pointer; only the round charts look at it.
    pub fn update(
        &self,
        state: &mut ChartState,
        event: &Event,
        bounds: Rectangle,
        cursor: Cursor,
        direction: i32,
    ) -> (redraw: bool)
        ensures
            *final(state) == self.after(*old(state), *event, bounds, cursor, direction),
            redraw == self.requests_redraw(*old(state), *event),
    {
        match self {
            Chart::Line(chart) => chart.update(&mut state.interaction, event, bounds, cursor),
            Chart::Bar(chart) => chart.update(&mut state.interaction, event, bounds, cursor),
            Chart::Pie(chart) => chart.update(state, event, bounds, cursor, direction),
            Chart::Heatmap(chart) => chart.update(&mut state.interaction, event, bounds, cursor),
            Chart::Radar(chart) => chart.update(&mut state.interaction, event, bounds, cursor),
            Chart::Circle(chart) => chart.update(&mut state.interaction, event, bounds, cursor),
        }
    }

    /// The base layer of the variant, drawn afresh.
    pub open spec fn base_shapes(&self, state: ChartState, size: Size, theme: Theme) -> Seq<
        ShapeView,
    > {
        match self {
            Chart::Line(chart) => chart.base_shapes(state.interaction, size, theme),
            Chart::Bar(chart) => chart.base_shapes(state.interaction, size, theme),
            Chart::Pie(chart) => chart.base_shapes(state, size),
            Chart::Heatmap(chart) => chart.base_shapes(state.interaction, size, theme),
            Chart::Radar(chart) => chart.base_shapes(state.interaction, size, theme),
            Chart::Circle(chart) => chart.base_shapes(state.interaction, size, theme),
        }
    }

    /// Whether the chart has nothing to draw, so that a frame has no layer.
    pub open spec fn is_empty(&self) -> bool {
        match self {
            Chart::Line(chart) => chart.spec_ranges() is None,
            Chart::Bar(chart) => chart.series.values@.len() == 0,
            Chart::Pie(chart) => chart.slices@.len() == 0,
            Chart::Heatmap(chart) => chart.is_empty(),
            Chart::Radar(chart) => chart.is_empty(),
            Chart::Circle(_) => false,
        }
    }

    /// The layers of one frame of the variant around a given base layer.
    pub open spec fn layers(
        &self,
        state: ChartState,
        theme: Theme,
        bounds: Rectangle,
        cursor: Cursor,
        direction: i32,
        base: Seq<ShapeView>,
    ) -> Seq<Seq<ShapeView>> {
        match self {
            Chart::Line(chart) => chart.layers(state.interaction, theme, bounds, cursor, base),
            Chart::Bar(chart) => chart.layers(state.interaction, theme, bounds, cursor, base),
            Chart::Pie(chart) => chart.layers(state, theme, bounds, cursor, direction, base),
            Chart::Heatmap(chart) => chart.layers(state.interaction, theme, bounds, cursor, base),
            Chart::Radar(chart) => chart.layers(
                state.interaction,
                theme,
                bounds,
                cursor,
                direction,
                base,
            ),
            Chart::Circle(chart) => chart.layers(state.interaction, theme, bounds, cursor, base),
        }
    }

    /// Draws one frame. A chart with nothing to draw gives no layers and
    /// leaves the cache alone. Otherwise the base layer comes first, from
    /// the cache if the cache holds a layer for the size of `bounds` and
    /// computed and remembered if not; with the pointer inside `bounds`
    /// the overlay follows.
    pub fn draw(
        &self,
        cache: &mut GeometryCache,
        state: &ChartState,
        theme: &Theme,
        bounds: Rectangle,
        cursor: Cursor,
        direction: i32,
    ) -> (layers: Vec<Vec<Shape>>)
        ensures
            layer_views(layers@) == self.layers(
                *state,
                *theme,
                bounds,
                cursor,
                direction,
                old(cache).resolve(
                    bounds.spec_size(),
                    self.base_shapes(*state, bounds.spec_size(), *theme),
                ),
            ),
            self.is_empty() ==> layers@.len() == 0 && *final(cache) == *old(cache),
            !self.is_empty() ==> final(cache).key() == Some(bounds.spec_size())
                && final(cache).layer() == old(cache).resolve(
                bounds.spec_size(),
                self.base_shapes(*state, bounds.spec_size(), *theme),
            ),
    {
        match self {
            Chart::Line(chart) => chart.draw(cache, &state.interaction, theme, bounds, cursor),
            Chart::Bar(chart) => chart.draw(cache, &state.interaction, theme, bounds, cursor),
            Chart::Pie(chart) => chart.draw(cache, state, theme, bounds, cursor, direction),
            Chart::Heatmap(chart) => chart.draw(cache, &state.interaction, theme, bounds, cursor),
            Chart::Radar(chart) => chart.draw(
                cache,
                &state.interaction,
                theme,
                bounds,
                cursor,
                direction,
            ),
            Chart::Circle(chart) => chart.draw(cache, &state.interaction, theme, bounds, cursor),
        }
    }

    /// What is under the pointer, by the rule of the variant.
    pub open spec fn spec_hit_test(
        &self,
        state: ChartState,
        bounds: Rectangle,
        cursor: Cursor,
        direction: i32,
    ) -> Option<Hit> {
        match self {
            Chart::Line(chart) => match chart.spec_hit_test(state.interaction, bounds, cursor) {
                Some(n) => Some(Hit::Point(n)),
                None => None,
            },
            Chart::Bar(chart) => match chart.spec_hit_test(state.interaction, bounds, cursor) {
                Some(i) => Some(Hit::Bar(i)),
                None => None,
            },
            Chart::Pie(chart) => match chart.spec_hit_test(
                state.interaction,
                bounds,
                cursor,
                direction,
            ) {
                Some(i) => Some(Hit::Slice(i)),
                None => None,
            },
            Chart::Heatmap(chart) => match chart.spec_hit_test(state.interaction, bounds, cursor) {
                Some(cell) => Some(Hit::Cell(cell)),
                None => None,
            },
            Chart::Radar(chart) => match chart.spec_hit_test(bounds, cursor, direction) {
                Some(i) => Some(Hit::Axis(i)),
                None => None,
            },
            Chart::Circle(chart) => if chart.spec_hit_test(bounds, cursor) {
                Some(Hit::Gauge)
            } else {
                None
            },
        }
    }

    /// What is under the pointer.
    pub fn hit_test(
        &self,
        state: &ChartState,
        bounds: Rectangle,
        cursor: Cursor,
        direction: i32,
    ) -> (hit: Option<Hit>)
        ensures
            hit == self.spec_hit_test(*state, bounds, cursor, direction),
    {
        match self {
            Chart::Line(chart) => match chart.hit_test(&state.interaction, bounds, cursor) {
                Some(n) => Some(Hit::Point(n)),
                None => None,
            },
            Chart::Bar(chart) => match chart.hit_test(&state.interaction, bounds, cursor) {
                Some(i) => Some(Hit::Bar(i)),
                None => None,
            },
            Chart::Pie(chart) => match chart.hit_test(
                &state.interaction,
                bounds,
                cursor,
                direction,
            ) {
                Some(i) => Some(Hit::Slice(i)),
                None => None,
            },
            Chart::Heatmap(chart) => match chart.hit_test(&state.interaction, bounds, cursor) {
                Some(cell) => Some(Hit::Cell(cell)),
                None => None,
            },
            Chart::Radar(chart) => match chart.hit_test(bounds, cursor, direction) {
                Some(i) => Some(Hit::Axis(i)),
                None => None,
            },
            Chart::Circle(chart) => if chart.hit_test(bounds, cursor) {
                Some(Hit::Gauge)
            } else {
                None
            },
        }
    }

    /// The pointer shape to show inside `bounds`: a crosshair over the
    /// line chart, the heatmap and the radar chart, a pointing hand over
    /// the others.
    pub open spec fn affordance(&self) -> Interaction {
        match self {
            Chart::Line(_) => Interaction::Crosshair,
            Chart::Heatmap(_) => Interaction::Crosshair,
            Chart::Radar(_) => Interaction::Crosshair,
            _ => Interaction::Pointer,
        }
    }

    /// The pointer shape to show.
    pub fn mouse_interaction(
        &self,
        state: &ChartState,
        bounds: Rectangle,
        cursor: Cursor,
    ) -> (shape: Interaction)
        ensures
            shape == if cursor.spec_position_in(bounds) is Some {
                self.affordance()
            } else {
                Interaction::Idle
            },
    {
        match self {
            Chart::Line(chart) => chart.mouse_interaction(&state.interaction, bounds, cursor),
            Chart::Bar(chart) => chart.mouse_interaction(&state.interaction, bounds, cursor),
            Chart::Pie(chart) => chart.mouse_interaction(state, bounds, cursor),
            Chart::Heatmap(chart) => chart.mouse_interaction(&state.interaction, bounds, cursor),
            Chart::Radar(chart) => chart.mouse_interaction(&state.interaction, bounds, cursor),
            Chart::Circle(chart) => chart.mouse_interaction(&state.interaction, bounds, cursor),
        }
    }
}

} // verus!
