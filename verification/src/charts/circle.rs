//! The circular gauge: one ratio shown as an arc over a faint full circle.

use vstd::prelude::*;
use vstd::string::*;
use crate::charts::cache::GeometryCache;
use crate::charts::geometry::Cursor;
use crate::charts::geometry::HorizontalAlign;
use crate::charts::geometry::Interaction;
use crate::charts::geometry::Point;
use crate::charts::geometry::Rectangle;
use crate::charts::geometry::Size;
use crate::charts::geometry::Stroke;
use crate::charts::geometry::Theme;
use crate::charts::geometry::VerticalAlign;
use crate::charts::geometry::NOON;
use crate::charts::interaction::ChartKind;
use crate::charts::interaction::Event;
use crate::charts::model::CircleMetric;
use crate::charts::model::InteractionConfig;
use crate::charts::model::InteractionState;
use crate::charts::numeric::sat;
use crate::charts::numeric::saturate;
use crate::charts::parts::emit_selection;
use crate::charts::parts::make_tooltip;
use crate::charts::parts::selection_shapes;
use crate::charts::parts::tooltip_at;
use crate::charts::parts::TOOLTIP_SIZE;
use crate::charts::polar::center;
use crate::charts::polar::radius;
use crate::charts::polar::ratio;
use crate::charts::polar::spec_center;
use crate::charts::polar::spec_radius;
use crate::charts::polar::spec_ratio;
use crate::charts::shape::emit;
use crate::charts::shape::layer_views;
use crate::charts::shape::views;
use crate::charts::shape::Shape;
use crate::charts::shape::ShapeView;
use crate::text::append_fixed0;
use crate::text::append_fixed2;
use crate::text::fixed0;
use crate::text::fixed2;

verus! {

/// The line width of the track and of the arc.
pub const TRACK_WIDTH: i32 = 12_000;

/// The size of the percentage in the middle.
pub const PERCENT_SIZE: i32 = 20_000;

/// A circular gauge over one metric.
#[derive(Debug, Clone, PartialEq, Eq)]
pub struct CircleChart {
    pub metric: CircleMetric,
    pub interaction: InteractionConfig,
}

/// The text in the middle of the gauge: the share as a whole percentage.
pub open spec fn percent_text(share: int) -> Seq<char> {
    fixed0(share * 100) + "%"@
}

/// The text of the tooltip of a gauge: the label, the value and the
/// ceiling, both with two decimal places.
pub open spec fn metric_label(label: Seq<char>, value: int, max: int) -> Seq<char> {
    label + ": "@ + fixed2(value) + " / "@ + fixed2(max)
}

/// Builds the text of the tooltip of a gauge.
pub fn make_metric_label(label: &String, value: i32, max: i32) -> (text: String)
    ensures
        text@ == metric_label(label@, value as int, max as int),
{
    let mut text = label.clone();
    text.append(": ");
    append_fixed2(&mut text, value);
    text.append(" / ");
    append_fixed2(&mut text, max);
    text
}

impl CircleChart {
    /// A gauge with every interaction enabled.
    pub open spec fn spec_new(metric: CircleMetric) -> CircleChart {
        CircleChart {
            metric,
            interaction: InteractionConfig {
                enable_hover: true,
                enable_zoom: true,
                enable_pan: true,
                enable_selection: true,
            },
        }
    }

    pub fn new(metric: CircleMetric) -> (chart: Self)
        ensures
            chart == CircleChart::spec_new(metric),
    {
        CircleChart { metric, interaction: InteractionConfig::default() }
    }

    pub fn with_interaction(self, interaction: InteractionConfig) -> (chart: Self)
        ensures
            chart.metric == self.metric,
            chart.interaction == interaction,
    {
        CircleChart { metric: self.metric, interaction }
    }

    /// The share of the ceiling the value has, in thousandths, from zero to
    /// one.
    pub open spec fn share(&self) -> int {
        spec_ratio(self.metric.value as int, self.metric.max as int)
    }

    /// The angle at which the arc ends. It starts at twelve o'clock and
    /// sweeps clockwise over the share of the full turn.
    pub open spec fn arc_end(&self) -> int {
        self.share() * 360 + NOON
    }

    /// The base layer: the track, the arc, the percentage in the middle,
    /// and the label below it.
    pub open spec fn base_shapes(
        &self,
        state: InteractionState,
        size: Size,
        theme: Theme,
    ) -> Seq<ShapeView> {
        let c = spec_center(size, state.pan);
        let r = spec_radius(size, state.spec_effective_zoom()) as i32;
        seq![
            ShapeView::StrokeCircle {
                center: c,
                radius: r,
                stroke: Stroke { width: TRACK_WIDTH, color: theme.background_weak },
            },
            ShapeView::StrokeArc {
                center: c,
                radius: r,
                start_angle: NOON,
                end_angle: self.arc_end() as i32,
                stroke: Stroke { width: TRACK_WIDTH, color: self.metric.color },
            },
            ShapeView::Text {
                content: percent_text(self.share()),
                position: c,
                color: theme.text,
                size: PERCENT_SIZE,
                align_x: HorizontalAlign::Center,
                align_y: VerticalAlign::Center,
            },
            ShapeView::Text {
                content: self.metric.label@,
                position: Point { x: c.x, y: sat(c.y + 22000) as i32 },
                color: theme.text,
                size: TOOLTIP_SIZE,
                align_x: HorizontalAlign::Center,
                align_y: VerticalAlign::Top,
            },
        ]
    }

    /// Whether the pointer is over the gauge: anywhere inside `bounds`,
    /// whether on the arc or not.
    pub open spec fn spec_hit_test(&self, bounds: Rectangle, cursor: Cursor) -> bool {
        cursor.spec_position_in(bounds) is Some
    }

    /// The overlay for a pointer at `at`: the tooltip with the value and
    /// the ceiling, and the outline of the selection, if there is one.
    pub open spec fn overlay_shapes(&self, state: InteractionState, theme: Theme, at: Point) -> Seq<
        ShapeView,
    > {
        seq![
            tooltip_at(
                metric_label(
                    self.metric.label@,
                    self.metric.value as int,
                    self.metric.max as int,
                ),
                at,
                theme,
            ),
        ] + selection_shapes(state, theme)
    }

    /// The layers of one frame around a given base layer: the base layer
    /// and, with the pointer inside `bounds`, the overlay.
    pub open spec fn layers(
        &self,
        state: InteractionState,
        theme: Theme,
        bounds: Rectangle,
        cursor: Cursor,
        base: Seq<ShapeView>,
    ) -> Seq<Seq<ShapeView>> {
        match cursor.spec_position_in(bounds) {
            Some(at) => seq![base, self.overlay_shapes(state, theme, at)],
            None => seq![base],
        }
    }

    /// Applies one event to the view state and says whether a redraw is
    /// wanted.
    pub fn update(
        &self,
        state: &mut InteractionState,
        event: &Event,
        bounds: Rectangle,
        cursor: Cursor,
    ) -> (redraw: bool)
        ensures
            *final(state) == old(state).after(
                ChartKind::Circle,
                self.interaction,
                *event,
                bounds,
                cursor,
            ),
            redraw == old(state).requests_redraw(self.interaction, *event),
    {
        state.handle(ChartKind::Circle, &self.interaction, event, bounds, cursor)
    }

    /// Computes the base layer for a viewport of `size`.
    pub fn base_geometry(
        &self,
        state: &InteractionState,
        size: Size,
        theme: &Theme,
    ) -> (shapes: Vec<Shape>)
        ensures
            views(shapes@) == self.base_shapes(*state, size, *theme),
    {
        let mut shapes: Vec<Shape> = Vec::new();
        let c: Point = center(size, state.pan);
        let r: i32 = radius(size, state.effective_zoom());
        let share: i32 = ratio(self.metric.value, self.metric.max);
        let mut percent = String::new();
        append_fixed0(&mut percent, share * 100);
        percent.append("%");
        emit(
            &mut shapes,
            Shape::StrokeCircle {
                center: c,
                radius: r,
                stroke: Stroke { width: TRACK_WIDTH, color: theme.background_weak },
            },
        );
        emit(
            &mut shapes,
            Shape::StrokeArc {
                center: c,
                radius: r,
                start_angle: NOON,
                end_angle: share * 360 + NOON,
                stroke: Stroke { width: TRACK_WIDTH, color: self.metric.color },
            },
        );
        emit(
            &mut shapes,
            Shape::Text {
                content: percent,
                position: c,
                color: theme.text,
                size: PERCENT_SIZE,
                align_x: HorizontalAlign::Center,
                align_y: VerticalAlign::Center,
            },
        );
        emit(
            &mut shapes,
            Shape::Text {
                content: self.metric.label.clone(),
                position: Point { x: c.x, y: saturate(c.y as i128 + 22000) },
                color: theme.text,
                size: TOOLTIP_SIZE,
                align_x: HorizontalAlign::Center,
                align_y: VerticalAlign::Top,
            },
        );
        shapes
    }

    /// Whether the pointer is over the gauge.
    pub fn hit_test(&self, bounds: Rectangle, cursor: Cursor) -> (hit: bool)
        ensures
            hit == self.spec_hit_test(bounds, cursor),
    {
        cursor.position_in(bounds).is_some()
    }

    /// Computes the overlay for a pointer at `at`.
    pub fn overlay_geometry(
        &self,
        state: &InteractionState,
        theme: &Theme,
        at: Point,
    ) -> (shapes: Vec<Shape>)
        ensures
            views(shapes@) == self.overlay_shapes(*state, *theme, at),
    {
        let mut shapes: Vec<Shape> = Vec::new();
        let label = make_metric_label(&self.metric.label, self.metric.value, self.metric.max);
        emit(&mut shapes, make_tooltip(label, at, theme));
        emit_selection(&mut shapes, state, theme);
        shapes
    }

    /// Draws one frame. The base layer comes first, from the cache if the
    /// cache holds a layer for the size of `bounds` and computed and
    /// remembered if not; with the pointer inside `bounds` the overlay
    /// follows.
    pub fn draw(
        &self,
        cache: &mut GeometryCache,
        state: &InteractionState,
        theme: &Theme,
        bounds: Rectangle,
        cursor: Cursor,
    ) -> (layers: Vec<Vec<Shape>>)
        ensures
            layer_views(layers@) == self.layers(
                *state,
                *theme,
                bounds,
                cursor,
                old(cache).resolve(
                    bounds.spec_size(),
                    self.base_shapes(*state, bounds.spec_size(), *theme),
                ),
            ),
            final(cache).key() == Some(bounds.spec_size()),
            final(cache).layer() == old(cache).resolve(
                bounds.spec_size(),
                self.base_shapes(*state, bounds.spec_size(), *theme),
            ),
    {
        let mut layers: Vec<Vec<Shape>> = Vec::new();
        let size = bounds.size();
        let base = match cache.lookup(size) {
            Some(shapes) => shapes,
            None => {
                let shapes = self.base_geometry(state, size, theme);
                cache.store(size, &shapes);
                shapes
            },
        };
        layers.push(base);
        match cursor.position_in(bounds) {
            Some(at) => {
                let overlay = self.overlay_geometry(state, theme, at);
                layers.push(overlay);
            },
            None => {},
        }
        layers
    }

    /// The pointer shape to show: a pointing hand inside `bounds`.
    pub fn mouse_interaction(
        &self,
        state: &InteractionState,
        bounds: Rectangle,
        cursor: Cursor,
    ) -> (shape: Interaction)
        ensures
            shape == if cursor.spec_position_in(bounds) is Some {
                Interaction::Pointer
            } else {
                Interaction::Idle
            },
    {
        if cursor.position_in(bounds).is_some() {
            Interaction::Pointer
        } else {
            Interaction::Idle
        }
    }
}

} // verus!
