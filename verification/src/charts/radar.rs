//! The radar chart: one axis per label, spread evenly around a centre, and
//! one closed polygon per series.

use vstd::prelude::*;
use vstd::string::*;
use crate::charts::cache::GeometryCache;
use crate::charts::geometry::Cursor;
use crate::charts::geometry::HorizontalAlign;
use crate::charts::geometry::Interaction;
use crate::charts::geometry::Point;
use crate::charts::geometry::PolarPoint;
use crate::charts::geometry::Rectangle;
use crate::charts::geometry::Size;
use crate::charts::geometry::Stroke;
use crate::charts::geometry::Theme;
use crate::charts::geometry::VerticalAlign;
use crate::charts::interaction::ChartKind;
use crate::charts::interaction::Event;
use crate::charts::model::InteractionConfig;
use crate::charts::model::InteractionState;
use crate::charts::model::RadarAxes;
use crate::charts::model::RadarSeries;
use crate::charts::numeric::div_floor;
use crate::charts::numeric::mul_wide;
use crate::charts::scale::lemma_share_bound;
use crate::charts::parts::emit_selection;
use crate::charts::parts::make_tooltip;
use crate::charts::parts::make_value_label;
use crate::charts::parts::selection_shapes;
use crate::charts::parts::tooltip_at;
use crate::charts::parts::value_label;
use crate::charts::parts::HAIRLINE;
use crate::charts::parts::LABEL_SIZE;
use crate::charts::parts::SERIES_WIDTH;
use crate::charts::polar::axis_angle;
use crate::charts::polar::center;
use crate::charts::polar::nearest_axis;
use crate::charts::polar::part;
use crate::charts::polar::radius;
use crate::charts::polar::ratio;
use crate::charts::polar::spec_axis_angle;
use crate::charts::polar::spec_center;
use crate::charts::polar::spec_nearest_axis;
use crate::charts::polar::spec_part;
use crate::charts::polar::spec_radius;
use crate::charts::polar::spec_ratio;
use crate::charts::shape::emit;
use crate::charts::shape::layer_views;
use crate::charts::shape::views;
use crate::charts::shape::Shape;
use crate::charts::shape::ShapeView;

verus! {

/// A radar chart over any number of series that share one set of axes.
#[derive(Debug, Clone, PartialEq, Eq)]
pub struct RadarChart {
    pub axes: RadarAxes,
    pub series: Vec<RadarSeries>,
    pub interaction: InteractionConfig,
}

/// The reference rings: four circles around the centre, at one, two, three
/// and four quarters of the radius.
pub open spec fn rings(center: Point, radius: i32, theme: Theme) -> Seq<ShapeView> {
    Seq::new(
        4,
        |k: int|
            ShapeView::StrokeCircle {
                center,
                radius: ((radius * (k + 1)) / 4) as i32,
                stroke: Stroke { width: HAIRLINE, color: theme.background_weak },
            },
    )
}

impl RadarChart {
    /// A chart with every interaction enabled.
    pub open spec fn spec_new(axes: RadarAxes, series: Vec<RadarSeries>) -> RadarChart {
        RadarChart {
            axes,
            series,
            interaction: InteractionConfig {
                enable_hover: true,
                enable_zoom: true,
                enable_pan: true,
                enable_selection: true,
            },
        }
    }

    pub fn new(axes: RadarAxes, series: Vec<RadarSeries>) -> (chart: Self)
        ensures
            chart == RadarChart::spec_new(axes, series),
    {
        RadarChart { axes, series, interaction: InteractionConfig::default() }
    }

    pub fn with_interaction(self, interaction: InteractionConfig) -> (chart: Self)
        ensures
            chart.axes == self.axes,
            chart.series == self.series,
            chart.interaction == interaction,
    {
        RadarChart { axes: self.axes, series: self.series, interaction }
    }

    /// Whether there is nothing to draw: no axis or no series.
    pub open spec fn is_empty(&self) -> bool {
        self.axes.labels@.len() == 0 || self.series@.len() == 0
    }

    /// The centre of the disc.
    pub open spec fn spec_center(&self, state: InteractionState, size: Size) -> Point {
        spec_center(size, state.pan)
    }

    /// The radius of the disc.
    pub open spec fn spec_radius(&self, state: InteractionState, size: Size) -> i32 {
        spec_radius(size, state.spec_effective_zoom()) as i32
    }

    /// The outer end of axis `i`.
    pub open spec fn axis_tip(&self, state: InteractionState, size: Size, i: int) -> PolarPoint {
        PolarPoint {
            center: self.spec_center(state, size),
            radius: self.spec_radius(state, size),
            angle: spec_axis_angle(i, self.axes.labels@.len() as int) as i32,
        }
    }

    /// What axis `i` contributes: its spoke, and its label on the outer end
    /// of the spoke.
    pub open spec fn axis_item(
        &self,
        state: InteractionState,
        size: Size,
        theme: Theme,
        i: int,
    ) -> Seq<ShapeView> {
        seq![
            ShapeView::Spoke {
                tip: self.axis_tip(state, size, i),
                stroke: Stroke { width: HAIRLINE, color: theme.background_weak },
            },
            ShapeView::PolarText {
                content: self.axes.labels@[i]@,
                anchor: self.axis_tip(state, size, i),
                color: theme.text,
                size: LABEL_SIZE,
                align_x: HorizontalAlign::Center,
                align_y: VerticalAlign::Center,
            },
        ]
    }

    /// The spokes and labels of the first `k` axes.
    pub open spec fn axis_items(
        &self,
        state: InteractionState,
        size: Size,
        theme: Theme,
        k: nat,
    ) -> Seq<ShapeView>
        decreases k,
    {
        if k == 0 {
            Seq::empty()
        } else {
            self.axis_items(state, size, theme, (k - 1) as nat) + self.axis_item(
                state,
                size,
                theme,
                k - 1,
            )
        }
    }

    /// The vertex of a series on axis `i`: as far out along the axis as the
    /// value has a share of the common ceiling.
    pub open spec fn vertex(
        &self,
        state: InteractionState,
        size: Size,
        value: i32,
        i: int,
    ) -> PolarPoint {
        PolarPoint {
            center: self.spec_center(state, size),
            radius: spec_part(
                self.spec_radius(state, size) as int,
                spec_ratio(value as int, self.axes.max_value as int),
            ) as i32,
            angle: spec_axis_angle(i, self.axes.labels@.len() as int) as i32,
        }
    }

    /// The vertices of a series, in the order of its values.
    pub open spec fn vertices(&self, state: InteractionState, size: Size, values: Seq<i32>) -> Seq<
        PolarPoint,
    > {
        Seq::new(values.len(), |i: int| self.vertex(state, size, values[i], i))
    }

    /// The closed polygon of series `s`.
    pub open spec fn polygon(&self, state: InteractionState, size: Size, s: int) -> ShapeView {
        ShapeView::PolarPolygon {
            vertices: self.vertices(state, size, self.series@[s].values@),
            stroke: Stroke { width: SERIES_WIDTH, color: self.series@[s].color },
        }
    }

    /// The polygons of all series.
    pub open spec fn polygons(&self, state: InteractionState, size: Size) -> Seq<ShapeView> {
        Seq::new(self.series@.len(), |s: int| self.polygon(state, size, s))
    }

    /// The base layer: nothing if there is no axis or no series, else the
    /// reference rings, the axes with their labels, and the polygons of the
    /// series.
    pub open spec fn base_shapes(
        &self,
        state: InteractionState,
        size: Size,
        theme: Theme,
    ) -> Seq<ShapeView> {
        if self.is_empty() {
            Seq::empty()
        } else {
            rings(self.spec_center(state, size), self.spec_radius(state, size), theme)
                + self.axis_items(state, size, theme, self.axes.labels@.len()) + self.polygons(
                state,
                size,
            )
        }
    }

    /// The axis a pointer in the given direction points at, if the first
    /// series has a value on it. Only the first series is reported.
    pub open spec fn axis_toward(&self, direction: i32) -> Option<usize> {
        let axis = spec_nearest_axis(direction as int, self.axes.labels@.len() as int);
        if !self.is_empty() && axis < self.series@[0].values@.len() {
            Some(axis as usize)
        } else {
            None
        }
    }

    /// The axis under the pointer, if the pointer is inside `bounds`.
    pub open spec fn spec_hit_test(
        &self,
        bounds: Rectangle,
        cursor: Cursor,
        direction: i32,
    ) -> Option<usize> {
        if cursor.spec_position_in(bounds) is Some {
            self.axis_toward(direction)
        } else {
            None
        }
    }

    /// The overlay for a pointer at `at` in the given direction from the
    /// centre: the tooltip of the axis it points at, if the first series
    /// has a value there, and the outline of the selection, if there is one.
    pub open spec fn overlay_shapes(
        &self,
        state: InteractionState,
        theme: Theme,
        at: Point,
        direction: i32,
    ) -> Seq<ShapeView> {
        (match self.axis_toward(direction) {
            Some(axis) => seq![
                tooltip_at(
                    value_label(
                        self.axes.labels@[axis as int]@,
                        self.series@[0].values@[axis as int] as int,
                    ),
                    at,
                    theme,
                ),
            ],
            None => Seq::empty(),
        }) + selection_shapes(state, theme)
    }

    /// The layers of one frame around a given base layer: none if there is
    /// no axis or no series, else the base layer and, with the pointer
    /// inside `bounds`, the overlay.
    pub open spec fn layers(
        &self,
        state: InteractionState,
        theme: Theme,
        bounds: Rectangle,
        cursor: Cursor,
        direction: i32,
        base: Seq<ShapeView>,
    ) -> Seq<Seq<ShapeView>> {
        if self.is_empty() {
            Seq::empty()
        } else {
            match cursor.spec_position_in(bounds) {
                Some(at) => seq![base, self.overlay_shapes(state, theme, at, direction)],
                None => seq![base],
            }
        }
    }

    /// Applies one event to the view state and says whether a redraw is
    /// wanted.
    pub fn update(
        &self,
        state: &mut InteractionState,
        event: &Event,
        bounds: Rectangle,
        cursor: Cursor,
    ) -> (redraw: bool)
        ensures
            *final(state) == old(state).after(
                ChartKind::Radar,
                self.interaction,
                *event,
                bounds,
                cursor,
            ),
            redraw == old(state).requests_redraw(self.interaction, *event),
    {
        state.handle(ChartKind::Radar, &self.interaction, event, bounds, cursor)
    }

    /// The centre of the disc, from which the host takes the direction of
    /// the pointer.
    pub fn center(&self, state: &InteractionState, size: Size) -> (c: Point)
        ensures
            c == self.spec_center(*state, size),
    {
        center(size, state.pan)
    }

    fn emit_series(&self, shapes: &mut Vec<Shape>, state: &InteractionState, size: Size)
        requires
            self.axes.labels@.len() > 0,
        ensures
            views(final(shapes)@) == views(old(shapes)@) + self.polygons(*state, size),
    {
        let ghost start = views(shapes@);
        let c: Point = center(size, state.pan);
        let r: i32 = radius(size, state.effective_zoom());
        let n: usize = self.axes.labels.len();
        let mut s: usize = 0;
        while s < self.series.len()
            invariant
                s <= self.series@.len(),
                n == self.axes.labels@.len(),
                n > 0,
                c == self.spec_center(*state, size),
                r == self.spec_radius(*state, size),
                views(shapes@) == start + self.polygons(*state, size).subrange(0, s as int),
            decreases self.series.len() - s,
        {
            let series = &self.series[s];
            let mut vertices: Vec<PolarPoint> = Vec::new();
            let mut i: usize = 0;
            while i < series.values.len()
                invariant
                    i <= series.values@.len(),
                    n == self.axes.labels@.len(),
                    n > 0,
                    c == self.spec_center(*state, size),
                    r == self.spec_radius(*state, size),
                    vertices@ == self.vertices(*state, size, series.values@).subrange(0, i as int),
                decreases series.values.len() - i,
            {
                let share: i32 = ratio(series.values[i], self.axes.max_value);
                vertices.push(
                    PolarPoint { center: c, radius: part(r, share), angle: axis_angle(i, n) },
                );
                i += 1;
            }
            assert(vertices@ =~= self.vertices(*state, size, series.values@));
            emit(
                shapes,
                Shape::PolarPolygon {
                    vertices,
                    stroke: Stroke { width: SERIES_WIDTH, color: series.color },
                },
            );
            s += 1;
        }
    }

    /// Computes the base layer for a viewport of `size`.
    pub fn base_geometry(
        &self,
        state: &InteractionState,
        size: Size,
        theme: &Theme,
    ) -> (shapes: Vec<Shape>)
        ensures
            views(shapes@) == self.base_shapes(*state, size, *theme),
    {
        let mut shapes: Vec<Shape> = Vec::new();
        if self.axes.labels.len() == 0 || self.series.len() == 0 {
            return shapes;
        }
        let c: Point = center(size, state.pan);
        let r: i32 = radius(size, state.effective_zoom());
        let weak = Stroke { width: HAIRLINE, color: theme.background_weak };
        let mut ring: i32 = 1;
        while ring <= 4
            invariant
                1 <= ring <= 5,
                weak == (Stroke { width: HAIRLINE, color: theme.background_weak }),
                views(shapes@) == rings(c, r, *theme).subrange(0, ring - 1),
            decreases 5 - ring,
        {
            let reach: i128 = div_floor(mul_wide(r as i64, ring as i64), 4);
            proof {
                lemma_share_bound(ring as int, r as int, 4);
                assert(ring as int * r as int == r as int * ring as int) by (nonlinear_arith);
            }
            emit(
                &mut shapes,
                Shape::StrokeCircle { center: c, radius: reach as i32, stroke: weak },
            );
            ring += 1;
        }
        let ghost circles = views(shapes@);
        let n: usize = self.axes.labels.len();
        let mut i: usize = 0;
        while i < n
            invariant
                i <= n,
                n == self.axes.labels@.len(),
                c == self.spec_center(*state, size),
                r == self.spec_radius(*state, size),
                weak == (Stroke { width: HAIRLINE, color: theme.background_weak }),
                views(shapes@) == circles + self.axis_items(*state, size, *theme, i as nat),
            decreases n - i,
        {
            let tip = PolarPoint { center: c, radius: r, angle: axis_angle(i, n) };
            emit(&mut shapes, Shape::Spoke { tip, stroke: weak });
            emit(
                &mut shapes,
                Shape::PolarText {
                    content: self.axes.labels[i].clone(),
                    anchor: tip,
                    color: theme.text,
                    size: LABEL_SIZE,
                    align_x: HorizontalAlign::Center,
                    align_y: VerticalAlign::Center,
                },
            );
            i += 1;
        }
        self.emit_series(&mut shapes, state, size);
        shapes
    }

    /// The axis a pointer in the given direction points at.
    pub fn axis_under(&self, direction: i32) -> (hit: Option<usize>)
        ensures
            hit == self.axis_toward(direction),
            hit matches Some(axis) ==> axis < self.axes.labels@.len() && self.series@.len() > 0
                && axis < self.series@[0].values@.len(),
    {
        if self.axes.labels.len() == 0 || self.series.len() == 0 {
            return None;
        }
        let axis: usize = nearest_axis(direction, self.axes.labels.len());
        if axis < self.series[0].values.len() {
            Some(axis)
        } else {
            None
        }
    }

    /// The axis under the pointer, if the pointer is inside `bounds`.
    /// `direction` is the direction from the centre of the disc to the
    /// pointer.
    pub fn hit_test(&self, bounds: Rectangle, cursor: Cursor, direction: i32) -> (hit: Option<
        usize,
    >)
        ensures
            hit == self.spec_hit_test(bounds, cursor, direction),
    {
        if cursor.position_in(bounds).is_some() {
            self.axis_under(direction)
        } else {
            None
        }
    }

    /// Computes the overlay for a pointer at `at` in the given direction
    /// from the centre.
    pub fn overlay_geometry(
        &self,
        state: &InteractionState,
        theme: &Theme,
        at: Point,
        direction: i32,
    ) -> (shapes: Vec<Shape>)
        ensures
            views(shapes@) == self.overlay_shapes(*state, *theme, at, direction),
    {
        let mut shapes: Vec<Shape> = Vec::new();
        match self.axis_under(direction) {
            Some(axis) => {
                let label = make_value_label(&self.axes.labels[axis], self.series[0].values[axis]);
                emit(&mut shapes, make_tooltip(label, at, theme));
            },
            None => {},
        }
        emit_selection(&mut shapes, state, theme);
        shapes
    }

    /// Draws one frame. Without an axis or without a series there are no
    /// layers. Otherwise the base layer comes first, from the cache if the
    /// cache holds a layer for the size of `bounds` and computed and
    /// remembered if not; with the pointer inside `bounds` the overlay
    /// follows. `direction` is the direction from the centre of the disc to
    /// the pointer; it is not looked at while the pointer is outside.
    pub fn draw(
        &self,
        cache: &mut GeometryCache,
        state: &InteractionState,
        theme: &Theme,
        bounds: Rectangle,
        cursor: Cursor,
        direction: i32,
    ) -> (layers: Vec<Vec<Shape>>)
        ensures
            layer_views(layers@) == self.layers(
                *state,
                *theme,
                bounds,
                cursor,
                direction,
                old(cache).resolve(
                    bounds.spec_size(),
                    self.base_shapes(*state, bounds.spec_size(), *theme),
                ),
            ),
            self.is_empty() ==> layers@.len() == 0,
            self.is_empty() ==> *final(cache) == *old(cache),
            !self.is_empty() ==> final(cache).key() == Some(bounds.spec_size())
                && final(cache).layer() == old(cache).resolve(
                bounds.spec_size(),
                self.base_shapes(*state, bounds.spec_size(), *theme),
            ),
    {
        let mut layers: Vec<Vec<Shape>> = Vec::new();
        if self.axes.labels.len() == 0 || self.series.len() == 0 {
            return layers;
        }
        let size = bounds.size();
        let base = match cache.lookup(size) {
            Some(shapes) => shapes,
            None => {
                let shapes = self.base_geometry(state, size, theme);
                cache.store(size, &shapes);
                shapes
            },
        };
        layers.push(base);
        match cursor.position_in(bounds) {
            Some(at) => {
                let overlay = self.overlay_geometry(state, theme, at, direction);
                layers.push(overlay);
            },
            None => {},
        }
        layers
    }

    /// The pointer shape to show: a crosshair inside `bounds`.
    pub fn mouse_interaction(
        &self,
        state: &InteractionState,
        bounds: Rectangle,
        cursor: Cursor,
    ) -> (shape: Interaction)
        ensures
            shape == if cursor.spec_position_in(bounds) is Some {
                Interaction::Crosshair
            } else {
                Interaction::Idle
            },
    {
        if cursor.position_in(bounds).is_some() {
            Interaction::Crosshair
        } else {
            Interaction::Idle
        }
    }
}

} // verus!
