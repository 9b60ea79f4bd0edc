//! The line chart: polylines over a grid of ticks, with a tooltip on the
//! data point nearest to the pointer.

use vstd::prelude::*;
use vstd::string::*;
use crate::charts::cache::GeometryCache;
use crate::charts::geometry::Color;
use crate::charts::geometry::Cursor;
use crate::charts::geometry::HorizontalAlign;
use crate::charts::geometry::Interaction;
use crate::charts::geometry::Point;
use crate::charts::geometry::Rectangle;
use crate::charts::geometry::Size;
use crate::charts::geometry::Stroke;
use crate::charts::geometry::Theme;
use crate::charts::geometry::VerticalAlign;
use crate::charts::interaction::ChartKind;
use crate::charts::interaction::Event;
use crate::charts::model::InteractionConfig;
use crate::charts::model::InteractionState;
use crate::charts::model::LineChartConfig;
use crate::charts::model::LineSeries;
use crate::charts::numeric::lemma_mul_bound;
use crate::charts::numeric::max_int;
use crate::charts::numeric::min_int;
use crate::charts::numeric::mul_index;
use crate::charts::numeric::mul_wide;
use crate::charts::numeric::sat;
use crate::charts::numeric::saturate;
use crate::charts::parts::axes;
use crate::charts::parts::emit_axes;
use crate::charts::parts::emit_selection;
use crate::charts::parts::selection_shapes;
use crate::charts::parts::HAIRLINE;
use crate::charts::parts::LABEL_SIZE;
use crate::charts::parts::SERIES_WIDTH;
use crate::charts::parts::TOOLTIP_SIZE;
use crate::charts::scale::division;
use crate::charts::scale::spec_division;
use crate::charts::scale::Plot;
use crate::charts::scale::Scale;
use crate::charts::shape::emit;
use crate::charts::shape::layer_views;
use crate::charts::shape::views;
use crate::charts::shape::Shape;
use crate::charts::shape::ShapeView;
use crate::text::append_fixed2;
use crate::text::byte_len;
use crate::text::fixed2;
use crate::text::fixed2_text;

verus! {

/// The radius of the dot on the nearest point.
pub const MARKER_RADIUS: i32 = 3500;

/// The extremes of a set of data points, or the domain of a pair of axes.
#[derive(Debug, Clone, Copy, PartialEq, Eq, Structural)]
pub struct Extent {
    pub x_min: i32,
    pub x_max: i32,
    pub y_min: i32,
    pub y_max: i32,
}

/// A data point of a line chart: the index of its series and its index in
/// the series.
#[derive(Debug, Clone, Copy, PartialEq, Eq, Structural)]
pub struct Nearest {
    pub series: usize,
    pub point: usize,
}

/// A line chart over any number of series.
#[derive(Debug, Clone, PartialEq, Eq)]
pub struct LineChart {
    pub series: Vec<LineSeries>,
    pub x_range: Option<(i32, i32)>,
    pub y_range: Option<(i32, i32)>,
    pub config: LineChartConfig,
    pub interaction: InteractionConfig,
}

/// The extremes once one more point is taken in.
pub open spec fn grow(extent: Option<Extent>, point: (i32, i32)) -> Option<Extent> {
    match extent {
        None => Some(
            Extent { x_min: point.0, x_max: point.0, y_min: point.1, y_max: point.1 },
        ),
        Some(e) => Some(
            Extent {
                x_min: min_int(e.x_min as int, point.0 as int) as i32,
                x_max: max_int(e.x_max as int, point.0 as int) as i32,
                y_min: min_int(e.y_min as int, point.1 as int) as i32,
                y_max: max_int(e.y_max as int, point.1 as int) as i32,
            },
        ),
    }
}

/// The extremes of `start` and the first `k` of `points`.
pub open spec fn extent_of_points(start: Option<Extent>, points: Seq<(i32, i32)>, k: nat) -> Option<
    Extent,
>
    decreases k,
{
    if k == 0 {
        start
    } else {
        grow(extent_of_points(start, points, (k - 1) as nat), points[k - 1])
    }
}

/// The extremes of all points of the first `k` series; none if they have
/// no point.
pub open spec fn extent_of_series(series: Seq<LineSeries>, k: nat) -> Option<Extent>
    decreases k,
{
    if k == 0 {
        None
    } else {
        extent_of_points(
            extent_of_series(series, (k - 1) as nat),
            series[k - 1].points@,
            series[k - 1].points@.len(),
        )
    }
}

/// Whether `point` lies between the extremes.
pub open spec fn holds(extent: Extent, point: (i32, i32)) -> bool {
    &&& extent.x_min <= point.0 <= extent.x_max
    &&& extent.y_min <= point.1 <= extent.y_max
}

/// Whether `inner` lies between the extremes of `outer`.
pub open spec fn within(inner: Extent, outer: Extent) -> bool {
    &&& outer.x_min <= inner.x_min
    &&& inner.x_max <= outer.x_max
    &&& outer.y_min <= inner.y_min
    &&& inner.y_max <= outer.y_max
}

/// The extremes taken over points hold whatever the start held.
pub proof fn lemma_extent_keeps_start(start: Extent, points: Seq<(i32, i32)>, k: nat)
    requires
        k <= points.len(),
    ensures
        extent_of_points(Some(start), points, k) is Some,
        within(start, extent_of_points(Some(start), points, k)->0),
    decreases k,
{
    if k > 0 {
        lemma_extent_keeps_start(start, points, (k - 1) as nat);
    }
}

/// The extremes taken over points hold each of the points.
pub proof fn lemma_extent_holds_point(
    start: Option<Extent>,
    points: Seq<(i32, i32)>,
    k: nat,
    j: int,
)
    requires
        k <= points.len(),
        0 <= j < k,
    ensures
        extent_of_points(start, points, k) is Some,
        holds(extent_of_points(start, points, k)->0, points[j]),
    decreases k,
{
    if j < k - 1 {
        lemma_extent_holds_point(start, points, (k - 1) as nat, j);
    }
}

/// The extremes taken over series hold every point of every series.
pub proof fn lemma_extent_holds_series(series: Seq<LineSeries>, k: nat, s: int, p: int)
    requires
        k <= series.len(),
        0 <= s < k,
        0 <= p < series[s].points@.len(),
    ensures
        extent_of_series(series, k) is Some,
        holds(extent_of_series(series, k)->0, series[s].points@[p]),
    decreases k,
{
    let before = extent_of_series(series, (k - 1) as nat);
    let last = series[k - 1].points@;
    if s < k - 1 {
        lemma_extent_holds_series(series, (k - 1) as nat, s, p);
        lemma_extent_keeps_start(before->0, last, last.len());
    } else {
        lemma_extent_holds_point(before, last, last.len(), p);
    }
}

/// The text of a tooltip on a data point.
pub open spec fn point_label(name: Seq<char>, x: int, y: int) -> Seq<char> {
    name + ": x="@ + fixed2(x) + ", y="@ + fixed2(y)
}

/// The width of a tooltip box around a text of `bytes` bytes: seven pixels
/// a byte and six pixels of padding on either side.
pub open spec fn tooltip_width(bytes: int) -> int {
    bytes * 7000 + 12000
}

/// The left edge of the tooltip box of the pixel `p`: ten pixels to the
/// right of `p`, or, if the box would overshoot the right edge of the plot,
/// ten pixels to the left of `p` with its whole width.
pub open spec fn tooltip_left(plot: Plot, p: Point, bytes: int) -> int {
    if p.x + 10000 + tooltip_width(bytes) > plot.right {
        p.x - tooltip_width(bytes) - 10000
    } else {
        p.x + 10000
    }
}

/// The top edge of the tooltip box of the pixel `p`: ten pixels above `p`
/// with its whole height of twenty pixels, or, if that would overshoot the
/// top edge of the plot, ten pixels below `p`.
pub open spec fn tooltip_top(plot: Plot, p: Point) -> int {
    if p.y - 30000 < plot.top {
        p.y + 10000
    } else {
        p.y - 30000
    }
}

/// The tooltip box of the pixel `p`.
pub open spec fn tooltip_box(plot: Plot, p: Point, bytes: int) -> Rectangle {
    Rectangle {
        x: sat(tooltip_left(plot, p, bytes)) as i32,
        y: sat(tooltip_top(plot, p)) as i32,
        width: sat(tooltip_width(bytes)) as i32,
        height: 20000,
    }
}

/// What marks the data point at pixel `p`: guide lines through `p` across
/// the plot, a dot on `p`, and the tooltip box with its text.
pub open spec fn marker(plot: Plot, theme: Theme, p: Point, color: Color, label: Seq<char>) -> Seq<
    ShapeView,
> {
    let bytes = vstd::utf8::encode_utf8(label).len() as int;
    let weak = Stroke { width: HAIRLINE, color: theme.background_weak };
    seq![
        ShapeView::Line {
            from: Point { x: p.x, y: plot.top },
            to: Point { x: p.x, y: plot.bottom },
            stroke: weak,
        },
        ShapeView::Line {
            from: Point { x: plot.left, y: p.y },
            to: Point { x: plot.right, y: p.y },
            stroke: weak,
        },
        ShapeView::FillCircle { center: p, radius: MARKER_RADIUS, color },
        ShapeView::FillRect { rect: tooltip_box(plot, p, bytes), color: theme.background_strong },
        ShapeView::StrokeRect { rect: tooltip_box(plot, p, bytes), stroke: weak },
        ShapeView::Text {
            content: label,
            position: Point {
                x: sat(tooltip_left(plot, p, bytes) + 6000) as i32,
                y: sat(tooltip_top(plot, p) + 4000) as i32,
            },
            color: theme.background_strong_text,
            size: TOOLTIP_SIZE,
            align_x: HorizontalAlign::Left,
            align_y: VerticalAlign::Top,
        },
    ]
}

/// The pixels of a series, in path order.
pub open spec fn path_points(scale: Scale, points: Seq<(i32, i32)>) -> Seq<Point> {
    Seq::new(points.len(), |j: int| scale.spec_point_to_pixel(points[j].0, points[j].1))
}

/// The square of the distance, in pixels, from the pixel of a data point to
/// `at`.
pub open spec fn distance2(scale: Scale, point: (i32, i32), at: Point) -> int {
    let p = scale.spec_point_to_pixel(point.0, point.1);
    (p.x - at.x) * (p.x - at.x) + (p.y - at.y) * (p.y - at.y)
}

/// The nearer to `at` of `best` and the first `k` points of series `s`. A
/// later point wins only if it is strictly nearer.
pub open spec fn nearest_in_points(
    scale: Scale,
    at: Point,
    series: Seq<LineSeries>,
    s: int,
    best: Option<Nearest>,
    k: nat,
) -> Option<Nearest>
    decreases k,
{
    if k == 0 {
        best
    } else {
        let before = nearest_in_points(scale, at, series, s, best, (k - 1) as nat);
        let here = Some(Nearest { series: s as usize, point: (k - 1) as usize });
        match before {
            None => here,
            Some(n) => if distance2(scale, series[s].points@[k - 1], at) < distance2(
                scale,
                series[n.series as int].points@[n.point as int],
                at,
            ) {
                here
            } else {
                before
            },
        }
    }
}

/// The point nearest to `at` among all points of the first `k` series;
/// none if they have no point.
pub open spec fn nearest_in_series(
    scale: Scale,
    at: Point,
    series: Seq<LineSeries>,
    k: nat,
) -> Option<Nearest>
    decreases k,
{
    if k == 0 {
        None
    } else {
        nearest_in_points(
            scale,
            at,
            series,
            k - 1,
            nearest_in_series(scale, at, series, (k - 1) as nat),
            series[k - 1].points@.len(),
        )
    }
}

/// Whether `n` names a point of `series`.
pub open spec fn names_point(series: Seq<LineSeries>, n: Nearest) -> bool {
    n.series < series.len() && n.point < series[n.series as int].points@.len()
}

/// Whether `n` names a point that is at least as near to `at` as every
/// point of the first `k` series and the first `j` points of series `k`.
pub open spec fn is_nearest(
    scale: Scale,
    at: Point,
    series: Seq<LineSeries>,
    n: Nearest,
    k: int,
    j: int,
) -> bool {
    &&& names_point(series, n)
    &&& forall|s: int, p: int|
        0 <= s < series.len() && 0 <= p < series[s].points@.len() && (s < k || (s == k && p < j))
            ==> distance2(scale, series[n.series as int].points@[n.point as int], at)
            <= distance2(scale, #[trigger] series[s].points@[p], at)
}

/// The fold over the points of one series keeps the nearest point.
pub proof fn lemma_nearest_in_points(
    scale: Scale,
    at: Point,
    series: Seq<LineSeries>,
    s: int,
    best: Option<Nearest>,
    k: nat,
)
    requires
        0 <= s < series.len(),
        k <= series[s].points@.len(),
        series[s].points@.len() <= usize::MAX,
        s <= usize::MAX,
        best matches Some(n) ==> is_nearest(scale, at, series, n, s, 0),
        best is None ==> forall|t: int| 0 <= t < s ==> series[t].points@.len() == 0,
    ensures
        nearest_in_points(scale, at, series, s, best, k) matches Some(n) ==> is_nearest(
            scale,
            at,
            series,
            n,
            s,
            k as int,
        ),
        nearest_in_points(scale, at, series, s, best, k) is None ==> best is None && k == 0,
    decreases k,
{
    if k > 0 {
        lemma_nearest_in_points(scale, at, series, s, best, (k - 1) as nat);
        let before = nearest_in_points(scale, at, series, s, best, (k - 1) as nat);
        let after = nearest_in_points(scale, at, series, s, best, k);
        let n = after->0;
    }
}

/// The fold over the series finds a point that no other point beats: the
/// result names a point, and no point of any series is nearer to `at`.
pub proof fn lemma_nearest_in_series(scale: Scale, at: Point, series: Seq<LineSeries>, k: nat)
    requires
        k <= series.len(),
        series.len() <= usize::MAX,
        forall|s: int| 0 <= s < series.len() ==> series[s].points@.len() <= usize::MAX,
    ensures
        nearest_in_series(scale, at, series, k) matches Some(n) ==> is_nearest(
            scale,
            at,
            series,
            n,
            k as int,
            0,
        ),
        nearest_in_series(scale, at, series, k) is None ==> forall|t: int|
            0 <= t < k ==> series[t].points@.len() == 0,
    decreases k,
{
    if k > 0 {
        lemma_nearest_in_series(scale, at, series, (k - 1) as nat);
        let before = nearest_in_series(scale, at, series, (k - 1) as nat);
        let len = series[k - 1].points@.len();
        lemma_nearest_in_points(scale, at, series, k - 1, before, len);
        let after = nearest_in_series(scale, at, series, k);
        if after is Some {
            let n = after->0;
        }
    }
}

/// The horizontal gridline of division `i` of `n`, counted from the bottom
/// edge, and the tick label to its left.
pub open spec fn h_line(plot: Plot, domain: Extent, theme: Theme, n: int, i: int) -> Seq<
    ShapeView,
> {
    let y = sat(spec_division(plot.bottom as int, plot.top as int, i, n)) as i32;
    seq![
        ShapeView::Line {
            from: Point { x: plot.left, y },
            to: Point { x: plot.right, y },
            stroke: Stroke { width: HAIRLINE, color: theme.background_weak },
        },
        ShapeView::Text {
            content: fixed2(sat(spec_division(domain.y_min as int, domain.y_max as int, i, n))),
            position: Point { x: sat(plot.left - 8000) as i32, y: sat(y - 6000) as i32 },
            color: theme.text,
            size: LABEL_SIZE,
            align_x: HorizontalAlign::Right,
            align_y: VerticalAlign::Top,
        },
    ]
}

/// The vertical gridline of division `i` of `n`, counted from the left
/// edge, and the tick label below it.
pub open spec fn v_line(plot: Plot, domain: Extent, theme: Theme, n: int, i: int) -> Seq<
    ShapeView,
> {
    let x = sat(spec_division(plot.left as int, plot.right as int, i, n)) as i32;
    seq![
        ShapeView::Line {
            from: Point { x, y: plot.top },
            to: Point { x, y: plot.bottom },
            stroke: Stroke { width: HAIRLINE, color: theme.background_weak },
        },
        ShapeView::Text {
            content: fixed2(sat(spec_division(domain.x_min as int, domain.x_max as int, i, n))),
            position: Point { x, y: sat(plot.bottom + 8000) as i32 },
            color: theme.text,
            size: LABEL_SIZE,
            align_x: HorizontalAlign::Center,
            align_y: VerticalAlign::Top,
        },
    ]
}

/// The first `k` horizontal gridlines with their labels.
pub open spec fn h_grid(plot: Plot, domain: Extent, theme: Theme, n: int, k: nat) -> Seq<
    ShapeView,
>
    decreases k,
{
    if k == 0 {
        Seq::empty()
    } else {
        h_grid(plot, domain, theme, n, (k - 1) as nat) + h_line(plot, domain, theme, n, k - 1)
    }
}

/// The first `k` vertical gridlines with their labels.
pub open spec fn v_grid(plot: Plot, domain: Extent, theme: Theme, n: int, k: nat) -> Seq<
    ShapeView,
>
    decreases k,
{
    if k == 0 {
        Seq::empty()
    } else {
        v_grid(plot, domain, theme, n, (k - 1) as nat) + v_line(plot, domain, theme, n, k - 1)
    }
}

/// The paths of the first `k` series. A series of fewer than two points
/// has no path.
pub open spec fn paths(scale: Scale, series: Seq<LineSeries>, k: nat) -> Seq<ShapeView>
    decreases k,
{
    if k == 0 {
        Seq::empty()
    } else if series[k - 1].points@.len() < 2 {
        paths(scale, series, (k - 1) as nat)
    } else {
        paths(scale, series, (k - 1) as nat).push(
            ShapeView::Polyline {
                points: path_points(scale, series[k - 1].points@),
                closed: false,
                stroke: Stroke { width: SERIES_WIDTH, color: series[k - 1].color },
            },
        )
    }
}

impl LineChart {
    /// A chart that takes its domain from the data, with the default
    /// rendering parameters and every interaction enabled.
    pub open spec fn spec_new(series: Vec<LineSeries>) -> LineChart {
        LineChart {
            series,
            x_range: None,
            y_range: None,
            config: LineChartConfig { padding: 40_000, grid_lines: 5 },
            interaction: InteractionConfig {
                enable_hover: true,
                enable_zoom: true,
                enable_pan: true,
                enable_selection: true,
            },
        }
    }

    pub fn new(series: Vec<LineSeries>) -> (chart: Self)
        ensures
            chart == LineChart::spec_new(series),
    {
        LineChart {
            series,
            x_range: None,
            y_range: None,
            config: LineChartConfig::default(),
            interaction: InteractionConfig::default(),
        }
    }

    /// Fixes the domain of the x axis.
    pub fn with_x_range(self, range: (i32, i32)) -> (chart: Self)
        ensures
            chart.series == self.series,
            chart.x_range == Some(range),
            chart.y_range == self.y_range,
            chart.config == self.config,
            chart.interaction == self.interaction,
    {
        LineChart {
            series: self.series,
            x_range: Some(range),
            y_range: self.y_range,
            config: self.config,
            interaction: self.interaction,
        }
    }

    /// Fixes the domain of the y axis.
    pub fn with_y_range(self, range: (i32, i32)) -> (chart: Self)
        ensures
            chart.series == self.series,
            chart.x_range == self.x_range,
            chart.y_range == Some(range),
            chart.config == self.config,
            chart.interaction == self.interaction,
    {
        LineChart {
            series: self.series,
            x_range: self.x_range,
            y_range: Some(range),
            config: self.config,
            interaction: self.interaction,
        }
    }

    pub fn with_config(self, config: LineChartConfig) -> (chart: Self)
        ensures
            chart.series == self.series,
            chart.x_range == self.x_range,
            chart.y_range == self.y_range,
            chart.config == config,
            chart.interaction == self.interaction,
    {
        LineChart {
            series: self.series,
            x_range: self.x_range,
            y_range: self.y_range,
            config,
            interaction: self.interaction,
        }
    }

    pub fn with_interaction(self, interaction: InteractionConfig) -> (chart: Self)
        ensures
            chart.series == self.series,
            chart.x_range == self.x_range,
            chart.y_range == self.y_range,
            chart.config == self.config,
            chart.interaction == interaction,
    {
        LineChart {
            series: self.series,
            x_range: self.x_range,
            y_range: self.y_range,
            config: self.config,
            interaction,
        }
    }

    /// The extremes of all points of all series; none if there is no point.
    pub open spec fn spec_data_bounds(&self) -> Option<Extent> {
        extent_of_series(self.series@, self.series@.len())
    }

    /// The domain of the axes: a fixed range where one was given, the
    /// extremes of the data elsewhere; none if there is no point.
    pub open spec fn spec_ranges(&self) -> Option<Extent> {
        match self.spec_data_bounds() {
            None => None,
            Some(e) => Some(
                Extent {
                    x_min: match self.x_range {
                        Some(r) => r.0,
                        None => e.x_min,
                    },
                    x_max: match self.x_range {
                        Some(r) => r.1,
                        None => e.x_max,
                    },
                    y_min: match self.y_range {
                        Some(r) => r.0,
                        None => e.y_min,
                    },
                    y_max: match self.y_range {
                        Some(r) => r.1,
                        None => e.y_max,
                    },
                },
            ),
        }
    }

    /// The number of divisions of each axis: the configured number, but at
    /// least one.
    pub open spec fn divisions(&self) -> int {
        max_int(self.config.grid_lines as int, 1)
    }

    /// The forward transform for a plot and a view state.
    pub open spec fn scale(&self, state: InteractionState, plot: Plot, domain: Extent) -> Scale {
        Scale {
            plot,
            x_min: domain.x_min,
            x_max: domain.x_max,
            y_min: domain.y_min,
            y_max: domain.y_max,
            zoom: state.spec_effective_zoom() as i32,
            pan: state.pan,
        }
    }

    /// The base layer: nothing if there is no data or no room for a plot,
    /// else the axes, the horizontal gridlines, the vertical gridlines, and
    /// the paths of the series. The gridlines stay where they are under
    /// zoom and pan; the paths move.
    pub open spec fn base_shapes(
        &self,
        state: InteractionState,
        size: Size,
        theme: Theme,
    ) -> Seq<ShapeView> {
        match (self.spec_ranges(), Plot::spec_within(size, self.config.padding)) {
            (Some(domain), Some(plot)) => axes(plot, theme) + h_grid(
                plot,
                domain,
                theme,
                self.divisions(),
                (self.divisions() + 1) as nat,
            ) + v_grid(plot, domain, theme, self.divisions(), (self.divisions() + 1) as nat)
                + paths(self.scale(state, plot, domain), self.series@, self.series@.len()),
            _ => Seq::empty(),
        }
    }

    /// The data point nearest to a pointer at `at`, in the pixel space of a
    /// viewport of `size`: none unless `at` is in the plot rectangle.
    pub open spec fn nearest_at(&self, state: InteractionState, size: Size, at: Point) -> Option<
        Nearest,
    > {
        match (self.spec_ranges(), Plot::spec_within(size, self.config.padding)) {
            (Some(domain), Some(plot)) => if plot.spec_holds(at) {
                nearest_in_series(
                    self.scale(state, plot, domain),
                    at,
                    self.series@,
                    self.series@.len(),
                )
            } else {
                None
            },
            _ => None,
        }
    }

    /// The data point nearest to the pointer, if the pointer is in the plot
    /// rectangle.
    pub open spec fn spec_hit_test(
        &self,
        state: InteractionState,
        bounds: Rectangle,
        cursor: Cursor,
    ) -> Option<Nearest> {
        match cursor.spec_position_in(bounds) {
            Some(at) => self.nearest_at(state, bounds.spec_size(), at),
            None => None,
        }
    }

    /// The overlay for a pointer at `at`: the marker of the nearest point,
    /// if the pointer is in the plot rectangle, and the outline of the
    /// selection, if there is one.
    pub open spec fn overlay_shapes(
        &self,
        state: InteractionState,
        size: Size,
        theme: Theme,
        at: Point,
    ) -> Seq<ShapeView> {
        (match self.nearest_at(state, size, at) {
            Some(n) => {
                let plot = Plot::spec_within(size, self.config.padding)->0;
                let series = self.series@[n.series as int];
                let point = series.points@[n.point as int];
                marker(
                    plot,
                    theme,
                    self.scale(state, plot, self.spec_ranges()->0).spec_point_to_pixel(
                        point.0,
                        point.1,
                    ),
                    series.color,
                    point_label(series.name@, point.0 as int, point.1 as int),
                )
            },
            None => Seq::empty(),
        }) + selection_shapes(state, theme)
    }

    /// The layers of one frame around a given base layer: none if there is
    /// no data, else the base layer and, with the pointer inside `bounds`,
    /// the overlay.
    pub open spec fn layers(
        &self,
        state: InteractionState,
        theme: Theme,
        bounds: Rectangle,
        cursor: Cursor,
        base: Seq<ShapeView>,
    ) -> Seq<Seq<ShapeView>> {
        if self.spec_ranges() is None {
            Seq::empty()
        } else {
            match cursor.spec_position_in(bounds) {
                Some(at) => seq![base, self.overlay_shapes(state, bounds.spec_size(), theme, at)],
                None => seq![base],
            }
        }
    }

    /// The extremes of the data.
    pub fn data_bounds(&self) -> (bounds: Option<Extent>)
        ensures
            bounds == self.spec_data_bounds(),
    {
        let mut bounds: Option<Extent> = None;
        let mut s: usize = 0;
        while s < self.series.len()
            invariant
                s <= self.series@.len(),
                bounds == extent_of_series(self.series@, s as nat),
            decreases self.series.len() - s,
        {
            let points = &self.series[s].points;
            let mut p: usize = 0;
            while p < points.len()
                invariant
                    p <= points@.len(),
                    s < self.series@.len(),
                    points == &self.series@[s as int].points,
                    bounds == extent_of_points(
                        extent_of_series(self.series@, s as nat),
                        points@,
                        p as nat,
                    ),
                decreases points.len() - p,
            {
                let (x, y) = points[p];
                bounds = match bounds {
                    None => Some(Extent { x_min: x, x_max: x, y_min: y, y_max: y }),
                    Some(e) => Some(
                        Extent {
                            x_min: if x < e.x_min {
                                x
                            } else {
                                e.x_min
                            },
                            x_max: if x > e.x_max {
                                x
                            } else {
                                e.x_max
                            },
                            y_min: if y < e.y_min {
                                y
                            } else {
                                e.y_min
                            },
                            y_max: if y > e.y_max {
                                y
                            } else {
                                e.y_max
                            },
                        },
                    ),
                };
                p += 1;
            }
            s += 1;
        }
        bounds
    }

    /// The domain of the axes.
    pub fn ranges(&self) -> (domain: Option<Extent>)
        ensures
            domain == self.spec_ranges(),
    {
        match self.data_bounds() {
            None => None,
            Some(e) => {
                let (x_min, x_max) = match self.x_range {
                    Some(r) => r,
                    None => (e.x_min, e.x_max),
                };
                let (y_min, y_max) = match self.y_range {
                    Some(r) => r,
                    None => (e.y_min, e.y_max),
                };
                Some(Extent { x_min, x_max, y_min, y_max })
            },
        }
    }

    /// Applies one event to the view state and says whether a redraw is
    /// wanted.
    pub fn update(
        &self,
        state: &mut InteractionState,
        event: &Event,
        bounds: Rectangle,
        cursor: Cursor,
    ) -> (redraw: bool)
        ensures
            *final(state) == old(state).after(
                ChartKind::Line,
                self.interaction,
                *event,
                bounds,
                cursor,
            ),
            redraw == old(state).requests_redraw(self.interaction, *event),
    {
        state.handle(ChartKind::Line, &self.interaction, event, bounds, cursor)
    }

    fn make_scale(&self, state: &InteractionState, plot: Plot, domain: Extent) -> (scale: Scale)
        ensures
            scale == self.scale(*state, plot, domain),
    {
        Scale {
            plot,
            x_min: domain.x_min,
            x_max: domain.x_max,
            y_min: domain.y_min,
            y_max: domain.y_max,
            zoom: state.effective_zoom(),
            pan: state.pan,
        }
    }

    fn emit_grid(&self, shapes: &mut Vec<Shape>, plot: Plot, domain: Extent, theme: &Theme)
        ensures
            views(final(shapes)@) == views(old(shapes)@) + h_grid(
                plot,
                domain,
                *theme,
                self.divisions(),
                (self.divisions() + 1) as nat,
            ) + v_grid(plot, domain, *theme, self.divisions(), (self.divisions() + 1) as nat),
    {
        let n: usize = if self.config.grid_lines >= 1 {
            self.config.grid_lines
        } else {
            1
        };
        let stroke = Stroke { width: HAIRLINE, color: theme.background_weak };
        let ghost start = views(shapes@);
        let mut i: usize = 0;
        let mut done: bool = false;
        while !done
            invariant
                n == self.divisions(),
                n >= 1,
                i <= n,
                stroke == (Stroke { width: HAIRLINE, color: theme.background_weak }),
                views(shapes@) == start + h_grid(
                    plot,
                    domain,
                    *theme,
                    n as int,
                    if done {
                        (n + 1) as nat
                    } else {
                        i as nat
                    },
                ),
                done ==> i == n,
            decreases (n - i) + if done { 0int } else { 1int },
        {
            let y: i32 = division(plot.bottom, plot.top, i, n);
            let value: i32 = division(domain.y_min, domain.y_max, i, n);
            emit(
                shapes,
                Shape::Line {
                    from: Point { x: plot.left, y },
                    to: Point { x: plot.right, y },
                    stroke,
                },
            );
            emit(
                shapes,
                Shape::Text {
                    content: fixed2_text(value),
                    position: Point {
                        x: saturate(plot.left as i128 - 8000),
                        y: saturate(y as i128 - 6000),
                    },
                    color: theme.text,
                    size: LABEL_SIZE,
                    align_x: HorizontalAlign::Right,
                    align_y: VerticalAlign::Top,
                },
            );
            if i == n {
                done = true;
            } else {
                i += 1;
            }
        }
        let ghost middle = views(shapes@);
        i = 0;
        done = false;
        while !done
            invariant
                n == self.divisions(),
                n >= 1,
                i <= n,
                stroke == (Stroke { width: HAIRLINE, color: theme.background_weak }),
                views(shapes@) == middle + v_grid(
                    plot,
                    domain,
                    *theme,
                    n as int,
                    if done {
                        (n + 1) as nat
                    } else {
                        i as nat
                    },
                ),
                done ==> i == n,
            decreases (n - i) + if done { 0int } else { 1int },
        {
            let x: i32 = division(plot.left, plot.right, i, n);
            let value: i32 = division(domain.x_min, domain.x_max, i, n);
            emit(
                shapes,
                Shape::Line {
                    from: Point { x, y: plot.top },
                    to: Point { x, y: plot.bottom },
                    stroke,
                },
            );
            emit(
                shapes,
                Shape::Text {
                    content: fixed2_text(value),
                    position: Point { x, y: saturate(plot.bottom as i128 + 8000) },
                    color: theme.text,
                    size: LABEL_SIZE,
                    align_x: HorizontalAlign::Center,
                    align_y: VerticalAlign::Top,
                },
            );
            if i == n {
                done = true;
            } else {
                i += 1;
            }
        }
    }

    fn emit_paths(&self, shapes: &mut Vec<Shape>, scale: &Scale)
        ensures
            views(final(shapes)@) == views(old(shapes)@) + paths(
                *scale,
                self.series@,
                self.series@.len(),
            ),
    {
        let ghost start = views(shapes@);
        let mut s: usize = 0;
        while s < self.series.len()
            invariant
                s <= self.series@.len(),
                views(shapes@) == start + paths(*scale, self.series@, s as nat),
            decreases self.series.len() - s,
        {
            let series = &self.series[s];
            if series.points.len() >= 2 {
                let mut pixels: Vec<Point> = Vec::new();
                let mut j: usize = 0;
                while j < series.points.len()
                    invariant
                        j <= series.points@.len(),
                        pixels@ == path_points(*scale, series.points@.subrange(0, j as int)),
                    decreases series.points.len() - j,
                {
                    let (x, y) = series.points[j];
                    pixels.push(scale.point_to_pixel(x, y));
                    j += 1;
                }
                assert(series.points@.subrange(0, j as int) =~= series.points@);
                emit(
                    shapes,
                    Shape::Polyline {
                        points: pixels,
                        closed: false,
                        stroke: Stroke { width: SERIES_WIDTH, color: series.color },
                    },
                );
            }
            s += 1;
        }
    }

    /// Computes the base layer for a viewport of `size`.
    pub fn base_geometry(
        &self,
        state: &InteractionState,
        size: Size,
        theme: &Theme,
    ) -> (shapes: Vec<Shape>)
        ensures
            views(shapes@) == self.base_shapes(*state, size, *theme),
    {
        let mut shapes: Vec<Shape> = Vec::new();
        let domain = match self.ranges() {
            Some(domain) => domain,
            None => {
                return shapes;
            },
        };
        let plot = match Plot::within(size, self.config.padding) {
            Some(plot) => plot,
            None => {
                return shapes;
            },
        };
        emit_axes(&mut shapes, plot, theme);
        self.emit_grid(&mut shapes, plot, domain, theme);
        let scale = self.make_scale(state, plot, domain);
        self.emit_paths(&mut shapes, &scale);
        shapes
    }

    /// The data point nearest to a pointer at `at`, in the pixel space of a
    /// viewport of `size`.
    pub fn nearest_point(&self, state: &InteractionState, size: Size, at: Point) -> (hit: Option<
        Nearest,
    >)
        ensures
            hit == self.nearest_at(*state, size, at),
            hit matches Some(n) ==> names_point(self.series@, n),
    {
        let domain = match self.ranges() {
            Some(domain) => domain,
            None => {
                return None;
            },
        };
        let plot = match Plot::within(size, self.config.padding) {
            Some(plot) => plot,
            None => {
                return None;
            },
        };
        if !plot.holds(at) {
            return None;
        }
        let scale = self.make_scale(state, plot, domain);
        let mut best: Option<Nearest> = None;
        let mut least: i128 = 0;
        let mut s: usize = 0;
        while s < self.series.len()
            invariant
                s <= self.series@.len(),
                best == nearest_in_series(scale, at, self.series@, s as nat),
                best matches Some(n) ==> names_point(self.series@, n) && least == distance2(
                    scale,
                    self.series@[n.series as int].points@[n.point as int],
                    at,
                ),
            decreases self.series.len() - s,
        {
            let points = &self.series[s].points;
            let mut p: usize = 0;
            while p < points.len()
                invariant
                    p <= points@.len(),
                    s < self.series@.len(),
                    points == &self.series@[s as int].points,
                    best == nearest_in_points(
                        scale,
                        at,
                        self.series@,
                        s as int,
                        nearest_in_series(scale, at, self.series@, s as nat),
                        p as nat,
                    ),
                    best matches Some(n) ==> names_point(self.series@, n) && least == distance2(
                        scale,
                        self.series@[n.series as int].points@[n.point as int],
                        at,
                    ),
                decreases points.len() - p,
            {
                let (x, y) = points[p];
                let pixel = scale.point_to_pixel(x, y);
                let dx: i64 = pixel.x as i64 - at.x as i64;
                let dy: i64 = pixel.y as i64 - at.y as i64;
                proof {
                    lemma_mul_bound(dx as int, dx as int, 0x1_0000_0000, 0x1_0000_0000);
                    lemma_mul_bound(dy as int, dy as int, 0x1_0000_0000, 0x1_0000_0000);
                }
                let distance: i128 = mul_wide(dx, dx) + mul_wide(dy, dy);
                let nearer: bool = match best {
                    None => true,
                    Some(_) => distance < least,
                };
                if nearer {
                    best = Some(Nearest { series: s, point: p });
                    least = distance;
                }
                p += 1;
            }
            s += 1;
        }
        best
    }

    /// The data point nearest to the pointer, if the pointer is in the plot
    /// rectangle.
    pub fn hit_test(
        &self,
        state: &InteractionState,
        bounds: Rectangle,
        cursor: Cursor,
    ) -> (hit: Option<Nearest>)
        ensures
            hit == self.spec_hit_test(*state, bounds, cursor),
            hit matches Some(n) ==> names_point(self.series@, n),
    {
        match cursor.position_in(bounds) {
            Some(at) => self.nearest_point(state, bounds.size(), at),
            None => None,
        }
    }

    /// Computes the overlay for a pointer at `at`.
    pub fn overlay_geometry(
        &self,
        state: &InteractionState,
        size: Size,
        theme: &Theme,
        at: Point,
    ) -> (shapes: Vec<Shape>)
        ensures
            views(shapes@) == self.overlay_shapes(*state, size, *theme, at),
    {
        let mut shapes: Vec<Shape> = Vec::new();
        match self.nearest_point(state, size, at) {
            Some(n) => {
                let domain = self.ranges().unwrap();
                let plot = Plot::within(size, self.config.padding).unwrap();
                let scale = self.make_scale(state, plot, domain);
                let series = &self.series[n.series];
                let (x, y) = series.points[n.point];
                let pixel = scale.point_to_pixel(x, y);
                let label = make_point_label(&series.name, x, y);
                emit_marker(&mut shapes, plot, theme, pixel, series.color, label);
            },
            None => {},
        }
        emit_selection(&mut shapes, state, theme);
        shapes
    }

    /// Draws one frame. Without data there are no layers. Otherwise the
    /// base layer comes first, from the cache if the cache holds a layer
    /// for the size of `bounds` and computed and remembered if not; with
    /// the pointer inside `bounds` the overlay follows.
    pub fn draw(
        &self,
        cache: &mut GeometryCache,
        state: &InteractionState,
        theme: &Theme,
        bounds: Rectangle,
        cursor: Cursor,
    ) -> (layers: Vec<Vec<Shape>>)
        ensures
            layer_views(layers@) == self.layers(
                *state,
                *theme,
                bounds,
                cursor,
                old(cache).resolve(
                    bounds.spec_size(),
                    self.base_shapes(*state, bounds.spec_size(), *theme),
                ),
            ),
            self.spec_ranges() is None ==> layers@.len() == 0,
            self.spec_ranges() is None ==> *final(cache) == *old(cache),
            self.spec_ranges() is Some ==> final(cache).key() == Some(bounds.spec_size())
                && final(cache).layer() == old(cache).resolve(
                bounds.spec_size(),
                self.base_shapes(*state, bounds.spec_size(), *theme),
            ),
    {
        let mut layers: Vec<Vec<Shape>> = Vec::new();
        if self.ranges().is_none() {
            return layers;
        }
        let size = bounds.size();
        let base = match cache.lookup(size) {
            Some(shapes) => shapes,
            None => {
                let shapes = self.base_geometry(state, size, theme);
                cache.store(size, &shapes);
                shapes
            },
        };
        layers.push(base);
        match cursor.position_in(bounds) {
            Some(at) => {
                let overlay = self.overlay_geometry(state, size, theme, at);
                layers.push(overlay);
            },
            None => {},
        }
        layers
    }

    /// The pointer shape to show: a crosshair inside `bounds`.
    pub fn mouse_interaction(
        &self,
        state: &InteractionState,
        bounds: Rectangle,
        cursor: Cursor,
    ) -> (shape: Interaction)
        ensures
            shape == if cursor.spec_position_in(bounds) is Some {
                Interaction::Crosshair
            } else {
                Interaction::Idle
            },
    {
        if cursor.position_in(bounds).is_some() {
            Interaction::Crosshair
        } else {
            Interaction::Idle
        }
    }
}

/// Builds the text of a tooltip on a data point.
pub fn make_point_label(name: &String, x: i32, y: i32) -> (label: String)
    ensures
        label@ == point_label(name@, x as int, y as int),
{
    let mut label = name.clone();
    label.append(": x=");
    append_fixed2(&mut label, x);
    label.append(", y=");
    append_fixed2(&mut label, y);
    label
}

/// Appends the marker of the data point at pixel `p`.
pub fn emit_marker(
    shapes: &mut Vec<Shape>,
    plot: Plot,
    theme: &Theme,
    p: Point,
    color: Color,
    label: String,
)
    ensures
        views(final(shapes)@) == views(old(shapes)@) + marker(plot, *theme, p, color, label@),
{
    let weak = Stroke { width: HAIRLINE, color: theme.background_weak };
    let bytes: usize = byte_len(&label);
    let width: i128 = mul_index(bytes, 7000) + 12000;
    let left: i128 = if p.x as i128 + 10000 + width > plot.right as i128 {
        p.x as i128 - width - 10000
    } else {
        p.x as i128 + 10000
    };
    let top: i128 = if p.y as i128 - 30000 < plot.top as i128 {
        p.y as i128 + 10000
    } else {
        p.y as i128 - 30000
    };
    let rect = Rectangle {
        x: saturate(left),
        y: saturate(top),
        width: saturate(width),
        height: 20000,
    };
    emit(
        shapes,
        Shape::Line {
            from: Point { x: p.x, y: plot.top },
            to: Point { x: p.x, y: plot.bottom },
            stroke: weak,
        },
    );
    emit(
        shapes,
        Shape::Line {
            from: Point { x: plot.left, y: p.y },
            to: Point { x: plot.right, y: p.y },
            stroke: weak,
        },
    );
    emit(shapes, Shape::FillCircle { center: p, radius: MARKER_RADIUS, color });
    emit(shapes, Shape::FillRect { rect, color: theme.background_strong });
    emit(shapes, Shape::StrokeRect { rect, stroke: weak });
    emit(
        shapes,
        Shape::Text {
            content: label,
            position: Point { x: saturate(left + 6000), y: saturate(top + 4000) },
            color: theme.background_strong_text,
            size: TOOLTIP_SIZE,
            align_x: HorizontalAlign::Left,
            align_y: VerticalAlign::Top,
        },
    );
}

/// Series without a point have no extremes, so a chart of them has no
/// domain and draws nothing.
pub proof fn lemma_no_points_no_extent(series: Seq<LineSeries>, k: nat)
    requires
        k <= series.len(),
        forall|s: int| 0 <= s < k ==> (#[trigger] series[s]).points@.len() == 0,
    ensures
        extent_of_series(series, k) is None,
    decreases k,
{
    if k > 0 {
        lemma_no_points_no_extent(series, (k - 1) as nat);
    }
}

/// With the pointer exactly on the pixel of a data point, the nearest point
/// is at distance zero.
pub proof fn lemma_pointer_on_point(scale: Scale, series: Seq<LineSeries>, s: int, p: int)
    requires
        series.len() <= usize::MAX,
        forall|t: int| 0 <= t < series.len() ==> series[t].points@.len() <= usize::MAX,
        0 <= s < series.len(),
        0 <= p < series[s].points@.len(),
    ensures
        ({
            let point = series[s].points@[p];
            let at = scale.spec_point_to_pixel(point.0, point.1);
            let found = nearest_in_series(scale, at, series, series.len());
            &&& found is Some
            &&& names_point(series, found->0)
            &&& distance2(
                scale,
                series[found->0.series as int].points@[found->0.point as int],
                at,
            ) == 0
        }),
{
    let point = series[s].points@[p];
    let at = scale.spec_point_to_pixel(point.0, point.1);
    let found = nearest_in_series(scale, at, series, series.len());
    lemma_nearest_in_series(scale, at, series, series.len());
    let n = found->0;
    let q = scale.spec_point_to_pixel(
        series[n.series as int].points@[n.point as int].0,
        series[n.series as int].points@[n.point as int].1,
    );
    assert((q.x - at.x) * (q.x - at.x) >= 0) by (nonlinear_arith);
    assert((q.y - at.y) * (q.y - at.y) >= 0) by (nonlinear_arith);
}

} // verus!
