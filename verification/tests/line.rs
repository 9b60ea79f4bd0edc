use sw_reports::charts::cache::GeometryCache;
use sw_reports::charts::geometry::{
    Color, Cursor, HorizontalAlign, Interaction, Point, Rectangle, Size, Stroke, Theme, Vector,
    VerticalAlign,
};
use sw_reports::charts::interaction::{Button, Event, ScrollDelta};
use sw_reports::charts::line::{make_point_label, Extent, LineChart, Nearest};
use sw_reports::charts::model::{InteractionConfig, InteractionState, LineChartConfig, LineSeries};
use sw_reports::charts::shape::Shape;

fn color(r: i32) -> Color {
    Color { r, g: 0, b: 0, a: 1000 }
}

fn theme() -> Theme {
    Theme {
        background_weak: color(1),
        background_strong: color(2),
        background_strong_text: color(3),
        primary_strong: color(4),
        text: color(5),
    }
}

fn bounds() -> Rectangle {
    Rectangle { x: 0, y: 0, width: 400_000, height: 300_000 }
}

fn size() -> Size {
    Size { width: 400_000, height: 300_000 }
}

fn chart() -> LineChart {
    LineChart::new(vec![LineSeries::new(
        "A",
        color(9),
        vec![(0, 0), (1000, 10_000), (2000, 5000)],
    )])
}

fn weak() -> Stroke {
    Stroke { width: 1000, color: color(1) }
}

fn text(content: &str, x: i32, y: i32, align_x: HorizontalAlign) -> Shape {
    Shape::Text {
        content: content.to_string(),
        position: Point { x, y },
        color: color(5),
        size: 11_000,
        align_x,
        align_y: VerticalAlign::Top,
    }
}

fn line(x1: i32, y1: i32, x2: i32, y2: i32) -> Shape {
    Shape::Line { from: Point { x: x1, y: y1 }, to: Point { x: x2, y: y2 }, stroke: weak() }
}

#[test]
fn new_line_chart_has_defaults() {
    let c = chart();
    assert_eq!(c.x_range, None);
    assert_eq!(c.y_range, None);
    assert_eq!(c.config, LineChartConfig { padding: 40_000, grid_lines: 5 });
    assert_eq!(c.interaction, InteractionConfig::default());
    assert_eq!(c.series.len(), 1);
    assert_eq!(c.series[0].name, "A");
    assert_eq!(c.series[0].points, vec![(0, 0), (1000, 10_000), (2000, 5000)]);
}

#[test]
fn line_builders_replace_one_field() {
    let c = chart()
        .with_x_range((-1000, 3000))
        .with_y_range((0, 20_000))
        .with_config(LineChartConfig { padding: 10_000, grid_lines: 2 })
        .with_interaction(InteractionConfig { enable_pan: false, ..InteractionConfig::default() });
    assert_eq!(c.x_range, Some((-1000, 3000)));
    assert_eq!(c.y_range, Some((0, 20_000)));
    assert_eq!(c.config, LineChartConfig { padding: 10_000, grid_lines: 2 });
    assert!(!c.interaction.enable_pan);
    assert_eq!(c.series, chart().series);
}

#[test]
fn data_bounds_are_the_extremes_over_all_series() {
    let c = LineChart::new(vec![
        LineSeries::new("A", color(9), vec![(5, -3), (1, 7)]),
        LineSeries::new("empty", color(9), vec![]),
        LineSeries::new("B", color(9), vec![(9, 0), (-2, 2)]),
    ]);
    assert_eq!(c.data_bounds(), Some(Extent { x_min: -2, x_max: 9, y_min: -3, y_max: 7 }));
    assert_eq!(c.ranges(), Some(Extent { x_min: -2, x_max: 9, y_min: -3, y_max: 7 }));
    let fixed = c.with_y_range((-10, 10));
    assert_eq!(fixed.ranges(), Some(Extent { x_min: -2, x_max: 9, y_min: -10, y_max: 10 }));
}

#[test]
fn chart_without_points_has_no_bounds_and_draws_nothing() {
    for c in [
        LineChart::new(vec![]),
        LineChart::new(vec![LineSeries::new("A", color(9), vec![])]),
        LineChart::new(vec![]).with_x_range((0, 10)).with_y_range((0, 10)),
    ] {
        assert_eq!(c.data_bounds(), None);
        assert_eq!(c.ranges(), None);
        let mut cache = GeometryCache::new();
        let state = InteractionState::default();
        let cursor = Cursor::Available(Point { x: 100_000, y: 100_000 });
        let layers = c.draw(&mut cache, &state, &theme(), bounds(), cursor);
        assert!(layers.is_empty());
        assert_eq!(cache.size(), None);
        assert_eq!(c.hit_test(&state, bounds(), cursor), None);
        assert!(c.base_geometry(&state, size(), &theme()).is_empty());
    }
}

#[test]
fn base_layer_has_axes_grid_and_path() {
    let shapes = chart().base_geometry(&InteractionState::default(), size(), &theme());
    assert_eq!(shapes.len(), 2 + 12 + 12 + 1);
    assert_eq!(shapes[0], line(40_000, 260_000, 360_000, 260_000));
    assert_eq!(shapes[1], line(40_000, 260_000, 40_000, 40_000));
    // Horizontal gridlines, from the bottom edge up.
    assert_eq!(shapes[2], line(40_000, 260_000, 360_000, 260_000));
    assert_eq!(shapes[3], text("0.00", 32_000, 254_000, HorizontalAlign::Right));
    assert_eq!(shapes[4], line(40_000, 216_000, 360_000, 216_000));
    assert_eq!(shapes[5], text("2.00", 32_000, 210_000, HorizontalAlign::Right));
    assert_eq!(shapes[12], line(40_000, 40_000, 360_000, 40_000));
    assert_eq!(shapes[13], text("10.00", 32_000, 34_000, HorizontalAlign::Right));
    // Vertical gridlines, from the left edge on.
    assert_eq!(shapes[14], line(40_000, 40_000, 40_000, 260_000));
    assert_eq!(shapes[15], text("0.00", 40_000, 268_000, HorizontalAlign::Center));
    assert_eq!(shapes[16], line(104_000, 40_000, 104_000, 260_000));
    assert_eq!(shapes[17], text("0.40", 104_000, 268_000, HorizontalAlign::Center));
    assert_eq!(shapes[24], line(360_000, 40_000, 360_000, 260_000));
    assert_eq!(shapes[25], text("2.00", 360_000, 268_000, HorizontalAlign::Center));
    assert_eq!(
        shapes[26],
        Shape::Polyline {
            points: vec![
                Point { x: 40_000, y: 260_000 },
                Point { x: 200_000, y: 40_000 },
                Point { x: 360_000, y: 150_000 },
            ],
            closed: false,
            stroke: Stroke { width: 2000, color: color(9) },
        }
    );
}

#[test]
fn zoom_and_pan_move_the_path_and_not_the_grid() {
    let mut state = InteractionState::default();
    state.zoom = 2000;
    state.pan = Vector { x: 5000, y: -3000 };
    let plain = chart().base_geometry(&InteractionState::default(), size(), &theme());
    let moved = chart().base_geometry(&state, size(), &theme());
    assert_eq!(plain[..26], moved[..26]);
    assert_eq!(
        moved[26],
        Shape::Polyline {
            points: vec![
                Point { x: 45_000, y: 257_000 },
                Point { x: 365_000, y: -183_000 },
                Point { x: 685_000, y: 37_000 },
            ],
            closed: false,
            stroke: Stroke { width: 2000, color: color(9) },
        }
    );
}

#[test]
fn series_of_fewer_than_two_points_has_no_path() {
    let c = LineChart::new(vec![
        LineSeries::new("one", color(9), vec![(0, 0)]),
        LineSeries::new("two", color(8), vec![(0, 0), (1000, 1000)]),
        LineSeries::new("none", color(7), vec![]),
    ]);
    let shapes = c.base_geometry(&InteractionState::default(), size(), &theme());
    assert_eq!(shapes.len(), 2 + 12 + 12 + 1);
    match &shapes[26] {
        Shape::Polyline { stroke, points, .. } => {
            assert_eq!(stroke.color, color(8));
            assert_eq!(points.len(), 2);
        }
        other => panic!("expected a path, found {:?}", other),
    }
}

#[test]
fn grid_lines_of_zero_count_as_one() {
    let c = chart().with_config(LineChartConfig { padding: 40_000, grid_lines: 0 });
    let shapes = c.base_geometry(&InteractionState::default(), size(), &theme());
    assert_eq!(shapes.len(), 2 + 4 + 4 + 1);
    assert_eq!(shapes[4], line(40_000, 40_000, 360_000, 40_000));
    assert_eq!(shapes[5], text("10.00", 32_000, 34_000, HorizontalAlign::Right));
}

#[test]
fn collapsed_viewport_gives_an_empty_base_layer() {
    let small = Size { width: 80_000, height: 300_000 };
    assert!(chart().base_geometry(&InteractionState::default(), small, &theme()).is_empty());
    let mut cache = GeometryCache::new();
    let b = Rectangle { x: 0, y: 0, width: 80_000, height: 300_000 };
    let layers =
        chart().draw(&mut cache, &InteractionState::default(), &theme(), b, Cursor::Unavailable);
    assert_eq!(layers.len(), 1);
    assert!(layers[0].is_empty());
}

#[test]
fn pointer_on_a_point_finds_that_point() {
    let c = chart();
    let state = InteractionState::default();
    let on_second = Cursor::Available(Point { x: 200_000, y: 40_000 });
    assert_eq!(c.hit_test(&state, bounds(), on_second), Some(Nearest { series: 0, point: 1 }));
    let on_first = Cursor::Available(Point { x: 40_000, y: 260_000 });
    assert_eq!(c.hit_test(&state, bounds(), on_first), Some(Nearest { series: 0, point: 0 }));
    let on_third = Cursor::Available(Point { x: 360_000, y: 150_000 });
    assert_eq!(c.hit_test(&state, bounds(), on_third), Some(Nearest { series: 0, point: 2 }));
}

#[test]
fn nearest_point_is_found_across_all_series_without_cutoff() {
    let c = LineChart::new(vec![
        LineSeries::new("A", color(9), vec![(0, 0), (2000, 10_000)]),
        LineSeries::new("B", color(8), vec![(1000, 5000), (1000, 5000)]),
    ]);
    let state = InteractionState::default();
    let at = |x, y| Cursor::Available(Point { x, y });
    // The first of two points on one pixel wins.
    assert_eq!(c.hit_test(&state, bounds(), at(201_000, 151_000)), Some(Nearest { series: 1, point: 0 }));
    assert_eq!(c.hit_test(&state, bounds(), at(41_000, 259_000)), Some(Nearest { series: 0, point: 0 }));
    assert_eq!(c.hit_test(&state, bounds(), at(359_000, 41_000)), Some(Nearest { series: 0, point: 1 }));
}

#[test]
fn hit_test_needs_the_pointer_in_the_plot() {
    let c = chart();
    let state = InteractionState::default();
    let at = |x, y| Cursor::Available(Point { x, y });
    assert_eq!(c.hit_test(&state, bounds(), at(39_999, 100_000)), None);
    assert_eq!(c.hit_test(&state, bounds(), at(100_000, 260_001)), None);
    assert_eq!(c.hit_test(&state, bounds(), at(400_000, 100_000)), None);
    assert_eq!(c.hit_test(&state, bounds(), Cursor::Unavailable), None);
    assert!(c.hit_test(&state, bounds(), at(40_000, 260_000)).is_some());
    assert_eq!(c.nearest_point(&state, Size { width: 80_000, height: 80_000 }, Point { x: 40_000, y: 40_000 }), None);
}

#[test]
fn overlay_marks_the_nearest_point() {
    let c = chart();
    let state = InteractionState::default();
    let shapes = c.overlay_geometry(&state, size(), &theme(), Point { x: 199_000, y: 45_000 });
    assert_eq!(shapes.len(), 6);
    assert_eq!(shapes[0], line(200_000, 40_000, 200_000, 260_000));
    assert_eq!(shapes[1], line(40_000, 40_000, 360_000, 40_000));
    assert_eq!(
        shapes[2],
        Shape::FillCircle { center: Point { x: 200_000, y: 40_000 }, radius: 3500, color: color(9) }
    );
    // The box would overshoot the top edge, so it hangs below the point.
    let rect = Rectangle { x: 210_000, y: 50_000, width: 138_000, height: 20_000 };
    assert_eq!(shapes[3], Shape::FillRect { rect, color: color(2) });
    assert_eq!(shapes[4], Shape::StrokeRect { rect, stroke: weak() });
    assert_eq!(
        shapes[5],
        Shape::Text {
            content: "A: x=1.00, y=10.00".to_string(),
            position: Point { x: 216_000, y: 54_000 },
            color: color(3),
            size: 12_000,
            align_x: HorizontalAlign::Left,
            align_y: VerticalAlign::Top,
        }
    );
}

#[test]
fn tooltip_flips_to_the_left_at_the_right_edge() {
    let c = chart();
    let state = InteractionState::default();
    let shapes = c.overlay_geometry(&state, size(), &theme(), Point { x: 360_000, y: 150_000 });
    let rect = Rectangle { x: 219_000, y: 120_000, width: 131_000, height: 20_000 };
    assert_eq!(shapes[3], Shape::FillRect { rect, color: color(2) });
    match &shapes[5] {
        Shape::Text { content, position, .. } => {
            assert_eq!(content, "A: x=2.00, y=5.00");
            assert_eq!(*position, Point { x: 225_000, y: 124_000 });
        }
        other => panic!("expected text, found {:?}", other),
    }
}

#[test]
fn overlay_outside_the_plot_has_only_the_selection() {
    let c = chart();
    let mut state = InteractionState::default();
    let at = Point { x: 10_000, y: 10_000 };
    assert!(c.overlay_geometry(&state, size(), &theme(), at).is_empty());
    state.selection_start = Some(Point { x: 100_000, y: 200_000 });
    state.selection_end = Some(Point { x: 50_000, y: 250_000 });
    assert_eq!(
        c.overlay_geometry(&state, size(), &theme(), at),
        vec![Shape::StrokeRect {
            rect: Rectangle { x: 50_000, y: 200_000, width: 50_000, height: 50_000 },
            stroke: Stroke { width: 1000, color: color(4) },
        }]
    );
    let inside = c.overlay_geometry(&state, size(), &theme(), Point { x: 200_000, y: 40_000 });
    assert_eq!(inside.len(), 7);
    assert_eq!(inside[6], c.overlay_geometry(&state, size(), &theme(), at)[0]);
}

#[test]
fn draw_gives_base_and_overlay_layers() {
    let c = chart();
    let state = InteractionState::default();
    let mut cache = GeometryCache::new();
    let away = c.draw(&mut cache, &state, &theme(), bounds(), Cursor::Unavailable);
    assert_eq!(away.len(), 1);
    assert_eq!(away[0], c.base_geometry(&state, size(), &theme()));
    let cursor = Cursor::Available(Point { x: 200_000, y: 40_000 });
    let over = c.draw(&mut cache, &state, &theme(), bounds(), cursor);
    assert_eq!(over.len(), 2);
    assert_eq!(over[0], away[0]);
    assert_eq!(
        over[1],
        c.overlay_geometry(&state, size(), &theme(), Point { x: 200_000, y: 40_000 })
    );
}

#[test]
fn base_layer_is_cached_by_viewport_size() {
    let c = chart();
    let mut cache = GeometryCache::new();
    let state = InteractionState::default();
    let first = c.draw(&mut cache, &state, &theme(), bounds(), Cursor::Unavailable);
    assert_eq!(cache.size(), Some(size()));
    // A change of the view state alone does not renew the base layer.
    let mut zoomed = state;
    zoomed.zoom = 2000;
    let second = c.draw(&mut cache, &zoomed, &theme(), bounds(), Cursor::Unavailable);
    assert_eq!(second[0], first[0]);
    assert_ne!(second[0], c.base_geometry(&zoomed, size(), &theme()));
    // Another position of the viewport with the same size is still a hit.
    let shifted = Rectangle { x: 7000, y: 9000, width: 400_000, height: 300_000 };
    let third = c.draw(&mut cache, &zoomed, &theme(), shifted, Cursor::Unavailable);
    assert_eq!(third[0], first[0]);
    // Another size renews it.
    let wider = Rectangle { x: 0, y: 0, width: 500_000, height: 300_000 };
    let wide = Size { width: 500_000, height: 300_000 };
    let fourth = c.draw(&mut cache, &zoomed, &theme(), wider, Cursor::Unavailable);
    assert_eq!(fourth[0], c.base_geometry(&zoomed, wide, &theme()));
    assert_eq!(cache.size(), Some(wide));
    assert_eq!(cache.lookup(wide), Some(fourth[0].clone()));
    assert_eq!(cache.lookup(size()), None);
    cache.clear();
    assert_eq!(cache.size(), None);
    assert_eq!(cache.lookup(wide), None);
}

#[test]
fn line_update_follows_the_shared_rules() {
    let c = chart();
    let mut state = InteractionState::default();
    let cursor = Cursor::Available(Point { x: 100_000, y: 100_000 });
    let up = Event::WheelScrolled { delta: ScrollDelta::Lines { x: 0, y: 1000 } };
    assert!(c.update(&mut state, &up, bounds(), cursor));
    assert_eq!(state.zoom, 900);
    assert!(c.update(&mut state, &Event::ButtonPressed(Button::Right), bounds(), cursor));
    assert_eq!(state.pan_start, Some(Point { x: 100_000, y: 100_000 }));
    let frozen = chart().with_interaction(InteractionConfig {
        enable_hover: false,
        enable_zoom: false,
        enable_pan: false,
        enable_selection: false,
    });
    let mut other = InteractionState::default();
    assert!(!frozen.update(&mut other, &up, bounds(), cursor));
    assert_eq!(other, InteractionState::default());
}

#[test]
fn line_pointer_is_a_crosshair_inside() {
    let c = chart();
    let state = InteractionState::default();
    let inside = Cursor::Available(Point { x: 1, y: 1 });
    let outside = Cursor::Available(Point { x: 400_000, y: 1 });
    assert_eq!(c.mouse_interaction(&state, bounds(), inside), Interaction::Crosshair);
    assert_eq!(c.mouse_interaction(&state, bounds(), outside), Interaction::Idle);
    assert_eq!(c.mouse_interaction(&state, bounds(), Cursor::Unavailable), Interaction::Idle);
}

#[test]
fn point_label_names_series_and_coordinates() {
    assert_eq!(make_point_label(&"A".to_string(), 1000, 10_000), "A: x=1.00, y=10.00");
    assert_eq!(make_point_label(&String::new(), -5, 123_456), ": x=-0.01, y=123.46");
}
