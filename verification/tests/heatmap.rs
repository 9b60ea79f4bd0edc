use sw_reports::charts::cache::GeometryCache;
use sw_reports::charts::geometry::{
    Color, Cursor, HorizontalAlign, Interaction, Point, Rectangle, Size, Stroke, Theme, Vector,
    VerticalAlign,
};
use sw_reports::charts::heatmap::{lerp_color, make_cell_label, Cell, HeatmapChart};
use sw_reports::charts::interaction::{Event, ScrollDelta};
use sw_reports::charts::model::{HeatmapGrid, InteractionConfig, InteractionState, LineChartConfig};
use sw_reports::charts::shape::Shape;

fn weak() -> Color {
    Color { r: 100, g: 200, b: 300, a: 1000 }
}

fn accent() -> Color {
    Color { r: 900, g: 800, b: 700, a: 500 }
}

fn body() -> Color {
    Color { r: 5, g: 5, b: 5, a: 1000 }
}

fn theme() -> Theme {
    Theme {
        background_weak: weak(),
        background_strong: Color { r: 2, g: 0, b: 0, a: 1000 },
        background_strong_text: Color { r: 3, g: 0, b: 0, a: 1000 },
        primary_strong: accent(),
        text: body(),
    }
}

fn bounds() -> Rectangle {
    Rectangle { x: 0, y: 0, width: 400_000, height: 300_000 }
}

fn size() -> Size {
    Size { width: 400_000, height: 300_000 }
}

fn labels(names: &[&str]) -> Vec<String> {
    names.iter().map(|name| name.to_string()).collect()
}

fn grid() -> HeatmapGrid {
    HeatmapGrid {
        x_labels: labels(&["x0", "x1"]),
        y_labels: labels(&["y0", "y1", "y2"]),
        values: vec![vec![0, 1000], vec![2000, 3000], vec![4000, 5000]],
    }
}

fn chart() -> HeatmapChart {
    HeatmapChart::new(grid())
}

fn cell(x: i32, y: i32, color: Color) -> Shape {
    Shape::FillRect { rect: Rectangle { x, y, width: 160_000, height: 73_333 }, color }
}

#[test]
fn lerp_ends_and_middle() {
    assert_eq!(lerp_color(weak(), accent(), 0), weak());
    assert_eq!(lerp_color(weak(), accent(), 1000), accent());
    assert_eq!(lerp_color(weak(), accent(), 500), Color { r: 500, g: 500, b: 500, a: 750 });
}

#[test]
fn lerp_limits_the_share() {
    assert_eq!(lerp_color(weak(), accent(), -1), weak());
    assert_eq!(lerp_color(weak(), accent(), i32::MIN), weak());
    assert_eq!(lerp_color(weak(), accent(), 1001), accent());
    assert_eq!(lerp_color(weak(), accent(), i32::MAX), accent());
}

#[test]
fn lerp_takes_the_share_of_the_way() {
    assert_eq!(lerp_color(weak(), accent(), 400), Color { r: 420, g: 440, b: 460, a: 800 });
    assert_eq!(lerp_color(weak(), accent(), 1), Color { r: 100, g: 200, b: 300, a: 999 });
    let odd = Color { r: 0, g: 1, b: 2, a: 3 };
    let even = Color { r: 1, g: 2, b: 5, a: 0 };
    assert_eq!(lerp_color(odd, even, 500), Color { r: 0, g: 1, b: 3, a: 1 });
    let low = Color { r: i32::MIN, g: i32::MIN, b: -1000, a: 0 };
    let high = Color { r: i32::MAX, g: i32::MIN, b: 1000, a: 0 };
    assert_eq!(lerp_color(low, high, 1000), high);
    assert_eq!(lerp_color(low, high, 500), Color { r: -1, g: i32::MIN, b: 0, a: 0 });
}

#[test]
fn heatmap_builders() {
    let c = chart();
    assert_eq!(c.config, LineChartConfig { padding: 40_000, grid_lines: 5 });
    assert_eq!(c.interaction, InteractionConfig::default());
    let c = c
        .with_config(LineChartConfig { padding: 50_000, grid_lines: 4 })
        .with_interaction(InteractionConfig { enable_hover: false, ..InteractionConfig::default() });
    assert_eq!(c.config.padding, 50_000);
    assert!(!c.interaction.enable_hover);
    assert_eq!(c.grid, grid());
}

#[test]
fn grid_dimensions_are_checked() {
    assert!(grid().is_well_formed());
    let mut short = grid();
    short.values.pop();
    assert!(!short.is_well_formed());
    let mut ragged = grid();
    ragged.values[1].push(7);
    assert!(!ragged.is_well_formed());
    let none = HeatmapGrid { x_labels: vec![], y_labels: vec![], values: vec![] };
    assert!(none.is_well_formed());
}

#[test]
fn value_range_is_least_and_greatest() {
    assert_eq!(chart().value_range(), Some((0, 5000)));
    let one = HeatmapChart::new(HeatmapGrid {
        x_labels: labels(&["x"]),
        y_labels: labels(&["y"]),
        values: vec![vec![], vec![-7], vec![]],
    });
    assert_eq!(one.value_range(), Some((-7, -7)));
    let none = HeatmapChart::new(HeatmapGrid {
        x_labels: labels(&["x"]),
        y_labels: labels(&["y"]),
        values: vec![vec![], vec![]],
    });
    assert_eq!(none.value_range(), None);
}

#[test]
fn cells_and_all_labels_are_drawn() {
    let shapes = chart().base_geometry(&InteractionState::default(), size(), &theme());
    assert_eq!(shapes.len(), 6 + 2 + 3);
    assert_eq!(shapes[0], cell(40_000, 40_000, weak()));
    assert_eq!(shapes[1], cell(200_000, 40_000, Color { r: 260, g: 320, b: 380, a: 900 }));
    assert_eq!(shapes[2], cell(40_000, 113_333, Color { r: 420, g: 440, b: 460, a: 800 }));
    assert_eq!(shapes[5], cell(200_000, 186_666, accent()));
    let column = |content: &str, x: i32| Shape::Text {
        content: content.to_string(),
        position: Point { x, y: 268_000 },
        color: body(),
        size: 11_000,
        align_x: HorizontalAlign::Center,
        align_y: VerticalAlign::Top,
    };
    let row = |content: &str, y: i32| Shape::Text {
        content: content.to_string(),
        position: Point { x: 32_000, y },
        color: body(),
        size: 11_000,
        align_x: HorizontalAlign::Right,
        align_y: VerticalAlign::Center,
    };
    assert_eq!(shapes[6], column("x0", 120_000));
    assert_eq!(shapes[7], column("x1", 280_000));
    assert_eq!(shapes[8], row("y0", 76_666));
    assert_eq!(shapes[9], row("y1", 149_999));
    assert_eq!(shapes[10], row("y2", 223_332));
}

#[test]
fn cell_colors_at_least_greatest_and_midpoint() {
    let c = HeatmapChart::new(HeatmapGrid {
        x_labels: labels(&["a", "b", "c"]),
        y_labels: labels(&["r"]),
        values: vec![vec![-2000, 500, 3000]],
    });
    let shapes = c.base_geometry(&InteractionState::default(), size(), &theme());
    let colors: Vec<Color> = shapes[..3]
        .iter()
        .map(|shape| match shape {
            Shape::FillRect { color, .. } => *color,
            other => panic!("expected a cell, found {:?}", other),
        })
        .collect();
    assert_eq!(colors, vec![weak(), Color { r: 500, g: 500, b: 500, a: 750 }, accent()]);
}

#[test]
fn narrow_value_range_counts_as_one_unit() {
    let c = HeatmapChart::new(HeatmapGrid {
        x_labels: labels(&["a", "b"]),
        y_labels: labels(&["r"]),
        values: vec![vec![0, 500]],
    });
    let shapes = c.base_geometry(&InteractionState::default(), size(), &theme());
    match (&shapes[0], &shapes[1]) {
        (Shape::FillRect { color: low, .. }, Shape::FillRect { color: high, .. }) => {
            assert_eq!(*low, weak());
            assert_eq!(*high, Color { r: 500, g: 500, b: 500, a: 750 });
        }
        other => panic!("expected two cells, found {:?}", other),
    }
    let flat = HeatmapChart::new(HeatmapGrid {
        x_labels: labels(&["a"]),
        y_labels: labels(&["r"]),
        values: vec![vec![42_000]],
    });
    match &flat.base_geometry(&InteractionState::default(), size(), &theme())[0] {
        Shape::FillRect { color, .. } => assert_eq!(*color, weak()),
        other => panic!("expected a cell, found {:?}", other),
    }
}

#[test]
fn cells_follow_zoom_and_pan_and_keep_a_least_size() {
    let mut state = InteractionState::default();
    state.zoom = 500;
    state.pan = Vector { x: 1000, y: -2000 };
    let shapes = chart().base_geometry(&state, size(), &theme());
    assert_eq!(
        shapes[3],
        Shape::FillRect {
            rect: Rectangle { x: 121_000, y: 74_666, width: 80_000, height: 36_666 },
            color: Color { r: 580, g: 560, b: 540, a: 700 },
        }
    );
    let tiny = HeatmapChart::new(grid()).with_config(LineChartConfig { padding: 0, grid_lines: 1 });
    let shapes = tiny.base_geometry(
        &InteractionState::default(),
        Size { width: 1000, height: 1500 },
        &theme(),
    );
    assert_eq!(
        shapes[5],
        Shape::FillRect { rect: Rectangle { x: 500, y: 1000, width: 1000, height: 1000 }, color: accent() }
    );
}

#[test]
fn empty_grid_draws_nothing() {
    for g in [
        HeatmapGrid { x_labels: vec![], y_labels: labels(&["y"]), values: vec![vec![]] },
        HeatmapGrid { x_labels: labels(&["x"]), y_labels: vec![], values: vec![] },
        HeatmapGrid { x_labels: vec![], y_labels: vec![], values: vec![vec![1, 2]] },
    ] {
        let c = HeatmapChart::new(g);
        let mut cache = GeometryCache::new();
        let state = InteractionState::default();
        let cursor = Cursor::Available(Point { x: 100_000, y: 100_000 });
        assert!(c.draw(&mut cache, &state, &theme(), bounds(), cursor).is_empty());
        assert_eq!(cache.size(), None);
        assert_eq!(c.hit_test(&state, bounds(), cursor), None);
    }
}

#[test]
fn labels_without_values_draw_only_labels() {
    let c = HeatmapChart::new(HeatmapGrid {
        x_labels: labels(&["x"]),
        y_labels: labels(&["y"]),
        values: vec![],
    });
    let state = InteractionState::default();
    let shapes = c.base_geometry(&state, size(), &theme());
    assert_eq!(shapes.len(), 2);
    assert_eq!(c.hit_test(&state, bounds(), Cursor::Available(Point { x: 100_000, y: 100_000 })), None);
}

#[test]
fn hit_test_finds_row_and_column() {
    let c = chart();
    let state = InteractionState::default();
    let at = |x, y| Cursor::Available(Point { x, y });
    assert_eq!(c.hit_test(&state, bounds(), at(50_000, 120_000)), Some(Cell { row: 1, col: 0 }));
    assert_eq!(c.hit_test(&state, bounds(), at(40_000, 40_000)), Some(Cell { row: 0, col: 0 }));
    assert_eq!(c.hit_test(&state, bounds(), at(200_000, 113_332)), Some(Cell { row: 0, col: 1 }));
    assert_eq!(c.hit_test(&state, bounds(), at(199_999, 113_333)), Some(Cell { row: 1, col: 0 }));
    assert_eq!(c.hit_test(&state, bounds(), at(359_999, 259_998)), Some(Cell { row: 2, col: 1 }));
    // Rounding leaves a sliver below the last row, and the right edge lies past the last column.
    assert_eq!(c.hit_test(&state, bounds(), at(100_000, 260_000)), None);
    assert_eq!(c.hit_test(&state, bounds(), at(360_000, 100_000)), None);
    assert_eq!(c.hit_test(&state, bounds(), at(39_999, 100_000)), None);
    assert_eq!(c.hit_test(&state, bounds(), Cursor::Unavailable), None);
}

#[test]
fn hit_test_on_a_ragged_grid_needs_a_value() {
    let c = HeatmapChart::new(HeatmapGrid {
        x_labels: labels(&["x0", "x1"]),
        y_labels: labels(&["y0", "y1"]),
        values: vec![vec![1000]],
    });
    let state = InteractionState::default();
    let at = |x, y| Cursor::Available(Point { x, y });
    assert_eq!(c.hit_test(&state, bounds(), at(50_000, 50_000)), Some(Cell { row: 0, col: 0 }));
    assert_eq!(c.hit_test(&state, bounds(), at(250_000, 50_000)), None);
    assert_eq!(c.hit_test(&state, bounds(), at(50_000, 200_000)), None);
}

#[test]
fn overlay_names_row_column_and_value() {
    let c = chart();
    let mut state = InteractionState::default();
    let at = Point { x: 50_000, y: 120_000 };
    assert_eq!(
        c.overlay_geometry(&state, size(), &theme(), at),
        vec![Shape::Text {
            content: "y1 / x0: 2.00".to_string(),
            position: Point { x: 58_000, y: 112_000 },
            color: body(),
            size: 12_000,
            align_x: HorizontalAlign::Left,
            align_y: VerticalAlign::Top,
        }]
    );
    state.selection_start = Some(Point { x: 5000, y: 6000 });
    state.selection_end = Some(Point { x: 1000, y: 9000 });
    let shapes = c.overlay_geometry(&state, size(), &theme(), at);
    assert_eq!(shapes.len(), 2);
    assert_eq!(
        shapes[1],
        Shape::StrokeRect {
            rect: Rectangle { x: 1000, y: 6000, width: 4000, height: 3000 },
            stroke: Stroke { width: 1000, color: accent() },
        }
    );
    assert_eq!(make_cell_label(&"r".to_string(), &"c".to_string(), -1500), "r / c: -1.50");
}

#[test]
fn heatmap_zoom_stops_at_four() {
    let c = chart();
    let mut state = InteractionState::default();
    let up = Event::WheelScrolled { delta: ScrollDelta::Lines { x: 0, y: 3000 } };
    for _ in 0..50 {
        assert!(c.update(&mut state, &up, bounds(), Cursor::Unavailable));
        assert!(state.zoom <= 4000);
    }
    assert_eq!(state.zoom, 4000);
}

#[test]
fn heatmap_draw_and_pointer() {
    let c = chart();
    let state = InteractionState::default();
    let mut cache = GeometryCache::new();
    let cursor = Cursor::Available(Point { x: 50_000, y: 120_000 });
    let layers = c.draw(&mut cache, &state, &theme(), bounds(), cursor);
    assert_eq!(layers.len(), 2);
    assert_eq!(layers[0], c.base_geometry(&state, size(), &theme()));
    assert_eq!(layers[1], c.overlay_geometry(&state, size(), &theme(), Point { x: 50_000, y: 120_000 }));
    assert_eq!(cache.size(), Some(size()));
    assert_eq!(c.mouse_interaction(&state, bounds(), cursor), Interaction::Crosshair);
    assert_eq!(c.mouse_interaction(&state, bounds(), Cursor::Unavailable), Interaction::Idle);
}
