use sw_reports::charts::cache::GeometryCache;
use sw_reports::charts::chart::{Chart, ChartState, Hit};
use sw_reports::charts::geometry::{Color, Cursor, Interaction, Point, Rectangle, Size, Theme, Vector};
use sw_reports::charts::heatmap::Cell;
use sw_reports::charts::interaction::{Button, ChartKind, Event, ScrollDelta};
use sw_reports::charts::line::Nearest;
use sw_reports::charts::model::{
    BarPoint, BarSeries, ChartData, CircleMetric, HeatmapGrid, InteractionConfig, InteractionState,
    LineChartConfig, LineSeries, PieSlice, RadarAxes, RadarSeries,
};

fn color(r: i32) -> Color {
    Color { r, g: 0, b: 0, a: 1000 }
}

fn theme() -> Theme {
    Theme {
        background_weak: color(1),
        background_strong: color(2),
        background_strong_text: color(3),
        primary_strong: color(4),
        text: color(5),
    }
}

fn bounds() -> Rectangle {
    Rectangle { x: 0, y: 0, width: 400_000, height: 300_000 }
}

fn size() -> Size {
    Size { width: 400_000, height: 300_000 }
}

fn middle() -> Cursor {
    Cursor::Available(Point { x: 200_000, y: 150_000 })
}

fn all() -> Vec<Chart> {
    vec![
        Chart::new(ChartData::Line(vec![LineSeries::new(
            "A",
            color(9),
            vec![(0, 0), (1000, 10_000), (2000, 5000)],
        )])),
        Chart::new(ChartData::Bar(BarSeries {
            name: "B".to_string(),
            color: color(9),
            values: vec![
                BarPoint { label: "a".to_string(), value: 1000 },
                BarPoint { label: "b".to_string(), value: 2000 },
            ],
        })),
        Chart::new(ChartData::Pie(vec![
            PieSlice { label: "p".to_string(), value: 1000, color: color(7) },
            PieSlice { label: "q".to_string(), value: 3000, color: color(8) },
        ])),
        Chart::new(ChartData::Heatmap(HeatmapGrid {
            x_labels: vec!["x".to_string()],
            y_labels: vec!["y".to_string()],
            values: vec![vec![5000]],
        })),
        Chart::new(ChartData::Radar(
            RadarAxes { labels: vec!["a".to_string(), "b".to_string()], max_value: 10_000 },
            vec![RadarSeries { name: "s".to_string(), color: color(9), values: vec![1000, 2000] }],
        )),
        Chart::new(ChartData::Circle(CircleMetric {
            label: "c".to_string(),
            value: 1000,
            max: 4000,
            color: color(9),
        })),
    ]
}

fn empties() -> Vec<Chart> {
    vec![
        Chart::new(ChartData::Line(vec![])),
        Chart::new(ChartData::Bar(BarSeries { name: String::new(), color: color(9), values: vec![] })),
        Chart::new(ChartData::Pie(vec![])),
        Chart::new(ChartData::Heatmap(HeatmapGrid {
            x_labels: vec![],
            y_labels: vec![],
            values: vec![],
        })),
        Chart::new(ChartData::Radar(RadarAxes { labels: vec![], max_value: 0 }, vec![])),
    ]
}

#[test]
fn chart_of_data_has_defaults() {
    let kinds: Vec<ChartKind> = all().iter().map(|chart| chart.kind()).collect();
    assert_eq!(
        kinds,
        vec![
            ChartKind::Line,
            ChartKind::Bar,
            ChartKind::Pie,
            ChartKind::Heatmap,
            ChartKind::Radar,
            ChartKind::Circle,
        ]
    );
    match &all()[0] {
        Chart::Line(chart) => {
            assert_eq!(chart.config, LineChartConfig { padding: 40_000, grid_lines: 5 });
            assert_eq!(chart.interaction, InteractionConfig::default());
            assert_eq!((chart.x_range, chart.y_range), (None, None));
        }
        other => panic!("expected a line chart, found {:?}", other),
    }
}

#[test]
fn every_variant_draws_base_and_overlay() {
    for chart in all() {
        let mut cache = GeometryCache::new();
        let state = ChartState::default();
        let away = chart.draw(&mut cache, &state, &theme(), bounds(), Cursor::Unavailable, 0);
        assert_eq!(away.len(), 1, "{:?}", chart.kind());
        assert!(!away[0].is_empty());
        assert_eq!(cache.size(), Some(size()));
        let over = chart.draw(&mut cache, &state, &theme(), bounds(), middle(), 0);
        assert_eq!(over.len(), 2);
        assert_eq!(over[0], away[0]);
    }
}

#[test]
fn every_empty_chart_draws_nothing() {
    for chart in empties() {
        let mut cache = GeometryCache::new();
        let state = ChartState::default();
        for cursor in [Cursor::Unavailable, middle()] {
            assert!(chart.draw(&mut cache, &state, &theme(), bounds(), cursor, 0).is_empty());
            assert_eq!(chart.hit_test(&state, bounds(), cursor, 0), None);
        }
        assert_eq!(cache.size(), None);
    }
}

#[test]
fn every_variant_keeps_its_zoom_interval() {
    for chart in all() {
        let ceiling = chart.kind().max_zoom();
        let mut state = ChartState::default();
        for round in 0..120 {
            let y = if round % 3 == 0 { -1000 } else { 1000 };
            let event = Event::WheelScrolled { delta: ScrollDelta::Lines { x: 0, y } };
            assert!(chart.update(&mut state, &event, bounds(), middle(), 0));
            assert!(500 <= state.interaction.zoom && state.interaction.zoom <= ceiling);
        }
    }
}

#[test]
fn hit_and_affordance_by_variant() {
    let state = ChartState::default();
    let hits: Vec<Option<Hit>> =
        all().iter().map(|chart| chart.hit_test(&state, bounds(), middle(), 0)).collect();
    assert_eq!(
        hits,
        vec![
            Some(Hit::Point(Nearest { series: 0, point: 1 })),
            Some(Hit::Bar(1)),
            Some(Hit::Slice(1)),
            Some(Hit::Cell(Cell { row: 0, col: 0 })),
            Some(Hit::Axis(1)),
            Some(Hit::Gauge),
        ]
    );
    let shapes: Vec<Interaction> =
        all().iter().map(|chart| chart.mouse_interaction(&state, bounds(), middle())).collect();
    assert_eq!(
        shapes,
        vec![
            Interaction::Crosshair,
            Interaction::Pointer,
            Interaction::Pointer,
            Interaction::Crosshair,
            Interaction::Crosshair,
            Interaction::Pointer,
        ]
    );
    for chart in all() {
        assert_eq!(chart.mouse_interaction(&state, bounds(), Cursor::Unavailable), Interaction::Idle);
        assert_eq!(chart.hit_test(&state, bounds(), Cursor::Unavailable, 0), None);
    }
}

#[test]
fn only_the_pie_picks_a_slice() {
    let press = Event::ButtonPressed(Button::Left);
    for chart in all() {
        let mut state = ChartState::default();
        assert!(chart.update(&mut state, &press, bounds(), middle(), 0));
        let expected = if chart.kind() == ChartKind::Pie { Some(1) } else { None };
        assert_eq!(state.selected_index, expected);
        assert_eq!(state.interaction.selection_start, Some(Point { x: 200_000, y: 150_000 }));
    }
}

#[test]
fn center_follows_the_pan() {
    let mut state = ChartState::default();
    state.interaction = InteractionState { pan: Vector { x: 1000, y: -1000 }, ..state.interaction };
    for chart in all() {
        assert_eq!(chart.center(&state, size()), Point { x: 201_000, y: 149_000 });
    }
}
