use sw_reports::charts::geometry::{Cursor, Point, Rectangle, Vector};
use sw_reports::charts::interaction::{
    selection_rect, Button, ChartKind, Event, ScrollDelta, HEATMAP_ZOOM_MAX, ZOOM_MAX, ZOOM_MIN,
};
use sw_reports::charts::model::{InteractionConfig, InteractionState};

fn bounds() -> Rectangle {
    Rectangle { x: 10_000, y: 20_000, width: 400_000, height: 300_000 }
}

fn inside() -> Cursor {
    Cursor::Available(Point { x: 110_000, y: 70_000 })
}

fn outside() -> Cursor {
    Cursor::Available(Point { x: 5_000, y: 5_000 })
}

fn up() -> Event {
    Event::WheelScrolled { delta: ScrollDelta::Lines { x: 0, y: 1000 } }
}

fn down() -> Event {
    Event::WheelScrolled { delta: ScrollDelta::Lines { x: 0, y: -1000 } }
}

fn all_kinds() -> Vec<ChartKind> {
    vec![
        ChartKind::Line,
        ChartKind::Bar,
        ChartKind::Pie,
        ChartKind::Heatmap,
        ChartKind::Radar,
        ChartKind::Circle,
    ]
}

#[test]
fn default_state_is_idle_at_zoom_one() {
    let state = InteractionState::default();
    assert_eq!(state.zoom, 1000);
    assert_eq!(state.pan, Vector { x: 0, y: 0 });
    assert_eq!(state.selection_start, None);
    assert_eq!(state.selection_end, None);
    assert_eq!(state.pan_start, None);
    assert_eq!(state.pan_origin, Vector { x: 0, y: 0 });
}

#[test]
fn default_config_enables_everything() {
    let config = InteractionConfig::default();
    assert!(config.enable_hover && config.enable_zoom && config.enable_pan);
    assert!(config.enable_selection);
}

#[test]
fn wheel_up_grows_zoom_of_bar_by_a_tenth() {
    let mut state = InteractionState::default();
    let redraw =
        state.handle(ChartKind::Bar, &InteractionConfig::default(), &up(), bounds(), inside());
    assert!(redraw);
    assert_eq!(state.zoom, 1100);
    state.handle(ChartKind::Bar, &InteractionConfig::default(), &up(), bounds(), inside());
    assert_eq!(state.zoom, 1210);
    state.handle(ChartKind::Bar, &InteractionConfig::default(), &down(), bounds(), inside());
    assert_eq!(state.zoom, 1089);
}

#[test]
fn wheel_up_shrinks_zoom_of_line_by_a_tenth() {
    let mut state = InteractionState::default();
    state.handle(ChartKind::Line, &InteractionConfig::default(), &up(), bounds(), inside());
    assert_eq!(state.zoom, 900);
    state.handle(ChartKind::Line, &InteractionConfig::default(), &down(), bounds(), inside());
    assert_eq!(state.zoom, 990);
}

#[test]
fn wheel_at_rest_counts_as_downward() {
    let mut state = InteractionState::default();
    let still = Event::WheelScrolled { delta: ScrollDelta::Lines { x: 0, y: 0 } };
    state.handle(ChartKind::Bar, &InteractionConfig::default(), &still, bounds(), inside());
    assert_eq!(state.zoom, 900);
}

#[test]
fn pixel_scroll_goes_by_its_sign() {
    let mut state = InteractionState::default();
    let small = Event::WheelScrolled { delta: ScrollDelta::Pixels { x: 0, y: 1 } };
    state.handle(ChartKind::Pie, &InteractionConfig::default(), &small, bounds(), inside());
    assert_eq!(state.zoom, 1100);
    assert!(ScrollDelta::Pixels { x: 0, y: 59_000 }.scrolls_up());
    assert!(!ScrollDelta::Pixels { x: 5, y: -1 }.scrolls_up());
    assert!(!ScrollDelta::Lines { x: 1000, y: 0 }.scrolls_up());
}

#[test]
fn zoom_stays_in_interval_under_many_wheel_events() {
    for kind in all_kinds() {
        let ceiling = if kind == ChartKind::Heatmap { HEATMAP_ZOOM_MAX } else { ZOOM_MAX };
        assert_eq!(kind.max_zoom(), ceiling);
        let mut state = InteractionState::default();
        let config = InteractionConfig::default();
        for round in 0..200 {
            let event = if round % 7 < 5 { up() } else { down() };
            state.handle(kind, &config, &event, bounds(), inside());
            assert!(ZOOM_MIN <= state.zoom && state.zoom <= ceiling);
        }
        for _ in 0..100 {
            state.handle(kind, &config, &up(), bounds(), inside());
        }
        let at_up_end = state.zoom;
        for _ in 0..100 {
            state.handle(kind, &config, &down(), bounds(), inside());
        }
        let at_down_end = state.zoom;
        if kind == ChartKind::Line {
            assert_eq!((at_up_end, at_down_end), (ZOOM_MIN, ceiling));
        } else {
            assert_eq!((at_up_end, at_down_end), (ceiling, ZOOM_MIN));
        }
    }
}

#[test]
fn wheel_brings_a_stray_zoom_into_the_interval() {
    let mut state = InteractionState::default();
    state.zoom = i32::MAX;
    state.handle(ChartKind::Heatmap, &InteractionConfig::default(), &up(), bounds(), inside());
    assert_eq!(state.zoom, 4000);
    state.zoom = i32::MIN;
    state.handle(ChartKind::Radar, &InteractionConfig::default(), &up(), bounds(), inside());
    assert_eq!(state.zoom, 500);
    assert_eq!(ChartKind::Circle.next_zoom(-7, false), 500);
    assert_eq!(ChartKind::Circle.next_zoom(4999, true), 5000);
}

#[test]
fn disabled_zoom_changes_nothing() {
    let mut state = InteractionState::default();
    let config = InteractionConfig { enable_zoom: false, ..InteractionConfig::default() };
    let redraw = state.handle(ChartKind::Bar, &config, &up(), bounds(), inside());
    assert!(!redraw);
    assert_eq!(state, InteractionState::default());
}

#[test]
fn right_press_inside_starts_a_pan_drag() {
    let mut state = InteractionState::default();
    state.pan = Vector { x: 3_000, y: -4_000 };
    let config = InteractionConfig::default();
    let press = Event::ButtonPressed(Button::Right);
    assert!(state.handle(ChartKind::Line, &config, &press, bounds(), inside()));
    assert_eq!(state.pan_start, Some(Point { x: 100_000, y: 50_000 }));
    assert_eq!(state.pan_origin, Vector { x: 3_000, y: -4_000 });
    assert_eq!(state.pan, Vector { x: 3_000, y: -4_000 });
}

#[test]
fn right_press_outside_starts_nothing() {
    let mut state = InteractionState::default();
    let config = InteractionConfig::default();
    let press = Event::ButtonPressed(Button::Right);
    assert!(state.handle(ChartKind::Bar, &config, &press, bounds(), outside()));
    assert_eq!(state, InteractionState::default());
    assert!(state.handle(ChartKind::Bar, &config, &press, bounds(), Cursor::Unavailable));
    assert_eq!(state, InteractionState::default());
}

#[test]
fn move_while_panning_shifts_the_pan_by_the_drag() {
    let mut state = InteractionState::default();
    state.pan = Vector { x: 3_000, y: -4_000 };
    let config = InteractionConfig::default();
    state.handle(ChartKind::Line, &config, &Event::ButtonPressed(Button::Right), bounds(), inside());
    let moved = Event::CursorMoved { position: Point { x: 130_000, y: 60_000 } };
    assert!(state.handle(ChartKind::Line, &config, &moved, bounds(), inside()));
    // The pointer went from (100, 50) to (120, 40) in the viewport.
    assert_eq!(state.pan, Vector { x: 23_000, y: -14_000 });
    let release = Event::ButtonReleased(Button::Right);
    assert!(state.handle(ChartKind::Line, &config, &release, bounds(), inside()));
    assert_eq!(state.pan_start, None);
    assert_eq!(state.pan, Vector { x: 23_000, y: -14_000 });
}

#[test]
fn pan_is_frozen_outside_a_drag() {
    let mut state = InteractionState::default();
    state.pan = Vector { x: 7_000, y: 9_000 };
    let config = InteractionConfig::default();
    let events = vec![
        Event::CursorMoved { position: Point { x: 200_000, y: 100_000 } },
        Event::CursorEntered,
        Event::CursorLeft,
        up(),
        Event::ButtonPressed(Button::Left),
        Event::CursorMoved { position: Point { x: 250_000, y: 150_000 } },
        Event::ButtonReleased(Button::Left),
        Event::ButtonReleased(Button::Right),
        Event::ButtonPressed(Button::Other),
        Event::Other,
    ];
    for event in events {
        state.handle(ChartKind::Bar, &config, &event, bounds(), inside());
        assert_eq!(state.pan, Vector { x: 7_000, y: 9_000 });
    }
}

#[test]
fn pan_saturates() {
    let mut state = InteractionState::default();
    state.pan_origin = Vector { x: i32::MAX, y: i32::MIN };
    state.pan_start = Some(Point { x: 0, y: 0 });
    let moved = Event::CursorMoved { position: Point { x: 20_000, y: 10_000 } };
    state.handle(ChartKind::Bar, &InteractionConfig::default(), &moved, bounds(), inside());
    assert_eq!(state.pan, Vector { x: i32::MAX, y: i32::MIN });
}

#[test]
fn left_press_starts_a_selection_and_move_extends_it() {
    let mut state = InteractionState::default();
    state.selection_end = Some(Point { x: 1, y: 1 });
    let config = InteractionConfig::default();
    let press = Event::ButtonPressed(Button::Left);
    assert!(state.handle(ChartKind::Heatmap, &config, &press, bounds(), inside()));
    assert_eq!(state.selection_start, Some(Point { x: 100_000, y: 50_000 }));
    assert_eq!(state.selection_end, None);
    let moved = Event::CursorMoved { position: Point { x: 60_000, y: 90_000 } };
    assert!(state.handle(ChartKind::Heatmap, &config, &moved, bounds(), inside()));
    assert_eq!(state.selection_end, Some(Point { x: 50_000, y: 70_000 }));
    let release = Event::ButtonReleased(Button::Left);
    assert!(state.handle(ChartKind::Heatmap, &config, &release, bounds(), inside()));
    assert_eq!(state.selection_start, Some(Point { x: 100_000, y: 50_000 }));
    assert_eq!(state.selection_end, Some(Point { x: 50_000, y: 70_000 }));
    assert_eq!(
        state.selection(),
        Some(Rectangle { x: 50_000, y: 50_000, width: 50_000, height: 20_000 })
    );
    // The rectangle is kept until the next press of the left button.
    assert!(state.handle(ChartKind::Heatmap, &config, &press, bounds(), inside()));
    assert_eq!(state.selection_end, None);
    assert_eq!(state.selection(), None);
}

#[test]
fn release_without_second_corner_drops_the_selection() {
    let mut state = InteractionState::default();
    let config = InteractionConfig::default();
    state.handle(ChartKind::Line, &config, &Event::ButtonPressed(Button::Left), bounds(), inside());
    assert!(state.selection_start.is_some());
    state.handle(ChartKind::Line, &config, &Event::ButtonReleased(Button::Left), bounds(), inside());
    assert_eq!(state.selection_start, None);
    assert_eq!(state.selection_end, None);
}

#[test]
fn left_press_outside_leaves_no_selection() {
    let mut state = InteractionState::default();
    state.selection_start = Some(Point { x: 1, y: 2 });
    state.selection_end = Some(Point { x: 3, y: 4 });
    let press = Event::ButtonPressed(Button::Left);
    assert!(state.handle(ChartKind::Bar, &InteractionConfig::default(), &press, bounds(), outside()));
    assert_eq!(state.selection_start, None);
    assert_eq!(state.selection_end, None);
}

#[test]
fn disabled_flags_make_events_no_ops() {
    let off = InteractionConfig {
        enable_hover: false,
        enable_zoom: false,
        enable_pan: false,
        enable_selection: false,
    };
    let mut state = InteractionState::default();
    state.pan_start = Some(Point { x: 1_000, y: 1_000 });
    state.selection_start = Some(Point { x: 2_000, y: 2_000 });
    let before = state;
    let events = vec![
        up(),
        down(),
        Event::ButtonPressed(Button::Left),
        Event::ButtonReleased(Button::Left),
        Event::ButtonPressed(Button::Right),
        Event::ButtonReleased(Button::Right),
        Event::CursorMoved { position: Point { x: 50_000, y: 50_000 } },
        Event::CursorEntered,
        Event::CursorLeft,
        Event::Other,
    ];
    for event in events {
        let redraw = state.handle(ChartKind::Line, &off, &event, bounds(), inside());
        assert!(!redraw);
        assert_eq!(state, before);
    }
}

#[test]
fn hover_events_ask_for_a_redraw_only_with_hover_enabled() {
    let mut state = InteractionState::default();
    let on = InteractionConfig::default();
    let off = InteractionConfig { enable_hover: false, ..InteractionConfig::default() };
    let moved = Event::CursorMoved { position: Point { x: 50_000, y: 50_000 } };
    assert!(state.handle(ChartKind::Bar, &on, &moved, bounds(), inside()));
    assert!(state.handle(ChartKind::Bar, &on, &Event::CursorEntered, bounds(), inside()));
    assert!(state.handle(ChartKind::Bar, &on, &Event::CursorLeft, bounds(), inside()));
    assert!(!state.handle(ChartKind::Bar, &off, &moved, bounds(), inside()));
    assert!(!state.handle(ChartKind::Bar, &off, &Event::CursorEntered, bounds(), inside()));
    assert!(!state.handle(ChartKind::Bar, &off, &Event::CursorLeft, bounds(), inside()));
    assert_eq!(state, InteractionState::default());
    // A drag still follows the pointer with hover off.
    state.pan_start = Some(Point { x: 0, y: 0 });
    assert!(state.handle(ChartKind::Bar, &off, &moved, bounds(), inside()));
    assert_eq!(state.pan, Vector { x: 40_000, y: 30_000 });
}

#[test]
fn other_events_are_ignored() {
    let mut state = InteractionState::default();
    let config = InteractionConfig::default();
    for event in [
        Event::Other,
        Event::ButtonPressed(Button::Other),
        Event::ButtonReleased(Button::Other),
    ] {
        assert!(!state.handle(ChartKind::Pie, &config, &event, bounds(), inside()));
        assert_eq!(state, InteractionState::default());
    }
}

#[test]
fn selection_rect_is_the_same_either_way() {
    let corners = [
        (Point { x: 10_000, y: 20_000 }, Point { x: 110_000, y: 5_000 }),
        (Point { x: -3, y: 7 }, Point { x: -3, y: 7 }),
        (Point { x: i32::MIN, y: i32::MAX }, Point { x: i32::MAX, y: i32::MIN }),
        (Point { x: 0, y: 0 }, Point { x: 999, y: 1001 }),
    ];
    for (a, b) in corners {
        assert_eq!(selection_rect(a, b), selection_rect(b, a));
    }
    assert_eq!(
        selection_rect(Point { x: 10_000, y: 20_000 }, Point { x: 110_000, y: 5_000 }),
        Rectangle { x: 10_000, y: 5_000, width: 100_000, height: 15_000 }
    );
}

#[test]
fn selection_rect_is_at_least_one_pixel_each_way_and_saturates() {
    assert_eq!(
        selection_rect(Point { x: 5, y: 5 }, Point { x: 5, y: 400 }),
        Rectangle { x: 5, y: 5, width: 1000, height: 1000 }
    );
    assert_eq!(
        selection_rect(Point { x: i32::MIN, y: 0 }, Point { x: i32::MAX, y: 2_000 }),
        Rectangle { x: i32::MIN, y: 0, width: i32::MAX, height: 2_000 }
    );
}

#[test]
fn effective_zoom_replaces_a_zoom_that_is_not_positive() {
    let mut state = InteractionState::default();
    assert_eq!(state.effective_zoom(), 1000);
    state.zoom = 0;
    assert_eq!(state.effective_zoom(), 1000);
    state.zoom = -5;
    assert_eq!(state.effective_zoom(), 1000);
    state.zoom = 2500;
    assert_eq!(state.effective_zoom(), 2500);
}

#[test]
fn cursor_position_is_relative_to_bounds_and_excludes_far_edges() {
    let b = bounds();
    assert_eq!(inside().position_in(b), Some(Point { x: 100_000, y: 50_000 }));
    assert_eq!(outside().position_in(b), None);
    assert_eq!(Cursor::Unavailable.position_in(b), None);
    assert_eq!(
        Cursor::Available(Point { x: 10_000, y: 20_000 }).position_in(b),
        Some(Point { x: 0, y: 0 })
    );
    assert_eq!(Cursor::Available(Point { x: 410_000, y: 20_000 }).position_in(b), None);
    assert_eq!(Cursor::Available(Point { x: 10_000, y: 320_000 }).position_in(b), None);
    assert_eq!(
        Cursor::Available(Point { x: 409_999, y: 319_999 }).position_in(b),
        Some(Point { x: 399_999, y: 299_999 })
    );
}
