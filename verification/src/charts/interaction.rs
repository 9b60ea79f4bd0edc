//! Pointer and wheel events, and the rules by which they change the view
//! state of a chart.
//!
//! Every rule is gated by one flag of the chart's [`InteractionConfig`]; an
//! event whose flag is off changes nothing and asks for no redraw. The only
//! effect of an event besides the new state is the request for a redraw.

use vstd::prelude::*;
use crate::charts::geometry::Cursor;
use crate::charts::geometry::Point;
use crate::charts::geometry::Rectangle;
use crate::charts::geometry::Vector;
use crate::charts::model::InteractionConfig;
use crate::charts::model::InteractionState;
use crate::charts::numeric::clamp;
use crate::charts::numeric::div_floor;
use crate::charts::numeric::max_int;
use crate::charts::numeric::min_int;
use crate::charts::numeric::mul_wide;
use crate::charts::numeric::sat;
use crate::charts::numeric::saturate;

verus! {

/// The smallest zoom any chart reaches.
pub const ZOOM_MIN: i32 = 500;

/// The largest zoom of every chart but the heatmap.
pub const ZOOM_MAX: i32 = 5000;

/// The largest zoom of the heatmap.
pub const HEATMAP_ZOOM_MAX: i32 = 4000;

/// The factor by which one wheel step enlarges the zoom value.
pub const ZOOM_GROW: i32 = 1100;

/// The factor by which one wheel step reduces the zoom value.
pub const ZOOM_SHRINK: i32 = 900;

/// The six chart variants.
#[derive(Debug, Clone, Copy, PartialEq, Eq, Structural)]
pub enum ChartKind {
    Line,
    Bar,
    Pie,
    Heatmap,
    Radar,
    Circle,
}

/// How far the wheel turned, in wheel lines or in pixels.
#[derive(Debug, Clone, Copy, PartialEq, Eq, Structural)]
pub enum ScrollDelta {
    Lines { x: i32, y: i32 },
    Pixels { x: i32, y: i32 },
}

#[derive(Debug, Clone, Copy, PartialEq, Eq, Structural)]
pub enum Button {
    Left,
    Right,
    Other,
}

/// What the host reports to a chart. `CursorMoved` carries the pointer
/// position in the coordinates of the surrounding window.
#[derive(Debug, Clone, Copy, PartialEq, Eq, Structural)]
pub enum Event {
    CursorMoved { position: Point },
    CursorEntered,
    CursorLeft,
    WheelScrolled { delta: ScrollDelta },
    ButtonPressed(Button),
    ButtonReleased(Button),
    Other,
}

impl ScrollDelta {
    /// The vertical scroll amount in sixtieths of a wheel line. Sixty pixels
    /// count as one line, so a pixel is one sixtieth.
    pub open spec fn sixtieths(self) -> int {
        match self {
            ScrollDelta::Lines { x, y } => 60 * y,
            ScrollDelta::Pixels { x, y } => y as int,
        }
    }

    /// Whether the wheel turned upward.
    pub open spec fn is_up(self) -> bool {
        self.sixtieths() > 0
    }

    pub fn scrolls_up(&self) -> (up: bool)
        ensures
            up == self.is_up(),
    {
        match *self {
            ScrollDelta::Lines { x, y } => y > 0,
            ScrollDelta::Pixels { x, y } => y > 0,
        }
    }
}

impl ChartKind {
    /// The upper end of the interval the zoom of this variant is kept in.
    pub open spec fn zoom_ceiling(self) -> int {
        if self == ChartKind::Heatmap {
            HEATMAP_ZOOM_MAX as int
        } else {
            ZOOM_MAX as int
        }
    }

    /// The factor one wheel step applies to the zoom value. The line chart
    /// narrows its visible range on an upward step by reducing the value;
    /// every other variant enlarges it.
    pub open spec fn zoom_factor(self, up: bool) -> int {
        if up == (self != ChartKind::Line) {
            ZOOM_GROW as int
        } else {
            ZOOM_SHRINK as int
        }
    }

    /// The zoom value after one wheel step.
    pub open spec fn zoom_after(self, zoom: int, up: bool) -> int {
        clamp(zoom * self.zoom_factor(up) / 1000, ZOOM_MIN as int, self.zoom_ceiling())
    }

    pub fn max_zoom(self) -> (ceiling: i32)
        ensures
            ceiling == self.zoom_ceiling(),
    {
        match self {
            ChartKind::Heatmap => HEATMAP_ZOOM_MAX,
            _ => ZOOM_MAX,
        }
    }

    /// Applies one wheel step to `zoom`.
    pub fn next_zoom(self, zoom: i32, up: bool) -> (next: i32)
        ensures
            next == self.zoom_after(zoom as int, up),
            ZOOM_MIN <= next <= self.zoom_ceiling(),
    {
        let grows: bool = match self {
            ChartKind::Line => !up,
            _ => up,
        };
        let factor: i32 = if grows {
            ZOOM_GROW
        } else {
            ZOOM_SHRINK
        };
        let scaled: i128 = div_floor(mul_wide(zoom as i64, factor as i64), 1000);
        let ceiling: i32 = self.max_zoom();
        if scaled < ZOOM_MIN as i128 {
            ZOOM_MIN
        } else if scaled > ceiling as i128 {
            ceiling
        } else {
            scaled as i32
        }
    }
}

/// `position` relative to the top-left corner of `bounds`, saturating.
pub open spec fn spec_local(position: Point, bounds: Rectangle) -> Point {
    Point { x: sat(position.x - bounds.x) as i32, y: sat(position.y - bounds.y) as i32 }
}

pub fn local(position: Point, bounds: Rectangle) -> (p: Point)
    ensures
        p == spec_local(position, bounds),
{
    Point {
        x: saturate(position.x as i128 - bounds.x as i128),
        y: saturate(position.y as i128 - bounds.y as i128),
    }
}

/// The rectangle spanned by two corners of a drag, whichever way the drag
/// went. It is at least one pixel wide and high.
pub open spec fn spec_selection_rect(start: Point, end: Point) -> Rectangle {
    Rectangle {
        x: min_int(start.x as int, end.x as int) as i32,
        y: min_int(start.y as int, end.y as int) as i32,
        width: sat(
            max_int(
                max_int(start.x as int, end.x as int) - min_int(start.x as int, end.x as int),
                1000,
            ),
        ) as i32,
        height: sat(
            max_int(
                max_int(start.y as int, end.y as int) - min_int(start.y as int, end.y as int),
                1000,
            ),
        ) as i32,
    }
}

/// Normalises the two corners of a drag into a rectangle.
pub fn selection_rect(start: Point, end: Point) -> (rect: Rectangle)
    ensures
        rect == spec_selection_rect(start, end),
{
    let left: i32 = if start.x <= end.x {
        start.x
    } else {
        end.x
    };
    let right: i32 = if start.x <= end.x {
        end.x
    } else {
        start.x
    };
    let top: i32 = if start.y <= end.y {
        start.y
    } else {
        end.y
    };
    let bottom: i32 = if start.y <= end.y {
        end.y
    } else {
        start.y
    };
    let span_x: i128 = right as i128 - left as i128;
    let span_y: i128 = bottom as i128 - top as i128;
    Rectangle {
        x: left,
        y: top,
        width: saturate(if span_x >= 1000 { span_x } else { 1000 }),
        height: saturate(if span_y >= 1000 { span_y } else { 1000 }),
    }
}

/// Dragging from one corner to the other gives the same rectangle as
/// dragging back.
pub proof fn lemma_selection_rect_symmetric(a: Point, b: Point)
    ensures
        spec_selection_rect(a, b) == spec_selection_rect(b, a),
{
}

/// Two selections whose corners are each other's, as a drag one way and
/// a drag back leave them, have the same rectangle.
pub proof fn lemma_drag_direction_is_irrelevant(there: InteractionState, back: InteractionState)
    requires
        there.selection_start == back.selection_end,
        there.selection_end == back.selection_start,
    ensures
        there.spec_selection() == back.spec_selection(),
{
}

impl InteractionState {
    /// The zoom the charts draw with: a value that is not positive counts
    /// as one.
    pub open spec fn spec_effective_zoom(self) -> int {
        if self.zoom <= 0 {
            1000
        } else {
            self.zoom as int
        }
    }

    pub fn effective_zoom(&self) -> (zoom: i32)
        ensures
            zoom == self.spec_effective_zoom(),
            zoom > 0,
    {
        if self.zoom <= 0 {
            1000
        } else {
            self.zoom
        }
    }

    /// The selection rectangle, once both of its corners are known.
    pub open spec fn spec_selection(self) -> Option<Rectangle> {
        match (self.selection_start, self.selection_end) {
            (Some(start), Some(end)) => Some(spec_selection_rect(start, end)),
            _ => None,
        }
    }

    pub fn selection(&self) -> (rect: Option<Rectangle>)
        ensures
            rect == self.spec_selection(),
    {
        match (self.selection_start, self.selection_end) {
            (Some(start), Some(end)) => Some(selection_rect(start, end)),
            _ => None,
        }
    }

    /// Whether a pan drag is in progress.
    pub open spec fn panning(self) -> bool {
        self.pan_start is Some
    }

    /// Whether a selection is being made or kept.
    pub open spec fn selecting(self) -> bool {
        self.selection_start is Some
    }

    /// The state after one event.
    ///
    /// * Wheel: the zoom takes one step and is clamped.
    /// * Right button down: with the pointer inside `bounds`, a pan drag
    ///   starts there and remembers the current pan.
    /// * Pointer move: a pan drag moves the pan by the distance dragged, and
    ///   a selection in progress moves its second corner.
    /// * Right button up: the pan drag ends; the pan stays.
    /// * Left button down: a selection starts at the pointer, if it is
    ///   inside `bounds`, and has no second corner yet.
    /// * Left button up: a selection with both corners is kept; one without
    ///   is dropped.
    /// * Anything else leaves the state alone.
    pub open spec fn after(
        self,
        kind: ChartKind,
        config: InteractionConfig,
        event: Event,
        bounds: Rectangle,
        cursor: Cursor,
    ) -> InteractionState {
        match event {
            Event::WheelScrolled { delta } => if config.enable_zoom {
                InteractionState {
                    zoom: kind.zoom_after(self.zoom as int, delta.is_up()) as i32,
                    ..self
                }
            } else {
                self
            },
            Event::ButtonPressed(Button::Right) => if config.enable_pan {
                match cursor.spec_position_in(bounds) {
                    Some(p) => InteractionState {
                        pan_start: Some(p),
                        pan_origin: self.pan,
                        ..self
                    },
                    None => self,
                }
            } else {
                self
            },
            Event::ButtonReleased(Button::Right) => if config.enable_pan {
                InteractionState { pan_start: None, ..self }
            } else {
                self
            },
            Event::ButtonPressed(Button::Left) => if config.enable_selection {
                InteractionState {
                    selection_start: cursor.spec_position_in(bounds),
                    selection_end: None,
                    ..self
                }
            } else {
                self
            },
            Event::ButtonReleased(Button::Left) => if config.enable_selection
                && self.spec_selection() is None {
                InteractionState { selection_start: None, selection_end: None, ..self }
            } else {
                self
            },
            Event::CursorMoved { position } => {
                let p = spec_local(position, bounds);
                InteractionState {
                    selection_end: if config.enable_selection && self.selecting() {
                        Some(p)
                    } else {
                        self.selection_end
                    },
                    pan: if config.enable_pan && self.panning() {
                        self.pan_origin.spec_plus(p.spec_minus(self.pan_start->0))
                    } else {
                        self.pan
                    },
                    ..self
                }
            },
            _ => self,
        }
    }

    /// Whether one event asks the host for a redraw: it does when the flag
    /// that governs it is on. A pointer move is governed by the drag it
    /// continues, and by the hover flag besides.
    pub open spec fn requests_redraw(self, config: InteractionConfig, event: Event) -> bool {
        match event {
            Event::WheelScrolled { delta } => config.enable_zoom,
            Event::ButtonPressed(Button::Right) => config.enable_pan,
            Event::ButtonReleased(Button::Right) => config.enable_pan,
            Event::ButtonPressed(Button::Left) => config.enable_selection,
            Event::ButtonReleased(Button::Left) => config.enable_selection,
            Event::CursorMoved { position } => config.enable_hover || (config.enable_selection
                && self.selecting()) || (config.enable_pan && self.panning()),
            Event::CursorEntered => config.enable_hover,
            Event::CursorLeft => config.enable_hover,
            _ => false,
        }
    }

    /// Applies one event and says whether a redraw is wanted.
    pub fn handle(
        &mut self,
        kind: ChartKind,
        config: &InteractionConfig,
        event: &Event,
        bounds: Rectangle,
        cursor: Cursor,
    ) -> (redraw: bool)
        ensures
            *final(self) == old(self).after(kind, *config, *event, bounds, cursor),
            redraw == old(self).requests_redraw(*config, *event),
    {
        match *event {
            Event::WheelScrolled { delta } => {
                if !config.enable_zoom {
                    return false;
                }
                self.zoom = kind.next_zoom(self.zoom, delta.scrolls_up());
                true
            },
            Event::ButtonPressed(Button::Right) => {
                if !config.enable_pan {
                    return false;
                }
                match cursor.position_in(bounds) {
                    Some(p) => {
                        self.pan_start = Some(p);
                        self.pan_origin = self.pan;
                    },
                    None => {},
                }
                true
            },
            Event::ButtonReleased(Button::Right) => {
                if !config.enable_pan {
                    return false;
                }
                self.pan_start = None;
                true
            },
            Event::ButtonPressed(Button::Left) => {
                if !config.enable_selection {
                    return false;
                }
                self.selection_start = cursor.position_in(bounds);
                self.selection_end = None;
                true
            },
            Event::ButtonReleased(Button::Left) => {
                if !config.enable_selection {
                    return false;
                }
                if !(self.selection_start.is_some() && self.selection_end.is_some()) {
                    self.selection_start = None;
                    self.selection_end = None;
                }
                true
            },
            Event::CursorMoved { position } => {
                let p: Point = local(position, bounds);
                let mut redraw: bool = config.enable_hover;
                if config.enable_selection && self.selection_start.is_some() {
                    self.selection_end = Some(p);
                    redraw = true;
                }
                if config.enable_pan {
                    match self.pan_start {
                        Some(start) => {
                            self.pan = self.pan_origin.plus(p.minus(start));
                            redraw = true;
                        },
                        None => {},
                    }
                }
                redraw
            },
            Event::CursorEntered => config.enable_hover,
            Event::CursorLeft => config.enable_hover,
            _ => false,
        }
    }
}

impl InteractionState {
    /// The state after a run of events, each with the pointer as it was
    /// when the event arrived.
    pub open spec fn after_all(
        self,
        kind: ChartKind,
        config: InteractionConfig,
        events: Seq<(Event, Cursor)>,
        bounds: Rectangle,
    ) -> InteractionState
        decreases events.len(),
    {
        if events.len() == 0 {
            self
        } else {
            self.after_all(kind, config, events.drop_last(), bounds).after(
                kind,
                config,
                events.last().0,
                bounds,
                events.last().1,
            )
        }
    }
}

/// One wheel step brings the zoom into the interval of the variant,
/// wherever it was and whichever way the wheel turned.
pub proof fn lemma_wheel_lands_in_range(
    state: InteractionState,
    kind: ChartKind,
    config: InteractionConfig,
    delta: ScrollDelta,
    bounds: Rectangle,
    cursor: Cursor,
)
    requires
        config.enable_zoom,
    ensures
        ZOOM_MIN <= state.after(kind, config, Event::WheelScrolled { delta }, bounds, cursor).zoom
            <= kind.zoom_ceiling(),
{
}

/// No event takes the zoom out of the interval of the variant.
pub proof fn lemma_event_keeps_zoom_in_range(
    state: InteractionState,
    kind: ChartKind,
    config: InteractionConfig,
    event: Event,
    bounds: Rectangle,
    cursor: Cursor,
)
    requires
        ZOOM_MIN <= state.zoom <= kind.zoom_ceiling(),
    ensures
        ZOOM_MIN <= state.after(kind, config, event, bounds, cursor).zoom <= kind.zoom_ceiling(),
{
}

/// After any run of events, wheel events in either direction among them
/// and however many, the zoom is still in the interval of the variant.
pub proof fn lemma_zoom_stays_in_range(
    state: InteractionState,
    kind: ChartKind,
    config: InteractionConfig,
    events: Seq<(Event, Cursor)>,
    bounds: Rectangle,
)
    requires
        ZOOM_MIN <= state.zoom <= kind.zoom_ceiling(),
    ensures
        ZOOM_MIN <= state.after_all(kind, config, events, bounds).zoom <= kind.zoom_ceiling(),
    decreases events.len(),
{
    if events.len() > 0 {
        lemma_zoom_stays_in_range(state, kind, config, events.drop_last(), bounds);
    }
}

/// The pan changes only while a pan drag is in progress: an event other
/// than a pointer move during a drag leaves it as it was.
pub proof fn lemma_pan_frozen_outside_drag(
    state: InteractionState,
    kind: ChartKind,
    config: InteractionConfig,
    event: Event,
    bounds: Rectangle,
    cursor: Cursor,
)
    requires
        !(event is CursorMoved && config.enable_pan && state.panning()),
    ensures
        state.after(kind, config, event, bounds, cursor).pan == state.pan,
{
}

/// An event whose flag is off changes nothing and asks for no redraw.
pub proof fn lemma_disabled_changes_nothing(
    state: InteractionState,
    kind: ChartKind,
    event: Event,
    bounds: Rectangle,
    cursor: Cursor,
)
    ensures
        ({
            let off = InteractionConfig {
                enable_hover: false,
                enable_zoom: false,
                enable_pan: false,
                enable_selection: false,
            };
            state.after(kind, off, event, bounds, cursor) == state && !state.requests_redraw(
                off,
                event,
            )
        }),
{
}

} // verus!
