//! The pie chart: sectors swept clockwise from twelve o'clock, each as wide
//! as its value has a share of the total.

use vstd::prelude::*;
use vstd::string::*;
use crate::charts::cache::GeometryCache;
use crate::charts::geometry::Color;
use crate::charts::geometry::Cursor;
use crate::charts::geometry::Interaction;
use crate::charts::geometry::Point;
use crate::charts::geometry::Rectangle;
use crate::charts::geometry::Size;
use crate::charts::geometry::Theme;
use crate::charts::geometry::FULL_TURN;
use crate::charts::geometry::NOON;
use crate::charts::interaction::Button;
use crate::charts::interaction::ChartKind;
use crate::charts::interaction::Event;
use crate::charts::model::InteractionConfig;
use crate::charts::model::InteractionState;
use crate::charts::model::PieSlice;
use crate::charts::numeric::div_floor;
use crate::charts::numeric::lemma_mul_bound;
use crate::charts::numeric::min_int;
use crate::charts::numeric::mul_narrow;
use crate::charts::numeric::mul_wide;
use crate::charts::numeric::sat;
use crate::charts::numeric::saturate;
use crate::charts::parts::emit_selection;
use crate::charts::parts::make_tooltip;
use crate::charts::parts::make_value_label;
use crate::charts::parts::selection_shapes;
use crate::charts::parts::tooltip_at;
use crate::charts::parts::value_label;
use crate::charts::polar::center;
use crate::charts::polar::past_noon;
use crate::charts::polar::radius;
use crate::charts::polar::spec_center;
use crate::charts::polar::spec_past_noon;
use crate::charts::polar::spec_radius;
use crate::charts::shape::emit;
use crate::charts::shape::layer_views;
use crate::charts::shape::views;
use crate::charts::shape::Shape;
use crate::charts::shape::ShapeView;

verus! {

/// The factor by which the selected slice is brightened.
pub const HIGHLIGHT: i32 = 1150;

/// The view state of a pie chart: zoom and pan, and the slice that was
/// picked last.
#[derive(Debug, Clone, Copy, PartialEq, Eq)]
pub struct PieState {
    pub interaction: InteractionState,
    pub selected_index: Option<usize>,
}

impl Default for PieState {
    /// Zoom of one, no pan, no drag in progress, no slice picked.
    fn default() -> (state: Self)
        ensures
            state.interaction.zoom == 1000,
            state.interaction.pan.x == 0,
            state.interaction.pan.y == 0,
            state.interaction.selection_start is None,
            state.interaction.selection_end is None,
            state.interaction.pan_start is None,
            state.selected_index is None,
    {
        PieState { interaction: InteractionState::default(), selected_index: None }
    }
}

/// A pie chart over a list of slices.
#[derive(Debug, Clone, PartialEq, Eq)]
pub struct PieChart {
    pub slices: Vec<PieSlice>,
    pub interaction: InteractionConfig,
}

/// The sum of the values of the first `k` slices.
pub open spec fn sum_values(slices: Seq<PieSlice>, k: nat) -> int
    decreases k,
{
    if k == 0 {
        0
    } else {
        sum_values(slices, (k - 1) as nat) + slices[k - 1].value
    }
}

/// A sum of `k` values is at most `k` times the largest value there is.
pub proof fn lemma_sum_bound(slices: Seq<PieSlice>, k: nat)
    requires
        k <= slices.len(),
    ensures
        -0x8000_0000 * k <= sum_values(slices, k) <= 0x8000_0000 * k,
    decreases k,
{
    if k > 0 {
        lemma_sum_bound(slices, (k - 1) as nat);
    }
}

/// One channel once brightened: multiplied by the factor, but no more than
/// full strength.
pub open spec fn spec_brighten_channel(c: int, factor: int) -> int {
    sat(min_int((c * factor) / 1000, 1000))
}

/// A colour once brightened. The alpha stays.
pub open spec fn spec_brighten(color: Color, factor: int) -> Color {
    Color {
        r: spec_brighten_channel(color.r as int, factor) as i32,
        g: spec_brighten_channel(color.g as int, factor) as i32,
        b: spec_brighten_channel(color.b as int, factor) as i32,
        a: color.a,
    }
}

fn brighten_channel(c: i32, factor: i32) -> (out: i32)
    ensures
        out == spec_brighten_channel(c as int, factor as int),
{
    let scaled: i128 = div_floor(mul_wide(c as i64, factor as i64), 1000);
    saturate(if scaled > 1000 { 1000 } else { scaled })
}

/// Brightens `color` by `factor`, given in thousandths.
pub fn brighten(color: Color, factor: i32) -> (out: Color)
    ensures
        out == spec_brighten(color, factor as int),
{
    Color {
        r: brighten_channel(color.r, factor),
        g: brighten_channel(color.g, factor),
        b: brighten_channel(color.b, factor),
        a: color.a,
    }
}

/// The angle at which slice `i` begins and slice `i - 1` ends: twelve
/// o'clock, plus the share of the full turn that the slices before `i`
/// have of the total.
pub open spec fn spec_boundary(slices: Seq<PieSlice>, i: int) -> int {
    sat(NOON + (sum_values(slices, i as nat) * FULL_TURN) / sum_values(slices, slices.len()))
}

/// Whether an angle, counted from twelve o'clock, lies in slice `i`. A
/// slice holds the angle at which it begins and not the angle at which it
/// ends.
pub open spec fn angle_in_slice(slices: Seq<PieSlice>, angle: int, i: int) -> bool {
    let total = sum_values(slices, slices.len());
    sum_values(slices, i as nat) * FULL_TURN <= angle * total < sum_values(
        slices,
        (i + 1) as nat,
    ) * FULL_TURN
}

/// The first slice from `from` on that holds the angle.
pub open spec fn first_slice(slices: Seq<PieSlice>, angle: int, from: nat) -> Option<usize>
    decreases slices.len() - from,
{
    if from >= slices.len() {
        None
    } else if angle_in_slice(slices, angle, from as int) {
        Some(from as usize)
    } else {
        first_slice(slices, angle, from + 1)
    }
}

/// Whether `at` lies on the disc with the given centre and radius, its rim
/// counted in.
pub open spec fn on_disc(center: Point, radius: int, at: Point) -> bool {
    radius >= 0 && (at.x - center.x) * (at.x - center.x) + (at.y - center.y) * (at.y - center.y)
        <= radius * radius
}

impl PieChart {
    /// A chart with every interaction enabled.
    pub open spec fn spec_new(slices: Vec<PieSlice>) -> PieChart {
        PieChart {
            slices,
            interaction: InteractionConfig {
                enable_hover: true,
                enable_zoom: true,
                enable_pan: true,
                enable_selection: true,
            },
        }
    }

    pub fn new(slices: Vec<PieSlice>) -> (chart: Self)
        ensures
            chart == PieChart::spec_new(slices),
    {
        PieChart { slices, interaction: InteractionConfig::default() }
    }

    pub fn with_interaction(self, interaction: InteractionConfig) -> (chart: Self)
        ensures
            chart.slices == self.slices,
            chart.interaction == interaction,
    {
        PieChart { slices: self.slices, interaction }
    }

    /// The sum of all values.
    pub open spec fn spec_total(&self) -> int {
        sum_values(self.slices@, self.slices@.len())
    }

    /// The colour slice `i` is drawn in: its own, brightened if it is the
    /// picked slice.
    pub open spec fn slice_color(&self, state: PieState, i: int) -> Color {
        if state.selected_index == Some(i as usize) {
            spec_brighten(self.slices@[i].color, HIGHLIGHT as int)
        } else {
            self.slices@[i].color
        }
    }

    /// The sector of slice `i`.
    pub open spec fn sector(&self, state: PieState, size: Size, i: int) -> ShapeView {
        ShapeView::FillSector {
            center: spec_center(size, state.interaction.pan),
            radius: spec_radius(size, state.interaction.spec_effective_zoom()) as i32,
            start_angle: spec_boundary(self.slices@, i) as i32,
            end_angle: spec_boundary(self.slices@, i + 1) as i32,
            color: self.slice_color(state, i),
        }
    }

    /// The base layer: one sector per slice, or nothing if the total is not
    /// positive.
    pub open spec fn base_shapes(&self, state: PieState, size: Size) -> Seq<ShapeView> {
        if self.spec_total() <= 0 {
            Seq::empty()
        } else {
            Seq::new(self.slices@.len(), |i: int| self.sector(state, size, i))
        }
    }

    /// The slice under a pointer at `at` that lies in the given direction
    /// from the centre: none if `at` is off the disc or the total is not
    /// positive, else the first slice that holds the direction.
    pub open spec fn slice_at(
        &self,
        state: InteractionState,
        size: Size,
        at: Point,
        direction: i32,
    ) -> Option<usize> {
        if self.spec_total() > 0 && on_disc(
            spec_center(size, state.pan),
            spec_radius(size, state.spec_effective_zoom()),
            at,
        ) {
            first_slice(self.slices@, spec_past_noon(direction as int), 0)
        } else {
            None
        }
    }

    /// The slice under the pointer, if the pointer is over one.
    pub open spec fn spec_hit_test(
        &self,
        state: InteractionState,
        bounds: Rectangle,
        cursor: Cursor,
        direction: i32,
    ) -> Option<usize> {
        match cursor.spec_position_in(bounds) {
            Some(at) => self.slice_at(state, bounds.spec_size(), at, direction),
            None => None,
        }
    }

    /// The overlay for a pointer at `at`: the tooltip of the slice under
    /// it, if there is one, and the outline of the selection, if there is
    /// one.
    pub open spec fn overlay_shapes(
        &self,
        state: PieState,
        size: Size,
        theme: Theme,
        at: Point,
        direction: i32,
    ) -> Seq<ShapeView> {
        (match self.slice_at(state.interaction, size, at, direction) {
            Some(i) => seq![
                tooltip_at(
                    value_label(self.slices@[i as int].label@, self.slices@[i as int].value as int),
                    at,
                    theme,
                ),
            ],
            None => Seq::empty(),
        }) + selection_shapes(state.interaction, theme)
    }

    /// The layers of one frame around a given base layer: none if there is
    /// no slice, else the base layer and, with the pointer inside `bounds`,
    /// the overlay.
    pub open spec fn layers(
        &self,
        state: PieState,
        theme: Theme,
        bounds: Rectangle,
        cursor: Cursor,
        direction: i32,
        base: Seq<ShapeView>,
    ) -> Seq<Seq<ShapeView>> {
        if self.slices@.len() == 0 {
            Seq::empty()
        } else {
            match cursor.spec_position_in(bounds) {
                Some(at) => seq![
                    base,
                    self.overlay_shapes(state, bounds.spec_size(), theme, at, direction),
                ],
                None => seq![base],
            }
        }
    }

    /// The picked slice after one event: a press of the left button inside
    /// `bounds`, with selection enabled, picks the slice under the pointer
    /// or, off every slice, none; nothing else changes the pick.
    pub open spec fn pick_after(
        &self,
        state: PieState,
        event: Event,
        bounds: Rectangle,
        cursor: Cursor,
        direction: i32,
    ) -> Option<usize> {
        if event == Event::ButtonPressed(Button::Left) && self.interaction.enable_selection
            && cursor.spec_position_in(bounds) is Some {
            self.spec_hit_test(state.interaction, bounds, cursor, direction)
        } else {
            state.selected_index
        }
    }

    /// The sum of all values.
    pub fn total(&self) -> (sum: i128)
        ensures
            sum == self.spec_total(),
            -0x8000_0000 * self.slices@.len() <= sum <= 0x8000_0000 * self.slices@.len(),
    {
        let mut sum: i128 = 0;
        let mut i: usize = 0;
        while i < self.slices.len()
            invariant
                i <= self.slices@.len(),
                sum == sum_values(self.slices@, i as nat),
                -0x8000_0000 * i <= sum <= 0x8000_0000 * i,
            decreases self.slices.len() - i,
        {
            sum = sum + self.slices[i].value as i128;
            i += 1;
        }
        sum
    }

    /// The centre of the disc, from which the host takes the direction of
    /// the pointer.
    pub fn center(&self, state: &PieState, size: Size) -> (c: Point)
        ensures
            c == spec_center(size, state.interaction.pan),
    {
        center(size, state.interaction.pan)
    }

    /// The slice under a pointer at `at` that lies in the given direction
    /// from the centre.
    pub fn hit_test_slice(
        &self,
        state: &InteractionState,
        size: Size,
        at: Point,
        direction: i32,
    ) -> (hit: Option<usize>)
        ensures
            hit == self.slice_at(*state, size, at, direction),
            hit matches Some(i) ==> i < self.slices@.len(),
            self.spec_total() <= 0 ==> hit is None,
    {
        let c: Point = center(size, state.pan);
        let r: i32 = radius(size, state.effective_zoom());
        let dx: i64 = at.x as i64 - c.x as i64;
        let dy: i64 = at.y as i64 - c.y as i64;
        proof {
            lemma_mul_bound(dx as int, dx as int, 0x1_0000_0000, 0x1_0000_0000);
            lemma_mul_bound(dy as int, dy as int, 0x1_0000_0000, 0x1_0000_0000);
        }
        if r < 0 || mul_wide(dx, dx) + mul_wide(dy, dy) > mul_wide(r as i64, r as i64) {
            return None;
        }
        let total: i128 = self.total();
        if total <= 0 {
            return None;
        }
        self.find_slice(total, past_noon(direction))
    }

    fn find_slice(&self, total: i128, angle: i32) -> (hit: Option<usize>)
        requires
            total == self.spec_total(),
            0 <= angle < FULL_TURN,
        ensures
            hit == first_slice(self.slices@, angle as int, 0),
            hit matches Some(i) ==> i < self.slices@.len(),
    {
        proof {
            lemma_sum_bound(self.slices@, self.slices@.len());
            assert(self.slices.len() <= usize::MAX);
        }
        let target: i128 = mul_narrow(total, angle);
        proof {
            assert(total as int * angle as int == angle as int * total as int)
                by (nonlinear_arith);
        }
        let mut before: i128 = 0;
        let mut i: usize = 0;
        while i < self.slices.len()
            invariant
                i <= self.slices@.len(),
                before == sum_values(self.slices@, i as nat),
                total == self.spec_total(),
                target == angle as int * total as int,
                first_slice(self.slices@, angle as int, 0) == first_slice(
                    self.slices@,
                    angle as int,
                    i as nat,
                ),
            decreases self.slices.len() - i,
        {
            proof {
                lemma_sum_bound(self.slices@, i as nat);
                lemma_sum_bound(self.slices@, (i + 1) as nat);
            }
            let after: i128 = before + self.slices[i].value as i128;
            if before * (FULL_TURN as i128) <= target && target < after * (FULL_TURN as i128) {
                return Some(i);
            }
            before = after;
            i += 1;
        }
        None
    }

    /// The slice under the pointer, if the pointer is over one. `direction`
    /// is the direction from the centre of the disc to the pointer.
    pub fn hit_test(
        &self,
        state: &InteractionState,
        bounds: Rectangle,
        cursor: Cursor,
        direction: i32,
    ) -> (hit: Option<usize>)
        ensures
            hit == self.spec_hit_test(*state, bounds, cursor, direction),
            hit matches Some(i) ==> i < self.slices@.len(),
            self.spec_total() <= 0 ==> hit is None,
    {
        match cursor.position_in(bounds) {
            Some(at) => self.hit_test_slice(state, bounds.size(), at, direction),
            None => None,
        }
    }

    /// Applies one event to the view state and says whether a redraw is
    /// wanted. Zoom, pan and the selection follow the rules common to all
    /// charts; a press of the left button inside `bounds` also picks the
    /// slice under the pointer.
    pub fn update(
        &self,
        state: &mut PieState,
        event: &Event,
        bounds: Rectangle,
        cursor: Cursor,
        direction: i32,
    ) -> (redraw: bool)
        ensures
            final(state).interaction == old(state).interaction.after(
                ChartKind::Pie,
                self.interaction,
                *event,
                bounds,
                cursor,
            ),
            final(state).selected_index == self.pick_after(
                *old(state),
                *event,
                bounds,
                cursor,
                direction,
            ),
            redraw == old(state).interaction.requests_redraw(self.interaction, *event),
    {
        let picks: bool = match *event {
            Event::ButtonPressed(Button::Left) => self.interaction.enable_selection,
            _ => false,
        };
        if picks {
            match cursor.position_in(bounds) {
                Some(at) => {
                    state.selected_index = self.hit_test_slice(
                        &state.interaction,
                        bounds.size(),
                        at,
                        direction,
                    );
                },
                None => {},
            }
        }
        state.interaction.handle(ChartKind::Pie, &self.interaction, event, bounds, cursor)
    }

    fn boundary(&self, before: i128, total: i128, Ghost(i): Ghost<int>) -> (angle: i32)
        requires
            0 <= i <= self.slices@.len(),
            before == sum_values(self.slices@, i as nat),
            total == self.spec_total(),
            total > 0,
        ensures
            angle == spec_boundary(self.slices@, i),
    {
        proof {
            lemma_sum_bound(self.slices@, i as nat);
            assert(self.slices.len() <= usize::MAX);
        }
        let share: i128 = div_floor(before * (FULL_TURN as i128), total);
        proof {
            crate::charts::numeric::lemma_div_bound(
                before as int * 360_000,
                total as int,
                0x8000_0000_0000_0000_0000_0000int * 360_000int,
            );
        }
        saturate(NOON as i128 + share)
    }

    /// Computes the base layer for a viewport of `size`.
    pub fn base_geometry(&self, state: &PieState, size: Size) -> (shapes: Vec<Shape>)
        ensures
            views(shapes@) == self.base_shapes(*state, size),
            self.spec_total() <= 0 ==> shapes@.len() == 0,
    {
        let mut shapes: Vec<Shape> = Vec::new();
        let total: i128 = self.total();
        if total <= 0 {
            return shapes;
        }
        let c: Point = center(size, state.interaction.pan);
        let r: i32 = radius(size, state.interaction.effective_zoom());
        let mut before: i128 = 0;
        let mut start: i32 = self.boundary(0, total, Ghost(0));
        let mut i: usize = 0;
        while i < self.slices.len()
            invariant
                i <= self.slices@.len(),
                total == self.spec_total(),
                total > 0,
                c == spec_center(size, state.interaction.pan),
                r == spec_radius(size, state.interaction.spec_effective_zoom()),
                before == sum_values(self.slices@, i as nat),
                start == spec_boundary(self.slices@, i as int),
                views(shapes@) == self.base_shapes(*state, size).subrange(0, i as int),
            decreases self.slices.len() - i,
        {
            proof {
                lemma_sum_bound(self.slices@, (i + 1) as nat);
            }
            let slice = &self.slices[i];
            let after: i128 = before + slice.value as i128;
            let end: i32 = self.boundary(after, total, Ghost(i + 1));
            let picked: bool = match state.selected_index {
                Some(index) => index == i,
                None => false,
            };
            let color = if picked {
                brighten(slice.color, HIGHLIGHT)
            } else {
                slice.color
            };
            emit(
                &mut shapes,
                Shape::FillSector {
                    center: c,
                    radius: r,
                    start_angle: start,
                    end_angle: end,
                    color,
                },
            );
            before = after;
            start = end;
            i += 1;
        }
        shapes
    }

    /// Computes the overlay for a pointer at `at` in the given direction
    /// from the centre.
    pub fn overlay_geometry(
        &self,
        state: &PieState,
        size: Size,
        theme: &Theme,
        at: Point,
        direction: i32,
    ) -> (shapes: Vec<Shape>)
        ensures
            views(shapes@) == self.overlay_shapes(*state, size, *theme, at, direction),
    {
        let mut shapes: Vec<Shape> = Vec::new();
        match self.hit_test_slice(&state.interaction, size, at, direction) {
            Some(i) => {
                let slice = &self.slices[i];
                emit(
                    &mut shapes,
                    make_tooltip(make_value_label(&slice.label, slice.value), at, theme),
                );
            },
            None => {},
        }
        emit_selection(&mut shapes, &state.interaction, theme);
        shapes
    }

    /// Draws one frame. Without a slice there are no layers. Otherwise the
    /// base layer comes first, from the cache if the cache holds a layer
    /// for the size of `bounds` and computed and remembered if not; with
    /// the pointer inside `bounds` the overlay follows. `direction` is the
    /// direction from the centre of the disc to the pointer; it is not
    /// looked at while the pointer is outside.
    pub fn draw(
        &self,
        cache: &mut GeometryCache,
        state: &PieState,
        theme: &Theme,
        bounds: Rectangle,
        cursor: Cursor,
        direction: i32,
    ) -> (layers: Vec<Vec<Shape>>)
        ensures
            layer_views(layers@) == self.layers(
                *state,
                *theme,
                bounds,
                cursor,
                direction,
                old(cache).resolve(
                    bounds.spec_size(),
                    self.base_shapes(*state, bounds.spec_size()),
                ),
            ),
            self.slices@.len() == 0 ==> layers@.len() == 0,
            self.slices@.len() == 0 ==> *final(cache) == *old(cache),
            self.slices@.len() > 0 ==> final(cache).key() == Some(bounds.spec_size())
                && final(cache).layer() == old(cache).resolve(
                bounds.spec_size(),
                self.base_shapes(*state, bounds.spec_size()),
            ),
    {
        let mut layers: Vec<Vec<Shape>> = Vec::new();
        if self.slices.len() == 0 {
            return layers;
        }
        let size = bounds.size();
        let base = match cache.lookup(size) {
            Some(shapes) => shapes,
            None => {
                let shapes = self.base_geometry(state, size);
                cache.store(size, &shapes);
                shapes
            },
        };
        layers.push(base);
        match cursor.position_in(bounds) {
            Some(at) => {
                let overlay = self.overlay_geometry(state, size, theme, at, direction);
                layers.push(overlay);
            },
            None => {},
        }
        layers
    }

    /// The pointer shape to show: a pointing hand inside `bounds`.
    pub fn mouse_interaction(
        &self,
        state: &PieState,
        bounds: Rectangle,
        cursor: Cursor,
    ) -> (shape: Interaction)
        ensures
            shape == if cursor.spec_position_in(bounds) is Some {
                Interaction::Pointer
            } else {
                Interaction::Idle
            },
    {
        if cursor.position_in(bounds).is_some() {
            Interaction::Pointer
        } else {
            Interaction::Idle
        }
    }
}

/// Sums of values that are not negative do not fall.
pub proof fn lemma_sums_rise(slices: Seq<PieSlice>, j: nat, k: nat)
    requires
        j <= k <= slices.len(),
        forall|i: int| 0 <= i < slices.len() ==> (#[trigger] slices[i]).value >= 0,
    ensures
        sum_values(slices, j) <= sum_values(slices, k),
    decreases k,
{
    if j < k {
        lemma_sums_rise(slices, j, (k - 1) as nat);
        assert(slices[k - 1].value >= 0);
    }
}

/// An angle exactly on the boundary between two slices belongs to the
/// later slice: a slice holds its lower bound. With the values 10, 20, 30
/// and 40 the boundaries lie at one, three, six and ten tenths of the
/// turn, and the angle at one tenth belongs to the second slice.
pub proof fn lemma_boundary_belongs_to_later_slice(slices: Seq<PieSlice>, angle: int, i: int)
    requires
        slices.len() <= usize::MAX,
        forall|j: int| 0 <= j < slices.len() ==> (#[trigger] slices[j]).value >= 0,
        0 <= i < slices.len(),
        slices[i].value > 0,
        angle * sum_values(slices, slices.len()) == sum_values(slices, i as nat) * FULL_TURN,
    ensures
        first_slice(slices, angle, 0) == Some(i as usize),
{
    lemma_first_slice_from(slices, angle, i, 0);
}

/// The search of [`lemma_boundary_belongs_to_later_slice`], begun at any
/// slice up to the one that holds the angle.
pub proof fn lemma_first_slice_from(slices: Seq<PieSlice>, angle: int, i: int, from: nat)
    requires
        slices.len() <= usize::MAX,
        forall|j: int| 0 <= j < slices.len() ==> (#[trigger] slices[j]).value >= 0,
        0 <= i < slices.len(),
        slices[i].value > 0,
        angle * sum_values(slices, slices.len()) == sum_values(slices, i as nat) * FULL_TURN,
        from <= i,
    ensures
        first_slice(slices, angle, from) == Some(i as usize),
    decreases i - from,
{
    if from < i {
        lemma_sums_rise(slices, from + 1, i as nat);
        assert(!angle_in_slice(slices, angle, from as int));
        lemma_first_slice_from(slices, angle, i, from + 1);
    } else {
        assert(sum_values(slices, (i + 1) as nat) == sum_values(slices, i as nat)
            + slices[i].value);
        assert(angle_in_slice(slices, angle, i));
    }
}

/// With values that are not negative and a positive total, the slices
/// cover the whole turn: every angle lies in some slice.
pub proof fn lemma_every_angle_is_in_a_slice(slices: Seq<PieSlice>, angle: int)
    requires
        forall|j: int| 0 <= j < slices.len() ==> (#[trigger] slices[j]).value >= 0,
        sum_values(slices, slices.len()) > 0,
        0 <= angle < FULL_TURN,
    ensures
        first_slice(slices, angle, 0) is Some,
{
    assert(sum_values(slices, 0) * FULL_TURN <= angle * sum_values(slices, slices.len()))
        by (nonlinear_arith)
        requires
            sum_values(slices, 0) == 0,
            0 <= angle,
            sum_values(slices, slices.len()) > 0,
    ;
    lemma_some_slice_from(slices, angle, 0);
}

/// The search of [`lemma_every_angle_is_in_a_slice`], begun at any slice
/// at or before the angle.
pub proof fn lemma_some_slice_from(slices: Seq<PieSlice>, angle: int, from: nat)
    requires
        forall|j: int| 0 <= j < slices.len() ==> (#[trigger] slices[j]).value >= 0,
        sum_values(slices, slices.len()) > 0,
        0 <= angle < FULL_TURN,
        from <= slices.len(),
        sum_values(slices, from) * FULL_TURN <= angle * sum_values(slices, slices.len()),
    ensures
        first_slice(slices, angle, from) is Some,
    decreases slices.len() - from,
{
    let total = sum_values(slices, slices.len());
    if from >= slices.len() {
        assert(angle * total < FULL_TURN * total) by (nonlinear_arith)
            requires
                0 <= angle < FULL_TURN,
                total > 0,
        ;
        assert(total * FULL_TURN == FULL_TURN * total) by (nonlinear_arith);
    } else if !angle_in_slice(slices, angle, from as int) {
        assert(sum_values(slices, (from + 1) as nat) == sum_values(slices, from)
            + slices[from as int].value);
        lemma_some_slice_from(slices, angle, from + 1);
    }
}

} // verus!
