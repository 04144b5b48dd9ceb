//! Partition of the terminal area into the dashboard's five panels.
//!
//! The sizes along the split axis come from the constraint solver of the
//! `ratatui` crate. The solver walks hash maps, so nothing here takes its
//! answer for a function of the request. Where the inner area has room for
//! what the constraints ask and at most one of them is a minimum, the answer
//! is fixed, and that pins the dashboard's panels. Otherwise what the solver
//! hands back is fitted into the inner area by verified code, so that the
//! bands are in order, disjoint and inside the area whatever came back.

use ratatui::layout::{Direction, Layout, Rect};
use vstd::prelude::*;

verus! {

/// A rectangle of terminal cells.
#[derive(Clone, Copy, Debug, PartialEq, Eq, Structural)]
pub struct Region {
    pub x: u16,
    pub y: u16,
    pub width: u16,
    pub height: u16,
}

/// The axis along which an area is split.
#[derive(Clone, Copy, Debug, PartialEq, Eq, Structural)]
pub enum Axis {
    Horizontal,
    Vertical,
}

/// The size asked for one band: an exact length, or a minimum that grows
/// into what is left.
#[derive(Clone, Copy, Debug, PartialEq, Eq, Structural)]
pub enum Constraint {
    Length(u16),
    Min(u16),
}

/// The five panels of the dashboard.
#[derive(Clone, Copy, Debug, PartialEq, Eq, Structural)]
pub struct DashboardLayout {
    pub logo: Region,
    pub menu: Region,
    pub agent_list: Region,
    pub detail: Region,
    pub status: Region,
}

pub open spec fn spec_clamp(v: int, lo: int, hi: int) -> int {
    if v < lo {
        lo
    } else if v > hi {
        hi
    } else {
        v
    }
}

impl Region {
    /// The near edge along an axis.
    pub open spec fn spec_start(self, axis: Axis) -> int {
        match axis {
            Axis::Horizontal => self.x as int,
            Axis::Vertical => self.y as int,
        }
    }

    /// The size along an axis.
    pub open spec fn spec_extent(self, axis: Axis) -> int {
        match axis {
            Axis::Horizontal => self.width as int,
            Axis::Vertical => self.height as int,
        }
    }

    /// The far edge along an axis, as a mathematical sum.
    pub open spec fn spec_end(self, axis: Axis) -> int {
        self.spec_start(axis) + self.spec_extent(axis)
    }

    /// The far edge along an axis, held to the largest coordinate.
    pub open spec fn spec_limit(self, axis: Axis) -> int {
        if self.spec_end(axis) > u16::MAX {
            u16::MAX as int
        } else {
            self.spec_end(axis)
        }
    }

    /// Position and size across an axis are those of `other`.
    pub open spec fn spec_same_cross(self, other: Region, axis: Axis) -> bool {
        match axis {
            Axis::Horizontal => self.y == other.y && self.height == other.height,
            Axis::Vertical => self.x == other.x && self.width == other.width,
        }
    }

    /// Every cell of `other` is a cell of `self`.
    pub open spec fn spec_contains(self, other: Region) -> bool {
        &&& self.x <= other.x
        &&& self.y <= other.y
        &&& other.x + other.width <= self.x + self.width
        &&& other.y + other.height <= self.y + self.height
    }

    /// The area that is left inside a margin on all four sides. An area too
    /// small for the margin leaves the empty region at the origin.
    pub open spec fn spec_inner(self, margin: u16) -> Region {
        let doubled = if 2 * margin > u16::MAX { u16::MAX as int } else { 2 * margin };
        if self.width < doubled || self.height < doubled {
            Region { x: 0, y: 0, width: 0, height: 0 }
        } else {
            Region {
                x: (if self.x + margin > u16::MAX { u16::MAX as int } else { self.x + margin }) as u16,
                y: (if self.y + margin > u16::MAX { u16::MAX as int } else { self.y + margin }) as u16,
                width: (self.width - doubled) as u16,
                height: (self.height - doubled) as u16,
            }
        }
    }

    pub fn new(x: u16, y: u16, width: u16, height: u16) -> (r: Region)
        ensures
            r == (Region { x, y, width, height }),
    {
        Region { x, y, width, height }
    }

    pub fn start(&self, axis: Axis) -> (v: u16)
        ensures
            v == self.spec_start(axis),
    {
        match axis {
            Axis::Horizontal => self.x,
            Axis::Vertical => self.y,
        }
    }

    pub fn extent(&self, axis: Axis) -> (v: u16)
        ensures
            v == self.spec_extent(axis),
    {
        match axis {
            Axis::Horizontal => self.width,
            Axis::Vertical => self.height,
        }
    }

    pub fn limit(&self, axis: Axis) -> (v: u16)
        ensures
            v == self.spec_limit(axis),
            self.spec_start(axis) <= v,
    {
        let start = self.start(axis);
        let extent = self.extent(axis);
        if extent > u16::MAX - start {
            u16::MAX
        } else {
            start + extent
        }
    }

    /// Shrinks the area by a margin on all four sides.
    pub fn inner(&self, margin: u16) -> (r: Region)
        ensures
            r == self.spec_inner(margin),
            r.width <= self.width,
            r.height <= self.height,
            self.width >= 2 * margin ==> r.width <= self.width - 2 * margin,
            self.height >= 2 * margin ==> r.height <= self.height - 2 * margin,
            self.width >= 2 * margin && self.height >= 2 * margin ==> self.spec_contains(r),
    {
        let doubled: u16 = if margin > u16::MAX / 2 {
            u16::MAX
        } else {
            margin * 2
        };
        if self.width < doubled || self.height < doubled {
            Region { x: 0, y: 0, width: 0, height: 0 }
        } else {
            let x: u16 = if margin > u16::MAX - self.x {
                u16::MAX
            } else {
                self.x + margin
            };
            let y: u16 = if margin > u16::MAX - self.y {
                u16::MAX
            } else {
                self.y + margin
            };
            Region { x, y, width: self.width - doubled, height: self.height - doubled }
        }
    }
}

/// One band held to what is left of the inner area behind `cursor`: its
/// edges along the axis are moved into `[cursor, limit]`, near edge first,
/// and across the axis it spans the inner area.
pub open spec fn spec_clip(raw: Region, axis: Axis, cursor: int, inner: Region) -> Region {
    let limit = inner.spec_limit(axis);
    let start = spec_clamp(raw.spec_start(axis), cursor, limit);
    let end = spec_clamp(raw.spec_end(axis), start, limit);
    match axis {
        Axis::Horizontal => Region {
            x: start as u16,
            y: inner.y,
            width: (end - start) as u16,
            height: inner.height,
        },
        Axis::Vertical => Region {
            x: inner.x,
            y: start as u16,
            width: inner.width,
            height: (end - start) as u16,
        },
    }
}

/// Where the space that is still free begins once the first `i` bands
/// have been placed.
pub open spec fn spec_cursor(raw: Seq<Region>, axis: Axis, inner: Region, i: nat) -> int
    decreases i,
{
    if i == 0 {
        inner.spec_start(axis)
    } else {
        spec_clip(
            raw[i - 1],
            axis,
            spec_cursor(raw, axis, inner, (i - 1) as nat),
            inner,
        ).spec_end(axis)
    }
}

/// The bands placed one after another, each held to what the bands before
/// it left free.
pub open spec fn spec_fit(raw: Seq<Region>, axis: Axis, inner: Region) -> Seq<Region> {
    Seq::new(
        raw.len(),
        |i: int| spec_clip(raw[i], axis, spec_cursor(raw, axis, inner, i as nat), inner),
    )
}

/// The bands lie inside the area, span it across the axis, and follow one
/// another along the axis without overlap.
pub open spec fn spec_packed(bands: Seq<Region>, axis: Axis, inner: Region) -> bool {
    &&& forall|i: int|
        0 <= i < bands.len() ==> {
            &&& (#[trigger] bands[i]).spec_same_cross(inner, axis)
            &&& inner.spec_start(axis) <= bands[i].spec_start(axis)
            &&& bands[i].spec_end(axis) <= inner.spec_limit(axis)
        }
    &&& forall|i: int, j: int|
        0 <= i < j < bands.len() ==> (#[trigger] bands[i]).spec_end(axis) <= (
        #[trigger] bands[j]).spec_start(axis)
}

/// The sizes of the bands along the axis, added up.
pub open spec fn spec_total_extent(bands: Seq<Region>, axis: Axis) -> int
    decreases bands.len(),
{
    if bands.len() == 0 {
        0
    } else {
        spec_total_extent(bands.drop_last(), axis) + bands.last().spec_extent(axis)
    }
}

/// The size that a constraint asks for: the length, or the minimum.
pub open spec fn spec_asked(c: Constraint) -> int {
    match c {
        Constraint::Length(n) => n as int,
        Constraint::Min(n) => n as int,
    }
}

/// The sizes that the constraints ask for, added up.
pub open spec fn spec_asked_total(cs: Seq<Constraint>) -> int
    decreases cs.len(),
{
    if cs.len() == 0 {
        0
    } else {
        spec_asked_total(cs.drop_last()) + spec_asked(cs.last())
    }
}

/// The inner area can hold what the constraints ask for: the sizes asked
/// add up to no more than its extent, its far edge is a coordinate, and no
/// size asked is beyond what the solver takes as a minimum.
pub open spec fn spec_has_room(cs: Seq<Constraint>, axis: Axis, inner: Region) -> bool {
    &&& spec_asked_total(cs) <= inner.spec_extent(axis)
    &&& inner.spec_end(axis) <= u16::MAX
    &&& forall|i: int| 0 <= i < cs.len() ==> spec_asked(#[trigger] cs[i]) <= i16::MAX
}

/// Each band has what its constraint asks: a fixed length exactly, a
/// minimum at least.
pub open spec fn spec_honoured(bands: Seq<Region>, cs: Seq<Constraint>, axis: Axis) -> bool {
    &&& bands.len() == cs.len()
    &&& forall|i: int|
        0 <= i < cs.len() ==> match #[trigger] cs[i] {
            Constraint::Length(n) => bands[i].spec_extent(axis) == n,
            Constraint::Min(n) => bands[i].spec_extent(axis) >= n,
        }
}

/// One of the constraints is a minimum, which takes up what is left.
pub open spec fn spec_flexible(cs: Seq<Constraint>) -> bool {
    exists|i: int| 0 <= i < cs.len() && (#[trigger] cs[i]) is Min
}

/// At most one of the constraints is a minimum, so that nothing is left
/// for the solver to share out.
pub open spec fn spec_single_flex(cs: Seq<Constraint>) -> bool {
    forall|i: int, j: int|
        0 <= i < cs.len() && 0 <= j < cs.len() && (#[trigger] cs[i]) is Min && (#[trigger] cs[j]) is Min
            ==> i == j
}

/// The bands take up the whole extent of the area.
pub open spec fn spec_filled(bands: Seq<Region>, axis: Axis, inner: Region) -> bool {
    spec_total_extent(bands, axis) == inner.spec_extent(axis)
}

/// The free space never begins before the inner area, never ends behind
/// it, and never moves backwards.
pub proof fn lemma_cursor_bounds(raw: Seq<Region>, axis: Axis, inner: Region, i: nat)
    ensures
        inner.spec_start(axis) <= spec_cursor(raw, axis, inner, i) <= inner.spec_limit(axis),
        i > 0 ==> spec_cursor(raw, axis, inner, (i - 1) as nat) <= spec_cursor(raw, axis, inner, i),
    decreases i,
{
    if i > 0 {
        lemma_cursor_bounds(raw, axis, inner, (i - 1) as nat);
    }
}

proof fn lemma_cursor_monotonic(raw: Seq<Region>, axis: Axis, inner: Region, i: nat, j: nat)
    requires
        i <= j,
    ensures
        spec_cursor(raw, axis, inner, i) <= spec_cursor(raw, axis, inner, j),
    decreases j,
{
    if i < j {
        lemma_cursor_bounds(raw, axis, inner, j);
        lemma_cursor_monotonic(raw, axis, inner, i, (j - 1) as nat);
    }
}

/// Whatever bands go in, the fitted bands are packed into the inner area.
pub proof fn lemma_fit_packed(raw: Seq<Region>, axis: Axis, inner: Region)
    ensures
        spec_packed(spec_fit(raw, axis, inner), axis, inner),
{
    let out = spec_fit(raw, axis, inner);
    assert forall|i: int| 0 <= i < out.len() implies {
        &&& (#[trigger] out[i]).spec_same_cross(inner, axis)
        &&& inner.spec_start(axis) <= out[i].spec_start(axis)
        &&& out[i].spec_end(axis) <= inner.spec_limit(axis)
    } by {
        lemma_cursor_bounds(raw, axis, inner, i as nat);
    }
    assert forall|i: int, j: int| 0 <= i < j < out.len() implies (#[trigger] out[i]).spec_end(axis)
        <= (#[trigger] out[j]).spec_start(axis) by {
        lemma_cursor_bounds(raw, axis, inner, i as nat);
        lemma_cursor_bounds(raw, axis, inner, j as nat);
        lemma_cursor_monotonic(raw, axis, inner, (i + 1) as nat, j as nat);
        assert(out[i].spec_end(axis) == spec_cursor(raw, axis, inner, (i + 1) as nat));
    }
}

/// Packed bands take up no more than the area they are packed into.
pub proof fn lemma_packed_total(bands: Seq<Region>, axis: Axis, inner: Region)
    requires
        spec_packed(bands, axis, inner),
    ensures
        spec_total_extent(bands, axis) <= inner.spec_extent(axis),
        bands.len() > 0 ==> spec_total_extent(bands, axis) <= bands.last().spec_end(axis)
            - inner.spec_start(axis),
        0 <= spec_total_extent(bands, axis),
    decreases bands.len(),
{
    if bands.len() > 0 {
        let front = bands.drop_last();
        assert forall|i: int| 0 <= i < front.len() implies front[i] == bands[i] by {}
        assert(spec_packed(front, axis, inner));
        lemma_packed_total(front, axis, inner);
        if front.len() > 0 {
            assert(front.last() == bands[front.len() - 1]);
            assert(bands[front.len() - 1].spec_end(axis) <= bands[bands.len() - 1].spec_start(axis));
        }
        assert(bands.last() == bands[bands.len() - 1]);
    }
}

proof fn lemma_cursor_of_packed(raw: Seq<Region>, axis: Axis, inner: Region, i: nat)
    requires
        spec_packed(raw, axis, inner),
        i < raw.len(),
    ensures
        spec_cursor(raw, axis, inner, i) <= raw[i as int].spec_start(axis),
        spec_clip(raw[i as int], axis, spec_cursor(raw, axis, inner, i), inner) == raw[i as int],
    decreases i,
{
    if i > 0 {
        lemma_cursor_of_packed(raw, axis, inner, (i - 1) as nat);
        assert(raw[i - 1].spec_end(axis) <= raw[i as int].spec_start(axis));
    }
    assert(raw[i as int].spec_same_cross(inner, axis));
}

/// Bands that are already packed into the inner area pass through the
/// fitting unchanged.
pub proof fn lemma_fit_keeps_packed(raw: Seq<Region>, axis: Axis, inner: Region)
    requires
        spec_packed(raw, axis, inner),
    ensures
        spec_fit(raw, axis, inner) == raw,
{
    let out = spec_fit(raw, axis, inner);
    assert forall|i: int| 0 <= i < raw.len() implies out[i] == raw[i] by {
        lemma_cursor_of_packed(raw, axis, inner, i as nat);
    }
    assert(out =~= raw);
}

/// However small or large the outer area, and whatever bands the solver
/// returns for it, the bands fitted into the area within the margin lie
/// inside it, do not overlap, and their sizes along the axis add up to no
/// more than the outer size less the margin on both sides.
pub proof fn lemma_fit_within_margin(area: Region, axis: Axis, margin: u16, raw: Seq<Region>)
    ensures
        spec_fit(raw, axis, area.spec_inner(margin)).len() == raw.len(),
        spec_packed(spec_fit(raw, axis, area.spec_inner(margin)), axis, area.spec_inner(margin)),
        0 <= spec_total_extent(spec_fit(raw, axis, area.spec_inner(margin)), axis)
            <= area.spec_inner(margin).spec_extent(axis) <= area.spec_extent(axis),
        area.spec_extent(axis) >= 2 * margin ==> spec_total_extent(
            spec_fit(raw, axis, area.spec_inner(margin)),
            axis,
        ) <= area.spec_extent(axis) - 2 * margin,
{
    let inner = area.spec_inner(margin);
    lemma_fit_packed(raw, axis, inner);
    lemma_packed_total(spec_fit(raw, axis, inner), axis, inner);
}

fn clip(raw: Region, axis: Axis, cursor: u16, inner: Region) -> (out: Region)
    requires
        inner.spec_start(axis) <= cursor <= inner.spec_limit(axis),
    ensures
        out == spec_clip(raw, axis, cursor as int, inner),
        out.spec_end(axis) <= inner.spec_limit(axis),
        cursor <= out.spec_start(axis),
{
    let limit = inner.limit(axis);
    let raw_start = raw.start(axis);
    let raw_end: u32 = raw_start as u32 + raw.extent(axis) as u32;
    let start: u16 = if raw_start < cursor {
        cursor
    } else if raw_start > limit {
        limit
    } else {
        raw_start
    };
    let end: u16 = if raw_end < start as u32 {
        start
    } else if raw_end > limit as u32 {
        limit
    } else {
        raw_end as u16
    };
    match axis {
        Axis::Horizontal => Region { x: start, y: inner.y, width: end - start, height: inner.height },
        Axis::Vertical => Region { x: inner.x, y: start, width: inner.width, height: end - start },
    }
}

/// Fits a list of bands into an area: each band is moved and cut so that
/// it starts no earlier than the band before it ends and ends no later
/// than the area. Bands that are already packed come back unchanged.
pub fn fit(raw: &Vec<Region>, axis: Axis, inner: Region) -> (out: Vec<Region>)
    ensures
        out@ == spec_fit(raw@, axis, inner),
        out@.len() == raw@.len(),
        spec_packed(out@, axis, inner),
        0 <= spec_total_extent(out@, axis) <= inner.spec_extent(axis),
        spec_packed(raw@, axis, inner) ==> out@ == raw@,
{
    let mut out: Vec<Region> = Vec::new();
    let mut cursor = inner.start(axis);
    let mut i: usize = 0;
    while i < raw.len()
        invariant
            i <= raw.len(),
            out@.len() == i,
            cursor == spec_cursor(raw@, axis, inner, i as nat),
            inner.spec_start(axis) <= cursor <= inner.spec_limit(axis),
            forall|k: int|
                0 <= k < i ==> out@[k] == spec_clip(
                    raw@[k],
                    axis,
                    spec_cursor(raw@, axis, inner, k as nat),
                    inner,
                ),
        decreases raw.len() - i,
    {
        let band = clip(raw[i], axis, cursor, inner);
        cursor = match axis {
            Axis::Horizontal => band.x + band.width,
            Axis::Vertical => band.y + band.height,
        };
        out.push(band);
        i = i + 1;
    }
    proof {
            assert(out@ =~= spec_fit(raw@, axis, inner));
        lemma_fit_packed(raw@, axis, inner);
        lemma_packed_total(out@, axis, inner);
        if spec_packed(raw@, axis, inner) {
            lemma_fit_keeps_packed(raw@, axis, inner);
        }
    }
    out
}

/// Calls `ratatui::layout::Layout::split` on a layout built from
/// `Layout::default()` (flex `Start`, no spacing) with the given direction,
/// margin and constraints.
///
/// The solver's answer may vary from call to call, so the result has no
/// name. The contract claims of every answer:
/// - one region for each constraint, as the pairing of the solver's
///   variables shows;
/// - where the inner area has room for what is asked and at most one
///   constraint is a minimum: that the bands are packed into it and that
///   each has what `Constraint::Length` ("the element size is set to the
///   specified amount") and `Constraint::Min` ("at least the specified
///   amount") document, and, if there is a minimum, that the bands fill
///   the area.
///
/// Only staying inside the area is a required constraint of the solver.
/// Order, fixed lengths, minimums and growth are weights in one sum that
/// the solver minimises. With room and at most one minimum, one answer
/// meets order, lengths and the minimum at no cost; all its edges are whole
/// numbers, so rounding leaves them alone; and the one band that grows is
/// weighted ten times the space behind the last band, so it takes what is
/// left. With several minimums the solver shares the rest out among them
/// under many more weights, and nothing is claimed. A minimum is handed on
/// as an `i16`, hence the bound in `spec_has_room`.
///
/// The required constraints of the solver can always be met, so the call
/// does not fail.
#[verifier::external_body]
fn solve(area: Region, axis: Axis, margin: u16, constraints: &Vec<Constraint>) -> (raw: Vec<Region>)
    ensures
        raw@.len() == constraints@.len(),
        spec_has_room(constraints@, axis, area.spec_inner(margin)) && spec_single_flex(constraints@)
            ==> spec_packed(raw@, axis, area.spec_inner(margin)) && spec_honoured(
            raw@,
            constraints@,
            axis,
        ),
        spec_has_room(constraints@, axis, area.spec_inner(margin)) && spec_single_flex(constraints@)
            && spec_flexible(constraints@) ==> spec_filled(raw@, axis, area.spec_inner(margin)),
{
    let direction = match axis {
        Axis::Horizontal => Direction::Horizontal,
        Axis::Vertical => Direction::Vertical,
    };
    let wanted = constraints.iter().map(|c| match c {
        Constraint::Length(n) => ratatui::layout::Constraint::Length(*n),
        Constraint::Min(n) => ratatui::layout::Constraint::Min(*n),
    });
    let layout = Layout::default().direction(direction).margin(margin).constraints(wanted);
    let rect = Rect { x: area.x, y: area.y, width: area.width, height: area.height };
    layout.split(rect).iter().map(|r| Region::new(r.x, r.y, r.width, r.height)).collect()
}

/// Splits an area along an axis, inside a margin on all four sides, into
/// one band for each constraint. The bands are packed into the inner area
/// whatever its size. Where it has room for what is asked and at most one
/// constraint is a minimum, each band has its fixed length, or at least its
/// minimum, and the band with the minimum takes what is left.
///
/// With several minimums the solver shares what is left among them. Those
/// shares, and every size in an area without room, are the solver's answer
/// and are not stated here: packing and the bound on the sum hold of them
/// all the same.
pub fn split(area: Region, axis: Axis, margin: u16, constraints: &Vec<Constraint>) -> (out: Vec<
    Region,
>)
    ensures
        out@.len() == constraints@.len(),
        spec_packed(out@, axis, area.spec_inner(margin)),
        0 <= spec_total_extent(out@, axis) <= area.spec_inner(margin).spec_extent(axis)
            <= area.spec_extent(axis),
        area.spec_extent(axis) >= 2 * margin ==> spec_total_extent(out@, axis) <= area.spec_extent(
            axis,
        ) - 2 * margin,
        spec_has_room(constraints@, axis, area.spec_inner(margin)) && spec_single_flex(constraints@)
            ==> spec_honoured(out@, constraints@, axis),
        spec_has_room(constraints@, axis, area.spec_inner(margin)) && spec_single_flex(constraints@)
            && spec_flexible(constraints@) ==> spec_filled(out@, axis, area.spec_inner(margin)),
{
    let raw = solve(area, axis, margin, constraints);
    fit(&raw, axis, area.inner(margin))
}

/// The three rows of the dashboard: a header of 3 lines, a body of at least
/// 10 that takes what is left, and a footer of 7.
pub open spec fn spec_rows() -> Seq<Constraint> {
    seq![Constraint::Length(3), Constraint::Min(10), Constraint::Length(7)]
}

/// The header's columns: 20 cells for the logo, the rest for the menu,
/// which is at least 10.
pub open spec fn spec_header_columns() -> Seq<Constraint> {
    seq![Constraint::Length(20), Constraint::Min(10)]
}

/// The body's columns: 30 cells for the agent list, the rest for the data
/// sheet, which is at least 10.
pub open spec fn spec_body_columns() -> Seq<Constraint> {
    seq![Constraint::Length(30), Constraint::Min(10)]
}

/// The area has room for every panel: 22 lines and 42 columns, and its far
/// edges are coordinates.
pub open spec fn spec_roomy(area: Region) -> bool {
    &&& area.width >= 42
    &&& area.height >= 22
    &&& area.x + area.width <= u16::MAX
    &&& area.y + area.height <= u16::MAX
}

/// The dashboard in an area with room for it: inside a margin of one cell,
/// a header of 3 lines and a status row of 7 with the body between them;
/// the logo 20 columns wide, the agent list 30, the menu and the data sheet
/// as wide as what is left.
pub open spec fn spec_roomy_layout(area: Region) -> DashboardLayout {
    DashboardLayout {
        logo: Region { x: (area.x + 1) as u16, y: (area.y + 1) as u16, width: 20, height: 3 },
        menu: Region {
            x: (area.x + 21) as u16,
            y: (area.y + 1) as u16,
            width: (area.width - 22) as u16,
            height: 3,
        },
        agent_list: Region {
            x: (area.x + 1) as u16,
            y: (area.y + 4) as u16,
            width: 30,
            height: (area.height - 12) as u16,
        },
        detail: Region {
            x: (area.x + 31) as u16,
            y: (area.y + 4) as u16,
            width: (area.width - 32) as u16,
            height: (area.height - 12) as u16,
        },
        status: Region {
            x: (area.x + 1) as u16,
            y: (area.y + area.height - 8) as u16,
            width: (area.width - 2) as u16,
            height: 7,
        },
    }
}

/// The margin around the dashboard's rows.
pub open spec fn spec_outer_margin() -> u16 {
    1
}

/// The row that a panel lies in: as wide as the area inside the margin,
/// as high as the panel.
pub open spec fn spec_row_of(panel: Region, inner: Region) -> Region {
    Region { x: inner.x, y: panel.y, width: inner.width, height: panel.height }
}

impl DashboardLayout {
    /// All five panels lie inside `area`.
    pub open spec fn spec_within(self, area: Region) -> bool {
        &&& area.spec_contains(self.logo)
        &&& area.spec_contains(self.menu)
        &&& area.spec_contains(self.agent_list)
        &&& area.spec_contains(self.detail)
        &&& area.spec_contains(self.status)
    }

    /// The panels make the dashboard for a terminal area: header, body
    /// and status row are packed from top to bottom into the area inside
    /// the margin, logo and menu are packed from left to right into the
    /// header, agent list and data sheet into the body.
    pub open spec fn spec_arranged(self, area: Region) -> bool {
        let inner = area.spec_inner(spec_outer_margin());
        let header = spec_row_of(self.logo, inner);
        let body = spec_row_of(self.agent_list, inner);
        &&& spec_packed(seq![header, body, self.status], Axis::Vertical, inner)
        &&& spec_packed(seq![self.logo, self.menu], Axis::Horizontal, header)
        &&& spec_packed(seq![self.agent_list, self.detail], Axis::Horizontal, body)
    }

    /// Every row and column that has room has its size and place: the
    /// rows where the area is 22 lines high, the header's columns where it
    /// is 32 columns wide, the body's columns where it is 42 wide.
    pub open spec fn spec_pinned(self, area: Region) -> bool {
        &&& area.width >= 2 && area.height >= 22 && area.y + area.height <= u16::MAX ==> {
            &&& self.logo.height == 3
            &&& self.agent_list.height == area.height - 12
            &&& self.status.height == 7
            &&& self.logo.y == area.y + 1
            &&& self.agent_list.y == area.y + 4
            &&& self.status.y == area.y + area.height - 8
        }
        &&& area.width >= 32 && area.height >= 2 && area.x + area.width <= u16::MAX ==> {
            &&& self.logo.width == 20
            &&& self.menu.width == area.width - 22
            &&& self.logo.x == area.x + 1
            &&& self.menu.x == area.x + 21
        }
        &&& area.width >= 42 && area.height >= 2 && area.x + area.width <= u16::MAX ==> {
            &&& self.agent_list.width == 30
            &&& self.detail.width == area.width - 32
            &&& self.agent_list.x == area.x + 1
            &&& self.detail.x == area.x + 31
        }
    }

    /// The rows follow one another from top to bottom, and in the first
    /// two rows the left panel ends where, or before, the right one begins.
    pub open spec fn spec_ordered(self) -> bool {
        &&& self.logo.y == self.menu.y && self.logo.height == self.menu.height
        &&& self.agent_list.y == self.detail.y && self.agent_list.height == self.detail.height
        &&& self.logo.y + self.logo.height <= self.agent_list.y
        &&& self.agent_list.y + self.agent_list.height <= self.status.y
        &&& self.logo.x + self.logo.width <= self.menu.x
        &&& self.agent_list.x + self.agent_list.width <= self.detail.x
    }
}

/// What being packed means for one band and for a pair of bands.
pub proof fn lemma_packed_band(bands: Seq<Region>, axis: Axis, inner: Region, i: int, j: int)
    requires
        spec_packed(bands, axis, inner),
        0 <= i <= j < bands.len(),
    ensures
        inner.spec_contains(bands[i]),
        bands[i].spec_same_cross(inner, axis),
        i < j ==> bands[i].spec_end(axis) <= bands[j].spec_start(axis),
{
}

proof fn lemma_total_of_three(bands: Seq<Region>, axis: Axis)
    requires
        bands.len() == 3,
    ensures
        spec_total_extent(bands, axis) == bands[0].spec_extent(axis) + bands[1].spec_extent(axis)
            + bands[2].spec_extent(axis),
{
    let b2 = bands.drop_last();
    let b1 = b2.drop_last();
    let b0 = b1.drop_last();
    assert(spec_total_extent(b0, axis) == 0);
    assert(spec_total_extent(b1, axis) == bands[0].spec_extent(axis));
    assert(spec_total_extent(b2, axis) == bands[0].spec_extent(axis) + bands[1].spec_extent(axis));
}

proof fn lemma_total_of_two(bands: Seq<Region>, axis: Axis)
    requires
        bands.len() == 2,
    ensures
        spec_total_extent(bands, axis) == bands[0].spec_extent(axis) + bands[1].spec_extent(axis),
{
    let front = bands.drop_last();
    assert(spec_total_extent(front.drop_last(), axis) == 0);
    assert(spec_total_extent(front, axis) == bands[0].spec_extent(axis));
}

/// Three bands for a fixed length, a minimum and a fixed length, in an area
/// with room: the first and the last have their lengths, the middle one has
/// the rest, and they lie end to end from edge to edge.
proof fn lemma_rows_pinned(bands: Seq<Region>, inner: Region, axis: Axis, first: u16, least: u16, last: u16)
    requires
        bands.len() == 3,
        first + least + last <= inner.spec_extent(axis),
        inner.spec_end(axis) <= u16::MAX,
        spec_packed(bands, axis, inner),
        spec_honoured(
            bands,
            seq![Constraint::Length(first), Constraint::Min(least), Constraint::Length(last)],
            axis,
        ),
        spec_filled(bands, axis, inner),
    ensures
        bands[0].spec_start(axis) == inner.spec_start(axis),
        bands[0].spec_extent(axis) == first,
        bands[1].spec_start(axis) == inner.spec_start(axis) + first,
        bands[1].spec_extent(axis) == inner.spec_extent(axis) - first - last,
        bands[2].spec_start(axis) == inner.spec_end(axis) - last,
        bands[2].spec_extent(axis) == last,
{
    let cs = seq![Constraint::Length(first), Constraint::Min(least), Constraint::Length(last)];
    assert(cs[0] == Constraint::Length(first));
    assert(cs[1] == Constraint::Min(least));
    assert(cs[2] == Constraint::Length(last));
    lemma_total_of_three(bands, axis);
    lemma_packed_band(bands, axis, inner, 0, 1);
    lemma_packed_band(bands, axis, inner, 1, 2);
    lemma_packed_band(bands, axis, inner, 2, 2);
}

/// Two bands for a fixed length and a minimum, in an area with room: the
/// first has its length, the second the rest, end to end from edge to edge.
proof fn lemma_columns_pinned(bands: Seq<Region>, inner: Region, axis: Axis, first: u16, least: u16)
    requires
        bands.len() == 2,
        first + least <= inner.spec_extent(axis),
        inner.spec_end(axis) <= u16::MAX,
        spec_packed(bands, axis, inner),
        spec_honoured(bands, seq![Constraint::Length(first), Constraint::Min(least)], axis),
        spec_filled(bands, axis, inner),
    ensures
        bands[0].spec_start(axis) == inner.spec_start(axis),
        bands[0].spec_extent(axis) == first,
        bands[1].spec_start(axis) == inner.spec_start(axis) + first,
        bands[1].spec_extent(axis) == inner.spec_extent(axis) - first,
{
    let cs = seq![Constraint::Length(first), Constraint::Min(least)];
    assert(cs[0] == Constraint::Length(first));
    assert(cs[1] == Constraint::Min(least));
    lemma_total_of_two(bands, axis);
    lemma_packed_band(bands, axis, inner, 0, 1);
    lemma_packed_band(bands, axis, inner, 1, 1);
}

proof fn lemma_room_for_three(inner: Region, axis: Axis, first: u16, least: u16, last: u16)
    requires
        first + least + last <= inner.spec_extent(axis),
        inner.spec_end(axis) <= u16::MAX,
        first <= i16::MAX && least <= i16::MAX && last <= i16::MAX,
    ensures
        spec_has_room(
            seq![Constraint::Length(first), Constraint::Min(least), Constraint::Length(last)],
            axis,
            inner,
        ),
        spec_flexible(
            seq![Constraint::Length(first), Constraint::Min(least), Constraint::Length(last)],
        ),
        spec_single_flex(
            seq![Constraint::Length(first), Constraint::Min(least), Constraint::Length(last)],
        ),
{
    let cs = seq![Constraint::Length(first), Constraint::Min(least), Constraint::Length(last)];
    assert(cs[0] is Length && cs[2] is Length);
    let c2 = cs.drop_last();
    let c1 = c2.drop_last();
    assert(spec_asked_total(c1.drop_last()) == 0);
    assert(spec_asked_total(c1) == first);
    assert(spec_asked_total(c2) == first + least);
    assert(cs[1] is Min);
}

proof fn lemma_room_for_two(inner: Region, axis: Axis, first: u16, least: u16)
    requires
        first + least <= inner.spec_extent(axis),
        inner.spec_end(axis) <= u16::MAX,
        first <= i16::MAX && least <= i16::MAX,
    ensures
        spec_has_room(seq![Constraint::Length(first), Constraint::Min(least)], axis, inner),
        spec_flexible(seq![Constraint::Length(first), Constraint::Min(least)]),
        spec_single_flex(seq![Constraint::Length(first), Constraint::Min(least)]),
{
    let cs = seq![Constraint::Length(first), Constraint::Min(least)];
    assert(cs[0] is Length);
    let c1 = cs.drop_last();
    assert(spec_asked_total(c1.drop_last()) == 0);
    assert(spec_asked_total(c1) == first);
    assert(cs[1] is Min);
}

/// In an area with room, the dashboard's panels have what the constraints
/// of its rows and columns ask: 3 lines, at least 10, and 7; 20 columns and
/// at least 10; 30 columns and at least 10.
pub proof fn lemma_roomy_layout_honours(area: Region)
    requires
        spec_roomy(area),
    ensures
        spec_honoured(
            seq![
                spec_roomy_layout(area).logo,
                spec_roomy_layout(area).agent_list,
                spec_roomy_layout(area).status,
            ],
            spec_rows(),
            Axis::Vertical,
        ),
        spec_honoured(
            seq![spec_roomy_layout(area).logo, spec_roomy_layout(area).menu],
            spec_header_columns(),
            Axis::Horizontal,
        ),
        spec_honoured(
            seq![spec_roomy_layout(area).agent_list, spec_roomy_layout(area).detail],
            spec_body_columns(),
            Axis::Horizontal,
        ),
        spec_roomy_layout(area).spec_within(area),
{
}

fn rows() -> (cs: Vec<Constraint>)
    ensures
        cs@ == spec_rows(),
{
    let mut cs: Vec<Constraint> = Vec::new();
    cs.push(Constraint::Length(3));
    cs.push(Constraint::Min(10));
    cs.push(Constraint::Length(7));
    assert(cs@ =~= spec_rows());
    cs
}

fn columns(first: u16) -> (cs: Vec<Constraint>)
    ensures
        cs@ == seq![Constraint::Length(first), Constraint::Min(10)],
        first == 20 ==> cs@ == spec_header_columns(),
        first == 30 ==> cs@ == spec_body_columns(),
{
    let mut cs: Vec<Constraint> = Vec::new();
    cs.push(Constraint::Length(first));
    cs.push(Constraint::Min(10));
    assert(cs@ =~= seq![Constraint::Length(first), Constraint::Min(10)]);
    cs
}

/// Computes the five panels for a terminal area of any size. In an area
/// with room for them the panels are exactly those of `spec_roomy_layout`.
/// In a smaller one the rows and columns that still have room keep their
/// sizes, and no panel ever lies outside the area.
pub fn dashboard_layout(area: Region) -> (layout: DashboardLayout)
    ensures
        spec_roomy(area) ==> layout == spec_roomy_layout(area),
        layout.spec_pinned(area),
        layout.spec_arranged(area),
        layout.spec_within(area.spec_inner(spec_outer_margin())),
        area.width >= 2 && area.height >= 2 ==> layout.spec_within(area),
        layout.spec_ordered(),
        layout.logo.height + layout.agent_list.height + layout.status.height
            <= area.spec_inner(spec_outer_margin()).height,
        area.height >= 2 ==> layout.logo.height + layout.agent_list.height + layout.status.height
            <= area.height - 2,
{
    let inner = area.inner(1);
    let rows = split(area, Axis::Vertical, 1, &rows());
    let header = split(rows[0], Axis::Horizontal, 0, &columns(20));
    let body = split(rows[1], Axis::Horizontal, 0, &columns(30));
    proof {
        assert(rows@[0].spec_inner(0) == rows@[0]);
        assert(rows@[1].spec_inner(0) == rows@[1]);
        lemma_total_of_three(rows@, Axis::Vertical);
        lemma_packed_band(rows@, Axis::Vertical, inner, 0, 1);
        lemma_packed_band(rows@, Axis::Vertical, inner, 1, 2);
        lemma_packed_band(rows@, Axis::Vertical, inner, 2, 2);
        lemma_packed_band(header@, Axis::Horizontal, rows@[0], 0, 1);
        lemma_packed_band(header@, Axis::Horizontal, rows@[0], 1, 1);
        lemma_packed_band(body@, Axis::Horizontal, rows@[1], 0, 1);
        lemma_packed_band(body@, Axis::Horizontal, rows@[1], 1, 1);
        assert(rows@ =~= seq![rows@[0], rows@[1], rows@[2]]);
        assert(header@ =~= seq![header@[0], header@[1]]);
        assert(body@ =~= seq![body@[0], body@[1]]);
        assert(spec_row_of(header@[0], inner) == rows@[0]);
        assert(spec_row_of(body@[0], inner) == rows@[1]);
        if area.width >= 2 && area.height >= 22 && area.y + area.height <= u16::MAX {
            lemma_room_for_three(inner, Axis::Vertical, 3, 10, 7);
            lemma_rows_pinned(rows@, inner, Axis::Vertical, 3, 10, 7);
        }
        if area.width >= 32 && area.height >= 2 && area.x + area.width <= u16::MAX {
            lemma_room_for_two(rows@[0], Axis::Horizontal, 20, 10);
            lemma_columns_pinned(header@, rows@[0], Axis::Horizontal, 20, 10);
        }
        if area.width >= 42 && area.height >= 2 && area.x + area.width <= u16::MAX {
            lemma_room_for_two(rows@[1], Axis::Horizontal, 30, 10);
            lemma_columns_pinned(body@, rows@[1], Axis::Horizontal, 30, 10);
        }
    }
    DashboardLayout {
        logo: header[0],
        menu: header[1],
        agent_list: body[0],
        detail: body[1],
        status: rows[2],
    }
}

} // verus!
