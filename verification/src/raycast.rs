use vstd::prelude::*;
use crate::vector::Vec2;
use crate::shape::Collision;
use crate::aabb::{low2, high2};

verus! {

/// The point at which a ray crosses the line of one edge of a box, as the
/// ratio `offset / rate` in units of the ray: 0 is the ray's origin, 1 its end
/// point. `offset` is the distance from the origin to the line and `rate` the
/// ray's advance toward it, both along the axis across the edge, both doubled
/// and with the sign chosen so that `rate` is not negative.
///
/// A ray that runs along the edge has rate 0. It never reaches the line, and
/// the crossing is infinitely far ahead or behind, by the sign of `offset`. If
/// the origin lies on the line as well, the crossing is indeterminate: it is
/// neither before nor after any other.
pub struct Crossing {
    pub side: Collision,
    pub offset: int,
    pub rate: int,
}

impl Crossing {
    /// The crossing of the line at `offset`, for a ray that advances by
    /// `rate`.
    pub open spec fn toward(side: Collision, offset: int, rate: int) -> Crossing {
        if rate < 0 {
            Crossing { side, offset: -offset, rate: -rate }
        } else {
            Crossing { side, offset, rate }
        }
    }

    /// The ray runs along the line, from a point on it.
    pub open spec fn indeterminate(self) -> bool {
        self.offset == 0 && self.rate == 0
    }

    /// `self` comes strictly before `other` along the ray.
    ///
    /// An infinite crossing is before every other but one infinitely far
    /// behind, or after every other but one infinitely far ahead. Two finite
    /// crossings are ordered as their ratios are: by their offsets where they
    /// share a rate, as the two edges across one axis do.
    pub open spec fn lt(self, other: Crossing) -> bool {
        if self.indeterminate() || other.indeterminate() {
            false
        } else if self.rate == 0 {
            self.offset < 0 && !(other.rate == 0 && other.offset < 0)
        } else if other.rate == 0 {
            other.offset > 0
        } else if self.rate == other.rate {
            self.offset < other.offset
        } else {
            self.offset * other.rate < other.offset * self.rate
        }
    }

    /// The crossing lies strictly behind the ray's origin.
    pub open spec fn before_origin(self) -> bool {
        !self.indeterminate() && self.offset < 0
    }

    /// The crossing lies at the ray's origin or ahead of it.
    pub open spec fn from_origin_on(self) -> bool {
        !self.indeterminate() && self.offset >= 0
    }

    /// The crossing lies strictly beyond the ray's end point.
    pub open spec fn beyond_end(self) -> bool {
        !self.indeterminate() && self.offset > self.rate
    }

    /// The crossing lies at the ray's end point or beyond it.
    pub open spec fn from_end_on(self) -> bool {
        !self.indeterminate() && self.offset >= self.rate
    }

    /// The earlier of two crossings; the second unless the first is strictly
    /// earlier.
    pub open spec fn earlier(self, other: Crossing) -> Crossing {
        if self.lt(other) {
            self
        } else {
            other
        }
    }

    /// The later of two crossings; the second unless the first is strictly
    /// later.
    pub open spec fn later(self, other: Crossing) -> Crossing {
        if other.lt(self) {
            self
        } else {
            other
        }
    }
}

/// Two crossings at a finite distance are ordered as the ratios of their
/// offsets to their rates.
pub proof fn lemma_finite_order_is_ratio_order(a: Crossing, b: Crossing)
    requires
        a.rate > 0,
        b.rate > 0,
    ensures
        a.lt(b) <==> a.offset * b.rate < b.offset * a.rate,
{
    if a.rate == b.rate {
        assert(a.offset < b.offset <==> a.offset * b.rate < b.offset * a.rate) by (nonlinear_arith)
            requires
                a.rate == b.rate,
                a.rate > 0,
        ;
    }
}

/// The crossing of the line through the box's left edge.
pub open spec fn left_crossing(ray_pos: Vec2, ray: Vec2, box_pos: Vec2, box_size: Vec2) -> Crossing {
    Crossing::toward(
        Collision::Left,
        low2(box_pos.x as int, box_size.x as int) - 2 * ray_pos.x,
        2 * ray.x,
    )
}

/// The crossing of the line through the box's right edge.
pub open spec fn right_crossing(ray_pos: Vec2, ray: Vec2, box_pos: Vec2, box_size: Vec2) -> Crossing {
    Crossing::toward(
        Collision::Right,
        high2(box_pos.x as int, box_size.x as int) - 2 * ray_pos.x,
        2 * ray.x,
    )
}

/// The crossing of the line through the box's top edge, the one with the
/// greater `y`.
pub open spec fn top_crossing(ray_pos: Vec2, ray: Vec2, box_pos: Vec2, box_size: Vec2) -> Crossing {
    Crossing::toward(
        Collision::Top,
        high2(box_pos.y as int, box_size.y as int) - 2 * ray_pos.y,
        2 * ray.y,
    )
}

/// The crossing of the line through the box's bottom edge.
pub open spec fn bottom_crossing(ray_pos: Vec2, ray: Vec2, box_pos: Vec2, box_size: Vec2) -> Crossing {
    Crossing::toward(
        Collision::Bottom,
        low2(box_pos.y as int, box_size.y as int) - 2 * ray_pos.y,
        2 * ray.y,
    )
}

/// Where the ray enters the box, if it meets it: the later of the two
/// crossings that come first on their axis.
pub open spec fn entry_crossing(ray_pos: Vec2, ray: Vec2, box_pos: Vec2, box_size: Vec2) -> Crossing {
    let left = left_crossing(ray_pos, ray, box_pos, box_size);
    let right = right_crossing(ray_pos, ray, box_pos, box_size);
    let top = top_crossing(ray_pos, ray, box_pos, box_size);
    let bottom = bottom_crossing(ray_pos, ray, box_pos, box_size);
    left.earlier(right).later(top.earlier(bottom))
}

/// Where the ray leaves the box, if it meets it: the earlier of the two
/// crossings that come last on their axis.
pub open spec fn exit_crossing(ray_pos: Vec2, ray: Vec2, box_pos: Vec2, box_size: Vec2) -> Crossing {
    let left = left_crossing(ray_pos, ray, box_pos, box_size);
    let right = right_crossing(ray_pos, ray, box_pos, box_size);
    let top = top_crossing(ray_pos, ray, box_pos, box_size);
    let bottom = bottom_crossing(ray_pos, ray, box_pos, box_size);
    left.later(right).earlier(top.later(bottom))
}

/// What a ray with the given entry and exit hits.
///
/// Nothing, if it leaves before it enters (it passes the box by), if the box
/// lies wholly behind it, if it starts and ends inside the box, or if it ends
/// before the box. Else the face of entry where the ray starts outside, and the
/// face of exit where it starts inside.
pub open spec fn resolve_crossings(entry: Crossing, exit: Crossing) -> Option<Collision> {
    if exit.lt(entry) {
        None
    } else if entry.before_origin() && exit.before_origin() {
        None
    } else if entry.before_origin() && exit.beyond_end() {
        None
    } else if entry.from_origin_on() && entry.from_end_on() {
        None
    } else if entry.from_origin_on() {
        Some(entry.side)
    } else {
        Some(exit.side)
    }
}

/// The face of the box (center `box_pos`, full extent `box_size`) that the
/// ray from `ray_pos` to `ray_pos + ray` hits, by the slab method.
pub open spec fn ray_side(ray_pos: Vec2, ray: Vec2, box_pos: Vec2, box_size: Vec2) -> Option<Collision> {
    resolve_crossings(
        entry_crossing(ray_pos, ray, box_pos, box_size),
        exit_crossing(ray_pos, ray, box_pos, box_size),
    )
}

/// None of the four crossings is indeterminate: the ray does not run along
/// the line of an edge.
pub open spec fn crossings_determinate(ray_pos: Vec2, ray: Vec2, box_pos: Vec2, box_size: Vec2) -> bool {
    &&& !left_crossing(ray_pos, ray, box_pos, box_size).indeterminate()
    &&& !right_crossing(ray_pos, ray, box_pos, box_size).indeterminate()
    &&& !top_crossing(ray_pos, ray, box_pos, box_size).indeterminate()
    &&& !bottom_crossing(ray_pos, ray, box_pos, box_size).indeterminate()
}

/// Both `low` and `high`, doubled edges of the box along one axis, lie
/// strictly beyond both ends of a segment that starts at `start` and advances
/// by `advance` along that axis, on the same side of it.
pub open spec fn interval_beside_segment(low: int, high: int, start: int, advance: int) -> bool {
    ||| low > 2 * start && low > 2 * (start + advance) && high > 2 * start && high > 2 * (start
        + advance)
    ||| low < 2 * start && low < 2 * (start + advance) && high < 2 * start && high < 2 * (start
        + advance)
}

/// The segment from `ray_pos` to `ray_pos + ray` passes the box by on one
/// axis: horizontally or vertically the box lies strictly to one side of it.
pub open spec fn segment_beside_box(ray_pos: Vec2, ray: Vec2, box_pos: Vec2, box_size: Vec2) -> bool {
    ||| interval_beside_segment(
        low2(box_pos.x as int, box_size.x as int),
        high2(box_pos.x as int, box_size.x as int),
        ray_pos.x as int,
        ray.x as int,
    )
    ||| interval_beside_segment(
        low2(box_pos.y as int, box_size.y as int),
        high2(box_pos.y as int, box_size.y as int),
        ray_pos.y as int,
        ray.y as int,
    )
}

/// A crossing at the end of the ray or beyond stays there when it is joined
/// with another as the later of the two.
proof fn lemma_later_stays_beyond_end(a: Crossing, b: Crossing)
    requires
        a.rate >= 0,
        b.rate >= 0,
        a.from_end_on(),
        !b.indeterminate(),
    ensures
        a.later(b).from_end_on(),
        b.later(a).from_end_on(),
{
    if a.rate > 0 && b.rate > 0 && a.rate != b.rate {
        assert(!(b.offset * a.rate < a.offset * b.rate) ==> b.offset >= b.rate) by (nonlinear_arith)
            requires
                a.rate > 0,
                b.rate > 0,
                a.offset >= a.rate,
        ;
        assert(!(a.offset * b.rate < b.offset * a.rate) || b.offset >= b.rate) by (nonlinear_arith)
            requires
                a.rate > 0,
                b.rate > 0,
                a.offset >= a.rate,
        ;
    }
}

/// A crossing behind the origin of the ray stays there when it is joined with
/// another as the earlier of the two.
proof fn lemma_earlier_stays_behind_origin(a: Crossing, b: Crossing)
    requires
        a.rate >= 0,
        b.rate >= 0,
        a.before_origin(),
        !b.indeterminate(),
    ensures
        a.earlier(b).before_origin(),
        b.earlier(a).before_origin(),
{
    if a.rate > 0 && b.rate > 0 && a.rate != b.rate {
        assert(!(a.offset * b.rate < b.offset * a.rate) ==> b.offset < 0) by (nonlinear_arith)
            requires
                a.rate > 0,
                b.rate > 0,
                a.offset < 0,
        ;
        assert(!(b.offset * a.rate < a.offset * b.rate) || b.offset < 0) by (nonlinear_arith)
            requires
                a.rate > 0,
                b.rate > 0,
                a.offset < 0,
        ;
    }
}

/// An exit behind the origin of the ray hits nothing.
proof fn lemma_exit_behind_origin_misses(entry: Crossing, exit: Crossing)
    requires
        entry.rate >= 0,
        exit.rate >= 0,
        exit.before_origin(),
        !entry.indeterminate(),
    ensures
        resolve_crossings(entry, exit) is None,
{
    if !entry.before_origin() && exit.rate > 0 && entry.rate > 0 && exit.rate != entry.rate {
        assert(exit.offset * entry.rate < entry.offset * exit.rate) by (nonlinear_arith)
            requires
                exit.rate > 0,
                entry.rate > 0,
                exit.offset < 0,
                entry.offset >= 0,
        ;
    }
}

/// A ray hits nothing of a box that its segment passes by on one axis, unless
/// it runs along the line of an edge.
pub proof fn lemma_ray_beside_box_misses(ray_pos: Vec2, ray: Vec2, box_pos: Vec2, box_size: Vec2)
    requires
        segment_beside_box(ray_pos, ray, box_pos, box_size),
        crossings_determinate(ray_pos, ray, box_pos, box_size),
    ensures
        ray_side(ray_pos, ray, box_pos, box_size) is None,
{
    let left = left_crossing(ray_pos, ray, box_pos, box_size);
    let right = right_crossing(ray_pos, ray, box_pos, box_size);
    let top = top_crossing(ray_pos, ray, box_pos, box_size);
    let bottom = bottom_crossing(ray_pos, ray, box_pos, box_size);
    let entry = entry_crossing(ray_pos, ray, box_pos, box_size);
    let exit = exit_crossing(ray_pos, ray, box_pos, box_size);
    let across_first = left.earlier(right);
    let across_last = left.later(right);
    let along_first = top.earlier(bottom);
    let along_last = top.later(bottom);
    assert(entry == across_first.later(along_first));
    assert(exit == across_last.earlier(along_last));
    if left.from_end_on() && right.from_end_on() {
        lemma_later_stays_beyond_end(across_first, along_first);
    } else if top.from_end_on() && bottom.from_end_on() {
        lemma_later_stays_beyond_end(along_first, across_first);
    } else if left.before_origin() && right.before_origin() {
        lemma_earlier_stays_behind_origin(across_last, along_last);
        lemma_exit_behind_origin_misses(entry, exit);
    } else {
        assert(top.before_origin() && bottom.before_origin());
        lemma_earlier_stays_behind_origin(along_last, across_last);
        lemma_exit_behind_origin_misses(entry, exit);
    }
}

/// A ray crosses a face of a box from outside, strictly between the corners of
/// the face and before its own end.
///
/// `near` and `far` are the doubled offsets from the ray's origin to the face
/// and to the face opposite, `rate` twice the ray's advance toward them. `low`
/// and `high` are the doubled offsets to the two edges beside the face, and
/// `drift` twice the ray's advance along the face.
pub open spec fn crosses_face(near: int, far: int, rate: int, low: int, high: int, drift: int) -> bool {
    &&& rate > 0
    &&& 0 <= near < rate
    &&& near < far
    &&& low * rate < drift * near < high * rate
}

/// The ray from `ray_pos` to `ray_pos + ray` starts outside the box or on
/// `face`, and crosses `face` strictly between its corners before it ends.
pub open spec fn enters_through(
    face: Collision,
    ray_pos: Vec2,
    ray: Vec2,
    box_pos: Vec2,
    box_size: Vec2,
) -> bool {
    let left = low2(box_pos.x as int, box_size.x as int) - 2 * ray_pos.x;
    let right = high2(box_pos.x as int, box_size.x as int) - 2 * ray_pos.x;
    let bottom = low2(box_pos.y as int, box_size.y as int) - 2 * ray_pos.y;
    let top = high2(box_pos.y as int, box_size.y as int) - 2 * ray_pos.y;
    match face {
        Collision::Left => crosses_face(left, right, 2 * ray.x, bottom, top, 2 * ray.y),
        Collision::Right => crosses_face(-right, -left, -2 * ray.x, bottom, top, 2 * ray.y),
        Collision::Bottom => crosses_face(bottom, top, 2 * ray.y, left, right, 2 * ray.x),
        Collision::Top => crosses_face(-top, -bottom, -2 * ray.y, left, right, 2 * ray.x),
    }
}

/// Where a ray crosses a face, the crossings of the two edges beside the face
/// lie on either side of that crossing: the earlier of them strictly before
/// it, the later not before it.
proof fn lemma_side_edges_around_crossing(
    face: Crossing,
    low_edge: Crossing,
    high_edge: Crossing,
    far: int,
    low: int,
    high: int,
    drift: int,
)
    requires
        crosses_face(face.offset, far, face.rate, low, high, drift),
        low_edge == Crossing::toward(low_edge.side, low, drift),
        high_edge == Crossing::toward(high_edge.side, high, drift),
    ensures
        low_edge.earlier(high_edge) == high_edge.earlier(low_edge),
        low_edge.later(high_edge) == high_edge.later(low_edge),
        low_edge.earlier(high_edge).lt(face),
        !low_edge.later(high_edge).lt(face),
        !face.lt(low_edge.earlier(high_edge)),
{
    let near = face.offset;
    let rate = face.rate;
    assert(low < high) by (nonlinear_arith)
        requires
            low * rate < high * rate,
            rate > 0,
    ;
    if drift > 0 {
        assert(low_edge.lt(high_edge));
        assert(low * rate < near * drift && near * drift < high * rate) by (nonlinear_arith)
            requires
                low * rate < drift * near < high * rate,
        ;
        if drift == rate {
            assert(low < near && near < high) by (nonlinear_arith)
                requires
                    low * rate < near * drift,
                    near * drift < high * rate,
                    drift == rate,
                    rate > 0,
            ;
        }
    } else if drift < 0 {
        assert(high_edge.lt(low_edge));
        assert((-high) * rate < near * (-drift) && near * (-drift) < (-low) * rate)
            by (nonlinear_arith)
            requires
                low * rate < drift * near < high * rate,
        ;
        if -drift == rate {
            assert(-high < near && near < -low) by (nonlinear_arith)
                requires
                    (-high) * rate < near * (-drift),
                    near * (-drift) < (-low) * rate,
                    -drift == rate,
                    rate > 0,
            ;
        }
    } else {
        assert(low < 0 && 0 < high) by (nonlinear_arith)
            requires
                low * rate < drift * near < high * rate,
                drift == 0,
                rate > 0,
        ;
    }
}

/// A ray that crosses a face of a box from outside, strictly between the
/// corners of the face and before its own end, hits that face.
pub proof fn lemma_ray_through_face_hits_it(
    face: Collision,
    ray_pos: Vec2,
    ray: Vec2,
    box_pos: Vec2,
    box_size: Vec2,
)
    requires
        enters_through(face, ray_pos, ray, box_pos, box_size),
    ensures
        ray_side(ray_pos, ray, box_pos, box_size) == Some(face),
{
    let left = left_crossing(ray_pos, ray, box_pos, box_size);
    let right = right_crossing(ray_pos, ray, box_pos, box_size);
    let top = top_crossing(ray_pos, ray, box_pos, box_size);
    let bottom = bottom_crossing(ray_pos, ray, box_pos, box_size);
    let l = low2(box_pos.x as int, box_size.x as int) - 2 * ray_pos.x;
    let r = high2(box_pos.x as int, box_size.x as int) - 2 * ray_pos.x;
    let b = low2(box_pos.y as int, box_size.y as int) - 2 * ray_pos.y;
    let t = high2(box_pos.y as int, box_size.y as int) - 2 * ray_pos.y;
    match face {
        Collision::Left => {
            lemma_side_edges_around_crossing(left, bottom, top, r, b, t, 2 * ray.y);
            assert(top.earlier(bottom).lt(left));
            assert(left.lt(right));
        },
        Collision::Right => {
            lemma_side_edges_around_crossing(right, bottom, top, -l, b, t, 2 * ray.y);
            assert(top.earlier(bottom).lt(right));
            assert(right.lt(left));
        },
        Collision::Bottom => {
            lemma_side_edges_around_crossing(bottom, left, right, t, l, r, 2 * ray.x);
            assert(left.earlier(right).lt(bottom));
            assert(bottom.lt(top));
        },
        Collision::Top => {
            lemma_side_edges_around_crossing(top, left, right, -b, l, r, 2 * ray.x);
            assert(left.earlier(right).lt(top));
            assert(top.lt(bottom));
        },
    }
}

/// A crossing in machine integers.
#[derive(Clone, Copy, Debug)]
pub struct RaySolution {
    pub side: Collision,
    pub offset: i64,
    pub rate: i64,
}

impl View for RaySolution {
    type V = Crossing;

    open spec fn view(&self) -> Crossing {
        Crossing { side: self.side, offset: self.offset as int, rate: self.rate as int }
    }
}

impl RaySolution {
    /// The values stay small enough for any two to be compared.
    pub open spec fn wf(self) -> bool {
        &&& -0x4_0000_0000 <= self.offset <= 0x4_0000_0000
        &&& 0 <= self.rate <= 0x2_0000_0000
    }

    /// The crossing of the line at `offset`, for a ray that advances by
    /// `rate`.
    pub fn new(side: Collision, offset: i64, rate: i64) -> (s: RaySolution)
        requires
            -0x4_0000_0000 <= offset <= 0x4_0000_0000,
            -0x2_0000_0000 <= rate <= 0x2_0000_0000,
        ensures
            s.wf(),
            s@ == Crossing::toward(side, offset as int, rate as int),
    {
        if rate < 0 {
            RaySolution { side, offset: -offset, rate: -rate }
        } else {
            RaySolution { side, offset, rate }
        }
    }

    fn indeterminate(&self) -> (b: bool)
        ensures
            b == self@.indeterminate(),
    {
        self.offset == 0 && self.rate == 0
    }

    /// Whether this crossing comes strictly before `other`.
    pub fn lt(&self, other: &RaySolution) -> (b: bool)
        requires
            self.wf(),
            other.wf(),
        ensures
            b == self@.lt(other@),
    {
        if self.indeterminate() || other.indeterminate() {
            false
        } else if self.rate == 0 {
            self.offset < 0 && !(other.rate == 0 && other.offset < 0)
        } else if other.rate == 0 {
            other.offset > 0
        } else if self.rate == other.rate {
            self.offset < other.offset
        } else {
            assert(-0x4_0000_0000 * 0x2_0000_0000 <= self.offset * other.rate <= 0x4_0000_0000
                * 0x2_0000_0000) by (nonlinear_arith)
                requires
                    -0x4_0000_0000 <= self.offset <= 0x4_0000_0000,
                    0 <= other.rate <= 0x2_0000_0000,
            ;
            assert(-0x4_0000_0000 * 0x2_0000_0000 <= other.offset * self.rate <= 0x4_0000_0000
                * 0x2_0000_0000) by (nonlinear_arith)
                requires
                    -0x4_0000_0000 <= other.offset <= 0x4_0000_0000,
                    0 <= self.rate <= 0x2_0000_0000,
            ;
            let ahead: i128 = (self.offset as i128) * (other.rate as i128);
            let behind: i128 = (other.offset as i128) * (self.rate as i128);
            ahead < behind
        }
    }
}

/// The earlier of two crossings; the second unless the first is strictly
/// earlier.
pub fn c_min(a: &RaySolution, b: &RaySolution) -> (r: RaySolution)
    requires
        a.wf(),
        b.wf(),
    ensures
        r.wf(),
        r@ == a@.earlier(b@),
        r == *a || r == *b,
{
    if a.lt(b) {
        *a
    } else {
        *b
    }
}

/// The later of two crossings; the second unless the first is strictly later.
pub fn c_max(a: &RaySolution, b: &RaySolution) -> (r: RaySolution)
    requires
        a.wf(),
        b.wf(),
    ensures
        r.wf(),
        r@ == a@.later(b@),
        r == *a || r == *b,
{
    if b.lt(a) {
        *a
    } else {
        *b
    }
}

/// Decides what a ray hits from where it enters and leaves the box.
pub fn resolve_ray(tmin: &RaySolution, tmax: &RaySolution) -> (side: Option<Collision>)
    requires
        tmin.wf(),
        tmax.wf(),
    ensures
        side == resolve_crossings(tmin@, tmax@),
{
    let entry_known: bool = !tmin.indeterminate();
    let exit_known: bool = !tmax.indeterminate();
    let entry_behind: bool = entry_known && tmin.offset < 0;
    let entry_ahead: bool = entry_known && tmin.offset >= 0;
    if tmax.lt(tmin) {
        None
    } else if entry_behind && exit_known && tmax.offset < 0 {
        None
    } else if entry_behind && exit_known && tmax.offset > tmax.rate {
        None
    } else if entry_ahead && tmin.offset >= tmin.rate {
        None
    } else if entry_ahead {
        Some(tmin.side)
    } else {
        Some(tmax.side)
    }
}

/// Casts the ray from `ray_pos` to `ray_pos + ray` at the box with center
/// `box_pos` and full extent `box_size`, and names the face that it hits.
pub fn raycast_to_box(ray_pos: Vec2, ray: Vec2, box_pos: Vec2, box_size: Vec2) -> (side: Option<
    Collision,
>)
    requires
        ray.x != 0 || ray.y != 0,
    ensures
        side == ray_side(ray_pos, ray, box_pos, box_size),
{
    let low_x: i64 = 2 * (box_pos.x as i64) - (box_size.x as i64) - 2 * (ray_pos.x as i64);
    let high_x: i64 = 2 * (box_pos.x as i64) + (box_size.x as i64) - 2 * (ray_pos.x as i64);
    let low_y: i64 = 2 * (box_pos.y as i64) - (box_size.y as i64) - 2 * (ray_pos.y as i64);
    let high_y: i64 = 2 * (box_pos.y as i64) + (box_size.y as i64) - 2 * (ray_pos.y as i64);
    let rate_x: i64 = 2 * (ray.x as i64);
    let rate_y: i64 = 2 * (ray.y as i64);

    let left = RaySolution::new(Collision::Left, low_x, rate_x);
    let right = RaySolution::new(Collision::Right, high_x, rate_x);
    let top = RaySolution::new(Collision::Top, high_y, rate_y);
    let bottom = RaySolution::new(Collision::Bottom, low_y, rate_y);

    let tmin = c_max(&c_min(&left, &right), &c_min(&top, &bottom));
    let tmax = c_min(&c_max(&left, &right), &c_max(&top, &bottom));

    resolve_ray(&tmin, &tmax)
}

} // verus!
