use vstd::prelude::*;
use crate::vector::{Vec2, magnitude};
use crate::shape::Collision;

verus! {

/// Twice the lower edge of the interval of full length `extent` around
/// `center`. Edges are kept doubled so that half an odd extent loses nothing.
pub open spec fn low2(center: int, extent: int) -> int {
    2 * center - extent
}

/// Twice the upper edge of the interval of full length `extent` around `center`.
pub open spec fn high2(center: int, extent: int) -> int {
    2 * center + extent
}

/// Two intervals, each given by its doubled edges, share more than an end point.
pub open spec fn intervals_overlap(a_low: int, a_high: int, b_low: int, b_high: int) -> bool {
    a_low < b_high && a_high > b_low
}

/// The boxes overlap: their intervals intersect on both axes.
pub open spec fn boxes_overlap(a_pos: Vec2, a_size: Vec2, b_pos: Vec2, b_size: Vec2) -> bool {
    &&& intervals_overlap(
        low2(a_pos.x as int, a_size.x as int),
        high2(a_pos.x as int, a_size.x as int),
        low2(b_pos.x as int, b_size.x as int),
        high2(b_pos.x as int, b_size.x as int),
    )
    &&& intervals_overlap(
        low2(a_pos.y as int, a_size.y as int),
        high2(a_pos.y as int, a_size.y as int),
        low2(b_pos.y as int, b_size.y as int),
        high2(b_pos.y as int, b_size.y as int),
    )
}

/// How interval A lies across interval B on one axis.
pub enum Straddle {
    /// A reaches into B over B's lower edge, and ends inside B.
    Low,
    /// A reaches into B over B's upper edge, and starts inside B.
    High,
    /// Neither: A lies within B, covers it, or shares an edge with it.
    Neither,
}

/// How A lies across B, for intervals given by their doubled edges.
pub open spec fn straddle(a_low: int, a_high: int, b_low: int, b_high: int) -> Straddle {
    if a_low < b_low && a_high > b_low && a_high < b_high {
        Straddle::Low
    } else if a_low > b_low && a_low < b_high && a_high > b_high {
        Straddle::High
    } else {
        Straddle::Neither
    }
}

/// Twice the signed penetration of A into B for the given straddle: from A's
/// far edge to the edge of B that it crossed, and 0 where it crossed none.
pub open spec fn depth2(a_low: int, a_high: int, b_low: int, b_high: int) -> int {
    match straddle(a_low, a_high, b_low, b_high) {
        Straddle::Low => b_low - a_high,
        Straddle::High => a_low - b_high,
        Straddle::Neither => 0,
    }
}

/// The side that the horizontal axis offers for box A against box B.
pub open spec fn x_side(a_pos: Vec2, a_size: Vec2, b_pos: Vec2, b_size: Vec2) -> Option<Collision> {
    match straddle(
        low2(a_pos.x as int, a_size.x as int),
        high2(a_pos.x as int, a_size.x as int),
        low2(b_pos.x as int, b_size.x as int),
        high2(b_pos.x as int, b_size.x as int),
    ) {
        Straddle::Low => Some(Collision::Left),
        Straddle::High => Some(Collision::Right),
        Straddle::Neither => None,
    }
}

/// The side that the vertical axis offers for box A against box B.
pub open spec fn y_side(a_pos: Vec2, a_size: Vec2, b_pos: Vec2, b_size: Vec2) -> Option<Collision> {
    match straddle(
        low2(a_pos.y as int, a_size.y as int),
        high2(a_pos.y as int, a_size.y as int),
        low2(b_pos.y as int, b_size.y as int),
        high2(b_pos.y as int, b_size.y as int),
    ) {
        Straddle::Low => Some(Collision::Bottom),
        Straddle::High => Some(Collision::Top),
        Straddle::Neither => None,
    }
}

/// Twice the signed horizontal penetration of box A into box B.
pub open spec fn x_depth2(a_pos: Vec2, a_size: Vec2, b_pos: Vec2, b_size: Vec2) -> int {
    depth2(
        low2(a_pos.x as int, a_size.x as int),
        high2(a_pos.x as int, a_size.x as int),
        low2(b_pos.x as int, b_size.x as int),
        high2(b_pos.x as int, b_size.x as int),
    )
}

/// Twice the signed vertical penetration of box A into box B.
pub open spec fn y_depth2(a_pos: Vec2, a_size: Vec2, b_pos: Vec2, b_size: Vec2) -> int {
    depth2(
        low2(a_pos.y as int, a_size.y as int),
        high2(a_pos.y as int, a_size.y as int),
        low2(b_pos.y as int, b_size.y as int),
        high2(b_pos.y as int, b_size.y as int),
    )
}

/// The side on which box A (center `a_pos`, full extent `a_size`) hits box B.
///
/// Boxes that do not overlap give nothing. Of overlapping boxes each axis
/// offers at most one side; where both offer one, the vertical side wins only
/// with the strictly smaller penetration.
pub open spec fn aabb_side(a_pos: Vec2, a_size: Vec2, b_pos: Vec2, b_size: Vec2) -> Option<Collision> {
    if !boxes_overlap(a_pos, a_size, b_pos, b_size) {
        None
    } else {
        match (x_side(a_pos, a_size, b_pos, b_size), y_side(a_pos, a_size, b_pos, b_size)) {
            (Some(x), Some(y)) => if magnitude(y_depth2(a_pos, a_size, b_pos, b_size)) < magnitude(
                x_depth2(a_pos, a_size, b_pos, b_size),
            ) {
                Some(y)
            } else {
                Some(x)
            },
            (Some(x), None) => Some(x),
            (None, Some(y)) => Some(y),
            (None, None) => None,
        }
    }
}

/// How A lies across B on one axis, with twice the magnitude of the
/// penetration.
fn classify_axis(a_low: i64, a_high: i64, b_low: i64, b_high: i64) -> (r: (Straddle, i64))
    requires
        -0x2_0000_0000 <= a_low <= 0x2_0000_0000,
        -0x2_0000_0000 <= a_high <= 0x2_0000_0000,
        -0x2_0000_0000 <= b_low <= 0x2_0000_0000,
        -0x2_0000_0000 <= b_high <= 0x2_0000_0000,
    ensures
        r.0 == straddle(a_low as int, a_high as int, b_low as int, b_high as int),
        r.1 == magnitude(depth2(a_low as int, a_high as int, b_low as int, b_high as int)),
{
    if a_low < b_low && a_high > b_low && a_high < b_high {
        (Straddle::Low, a_high - b_low)
    } else if a_low > b_low && a_low < b_high && a_high > b_high {
        (Straddle::High, b_high - a_low)
    } else {
        (Straddle::Neither, 0)
    }
}

/// Tests box A against box B, each given by its center and its full extent,
/// and names the side of the collision.
pub fn collide_aabb(a_pos: Vec2, a_size: Vec2, b_pos: Vec2, b_size: Vec2) -> (side: Option<Collision>)
    ensures
        side == aabb_side(a_pos, a_size, b_pos, b_size),
{
    let a_low_x: i64 = 2 * (a_pos.x as i64) - (a_size.x as i64);
    let a_high_x: i64 = 2 * (a_pos.x as i64) + (a_size.x as i64);
    let a_low_y: i64 = 2 * (a_pos.y as i64) - (a_size.y as i64);
    let a_high_y: i64 = 2 * (a_pos.y as i64) + (a_size.y as i64);
    let b_low_x: i64 = 2 * (b_pos.x as i64) - (b_size.x as i64);
    let b_high_x: i64 = 2 * (b_pos.x as i64) + (b_size.x as i64);
    let b_low_y: i64 = 2 * (b_pos.y as i64) - (b_size.y as i64);
    let b_high_y: i64 = 2 * (b_pos.y as i64) + (b_size.y as i64);

    if a_low_x < b_high_x && a_high_x > b_low_x && a_low_y < b_high_y && a_high_y > b_low_y {
        let (x_straddle, x_depth) = classify_axis(a_low_x, a_high_x, b_low_x, b_high_x);
        let (y_straddle, y_depth) = classify_axis(a_low_y, a_high_y, b_low_y, b_high_y);
        let x_collision: Option<Collision> = match x_straddle {
            Straddle::Low => Some(Collision::Left),
            Straddle::High => Some(Collision::Right),
            Straddle::Neither => None,
        };
        let y_collision: Option<Collision> = match y_straddle {
            Straddle::Low => Some(Collision::Bottom),
            Straddle::High => Some(Collision::Top),
            Straddle::Neither => None,
        };
        match (x_collision, y_collision) {
            (Some(x), Some(y)) => {
                if y_depth < x_depth {
                    Some(y)
                } else {
                    Some(x)
                }
            },
            (Some(x), None) => Some(x),
            (None, Some(y)) => Some(y),
            (None, None) => None,
        }
    } else {
        None
    }
}

/// Twice the signed penetration that goes with a reported side: the
/// horizontal one for `Left` and `Right`, the vertical one for `Top` and
/// `Bottom`.
pub open spec fn side_depth2(
    a_pos: Vec2,
    a_size: Vec2,
    b_pos: Vec2,
    b_size: Vec2,
    side: Collision,
) -> int {
    match side {
        Collision::Left | Collision::Right => x_depth2(a_pos, a_size, b_pos, b_size),
        Collision::Top | Collision::Bottom => y_depth2(a_pos, a_size, b_pos, b_size),
    }
}

/// Boxes that do not overlap never collide.
pub proof fn lemma_disjoint_boxes_give_nothing(a_pos: Vec2, a_size: Vec2, b_pos: Vec2, b_size: Vec2)
    requires
        !boxes_overlap(a_pos, a_size, b_pos, b_size),
    ensures
        aabb_side(a_pos, a_size, b_pos, b_size) is None,
{
}

/// Overlapping boxes of which A straddles an edge of B on at least one axis
/// collide on exactly one side. That side is one that an axis offered, and no
/// side that an axis offered has a smaller penetration.
pub proof fn lemma_overlap_reports_shallowest_side(
    a_pos: Vec2,
    a_size: Vec2,
    b_pos: Vec2,
    b_size: Vec2,
)
    requires
        boxes_overlap(a_pos, a_size, b_pos, b_size),
        x_side(a_pos, a_size, b_pos, b_size) is Some || y_side(a_pos, a_size, b_pos, b_size) is Some,
    ensures
        aabb_side(a_pos, a_size, b_pos, b_size) is Some,
        aabb_side(a_pos, a_size, b_pos, b_size) == x_side(a_pos, a_size, b_pos, b_size)
            || aabb_side(a_pos, a_size, b_pos, b_size) == y_side(a_pos, a_size, b_pos, b_size),
        forall|offered: Collision|
            x_side(a_pos, a_size, b_pos, b_size) == Some(offered) || y_side(
                a_pos,
                a_size,
                b_pos,
                b_size,
            ) == Some(offered) ==> magnitude(
                side_depth2(
                    a_pos,
                    a_size,
                    b_pos,
                    b_size,
                    aabb_side(a_pos, a_size, b_pos, b_size)->Some_0,
                ),
            ) <= magnitude(#[trigger] side_depth2(a_pos, a_size, b_pos, b_size, offered)),
{
}

/// A box never collides with a box that contains it edge for edge or more:
/// where A straddles no edge of B, nothing is reported, overlap or not.
pub proof fn lemma_no_straddle_gives_nothing(a_pos: Vec2, a_size: Vec2, b_pos: Vec2, b_size: Vec2)
    requires
        x_side(a_pos, a_size, b_pos, b_size) is None,
        y_side(a_pos, a_size, b_pos, b_size) is None,
    ensures
        aabb_side(a_pos, a_size, b_pos, b_size) is None,
{
}

} // verus!
