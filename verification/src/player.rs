use vstd::prelude::*;
use crate::vector::{Vec2, fits, half_up, magnitude};
use crate::aabb::aabb_side;
use crate::kinematics::{Position, Velocity, Acceleration};
use crate::settings::PhysicsSettings;
use crate::shape::{Collision, CollisionData, CollisionType, Collisions};

verus! {

/// The velocity and acceleration that `player_input` leaves.
///
/// A jump starts only from zero vertical acceleration: it sets the jump
/// velocity and the gravity of a held jump. A release, judged after that, sets
/// the normal gravity. The horizontal parts stay.
pub open spec fn after_jump_input(
    v: Velocity,
    a: Acceleration,
    jump_pressed: bool,
    jump_released: bool,
    s: PhysicsSettings,
) -> (Velocity, Acceleration) {
    let jumps = jump_pressed && a.0.y == 0;
    let vy = if jumps {
        s.initial_jump_velocity
    } else {
        v.0.y
    };
    let ay = if jump_released {
        s.normal_gravity
    } else if jumps {
        s.hold_gravity
    } else {
        a.0.y
    };
    (Velocity(Vec2 { x: v.0.x, y: vy }), Acceleration(Vec2 { x: a.0.x, y: ay }))
}

/// Applies the jump key to the player: pressed this frame, released this
/// frame, both or neither.
pub fn player_input(
    v: &mut Velocity,
    a: &mut Acceleration,
    jump_pressed: bool,
    jump_released: bool,
    s: &PhysicsSettings,
)
    ensures
        (*final(v), *final(a)) == after_jump_input(*old(v), *old(a), jump_pressed, jump_released, *s),
{
    if jump_pressed && a.0.y == 0 {
        v.0.y = s.initial_jump_velocity;
        a.0.y = s.hold_gravity;
    }
    if jump_released {
        a.0.y = s.normal_gravity;
    }
}

/// The velocity and acceleration that `player_horizontal_accel` leaves.
///
/// A move key sets the horizontal acceleration, left before right. With
/// neither down, a player whose speed, the size of its horizontal velocity, is
/// above the stopping speed is slowed by friction against its motion, and one
/// at or under the stopping speed stops dead. A player at rest that is yet
/// above a stopping speed below zero is slowed as one that moves right. The
/// vertical parts stay.
pub open spec fn after_move_input(
    v: Velocity,
    a: Acceleration,
    left: bool,
    right: bool,
    s: PhysicsSettings,
) -> (Velocity, Acceleration) {
    if left {
        (v, Acceleration(Vec2 { x: (-s.horizontal_a) as i32, y: a.0.y }))
    } else if right {
        (v, Acceleration(Vec2 { x: s.horizontal_a, y: a.0.y }))
    } else if magnitude(v.0.x as int) > s.stopping_horizontal_speed {
        if v.0.x < 0 {
            (v, Acceleration(Vec2 { x: s.friction, y: a.0.y }))
        } else {
            (v, Acceleration(Vec2 { x: (-s.friction) as i32, y: a.0.y }))
        }
    } else {
        (Velocity(Vec2 { x: 0, y: v.0.y }), Acceleration(Vec2 { x: 0, y: a.0.y }))
    }
}

/// Applies the move keys to the player: whether left is down and whether
/// right is down.
pub fn player_horizontal_accel(
    v: &mut Velocity,
    a: &mut Acceleration,
    left: bool,
    right: bool,
    s: &PhysicsSettings,
)
    requires
        s.wf(),
    ensures
        (*final(v), *final(a)) == after_move_input(*old(v), *old(a), left, right, *s),
        left ==> final(a).0.x == -s.horizontal_a,
        !left && right ==> final(a).0.x == s.horizontal_a,
        !left && !right && magnitude(old(v).0.x as int) > s.stopping_horizontal_speed ==> ({
            &&& *final(v) == *old(v)
            &&& old(v).0.x < 0 ==> final(a).0.x == s.friction
            &&& old(v).0.x >= 0 ==> final(a).0.x == -s.friction
        }),
        !left && !right && magnitude(old(v).0.x as int) <= s.stopping_horizontal_speed ==> ({
            &&& final(v).0.x == 0
            &&& final(a).0.x == 0
        }),
        final(v).0.y == old(v).0.y,
        final(a).0.y == old(a).0.y,
{
    if left {
        a.0.x = -s.horizontal_a;
    } else if right {
        a.0.x = s.horizontal_a;
    } else {
        let speed: i64 = if v.0.x < 0 {
            -(v.0.x as i64)
        } else {
            v.0.x as i64
        };
        if speed > s.stopping_horizontal_speed as i64 {
            if v.0.x < 0 {
                a.0.x = s.friction;
            } else {
                a.0.x = -s.friction;
            }
        } else {
            v.0.x = 0;
            a.0.x = 0;
        }
    }
}

/// The entry makes the player land: it met the top face of a ground box.
pub open spec fn is_landing(c: CollisionData) -> bool {
    c.direction is Top && c.collision_type is PlayerHitsGround
}

/// The height at which a player of the given size stands on the ground of a
/// landing: the ground's center, plus half the ground's height, plus half the
/// player's.
///
/// The two heights are added before they are halved, so the height is exact
/// whenever their sum is even. Where the sum is odd, exact contact lies half a
/// sub-unit between two heights, and the upper one is taken: the player never
/// rests inside the ground.
pub open spec fn landing_height(c: CollisionData, player_size: Vec2) -> int
    recommends
        is_landing(c),
{
    c.collision_type->PlayerHitsGround_ground_pos.y + half_up(
        c.collision_type->PlayerHitsGround_ground_size.y + player_size.y,
    )
}

/// The last entry of the buffer that makes the player land.
pub open spec fn last_landing(cs: Seq<CollisionData>) -> Option<CollisionData>
    decreases cs.len(),
{
    if cs.len() == 0 {
        None
    } else if is_landing(cs.last()) {
        Some(cs.last())
    } else {
        last_landing(cs.drop_last())
    }
}

/// Every landing in the buffer puts the player at a height that can be held.
pub open spec fn landings_fit(cs: Seq<CollisionData>, player_size: Vec2) -> bool {
    forall|i: int|
        0 <= i < cs.len() && is_landing(#[trigger] cs[i]) ==> fits(landing_height(cs[i], player_size))
}

/// The player's state after its collisions are resolved.
///
/// Without a landing in the buffer nothing changes. With one, the player
/// stands on the ground of the last: its vertical velocity and acceleration are
/// zero and its height is that landing's. The horizontal parts stay.
pub open spec fn landed(
    p: Position,
    v: Velocity,
    a: Acceleration,
    cs: Seq<CollisionData>,
    player_size: Vec2,
) -> (Position, Velocity, Acceleration) {
    match last_landing(cs) {
        None => (p, v, a),
        Some(c) => (
            Position(Vec2 { x: p.0.x, y: landing_height(c, player_size) as i32 }),
            Velocity(Vec2 { x: v.0.x, y: 0 }),
            Acceleration(Vec2 { x: a.0.x, y: 0 }),
        ),
    }
}

/// The height at which a player of the given size stands on a ground.
fn landing_height_of(ground_pos: Vec2, ground_size: Vec2, player_size: Vec2) -> (height: i64)
    ensures
        height == ground_pos.y + half_up(ground_size.y + player_size.y),
{
    let heights: i64 = ground_size.y as i64 + player_size.y as i64;
    let half: i64 = if heights >= 0 {
        (heights + 1) / 2
    } else {
        heights / 2
    };
    ground_pos.y as i64 + half
}

/// Tells whether every landing in the buffer puts a player of the given size
/// at a height that can be held.
pub fn landings_fit_in(cs: &Collisions, player_size: Vec2) -> (ok: bool)
    ensures
        ok == landings_fit(cs@, player_size),
{
    let mut i: usize = 0;
    while i < cs.0.len()
        invariant
            i <= cs.0.len(),
            forall|k: int|
                0 <= k < i && is_landing(#[trigger] cs@[k]) ==> fits(landing_height(cs@[k], player_size)),
        decreases cs.0.len() - i,
    {
        let c = cs.0[i];
        match (c.direction, c.collision_type) {
            (Collision::Top, CollisionType::PlayerHitsGround { ground_pos, ground_size }) => {
                let height: i64 = landing_height_of(ground_pos, ground_size, player_size);
                if height < -0x8000_0000 || height > 0x7fff_ffff {
                    assert(is_landing(cs@[i as int]));
                    return false;
                }
            },
            _ => {},
        }
        i = i + 1;
    }
    true
}

/// Resolves the player's collisions of this tick, in the order of the buffer:
/// every landing sets the player on the ground that it names.
pub fn resolve_landings(
    p: &mut Position,
    v: &mut Velocity,
    a: &mut Acceleration,
    cs: &Collisions,
    player_size: Vec2,
)
    requires
        landings_fit(cs@, player_size),
    ensures
        (*final(p), *final(v), *final(a)) == landed(*old(p), *old(v), *old(a), cs@, player_size),
        last_landing(cs@) matches Some(c) ==> final(v).0.y == 0 && final(a).0.y == 0 && final(p).0.y
            == landing_height(c, player_size),
{
    let mut i: usize = 0;
    assert(cs@.take(0) =~= Seq::<CollisionData>::empty());
    while i < cs.0.len()
        invariant
            i <= cs.0.len(),
            landings_fit(cs@, player_size),
            (*p, *v, *a) == landed(*old(p), *old(v), *old(a), cs@.take(i as int), player_size),
        decreases cs.0.len() - i,
    {
        let c = cs.0[i];
        proof {
            assert(cs@.take(i + 1).drop_last() =~= cs@.take(i as int));
            assert(cs@.take(i + 1).last() == cs@[i as int]);
        }
        match (c.direction, c.collision_type) {
            (Collision::Top, CollisionType::PlayerHitsGround { ground_pos, ground_size }) => {
                assert(is_landing(cs@[i as int]));
                let height: i64 = landing_height_of(ground_pos, ground_size, player_size);
                v.0.y = 0;
                a.0.y = 0;
                p.0.y = height as i32;
            },
            _ => {},
        }
        i = i + 1;
    }
    proof {
        assert(cs@.take(cs@.len() as int) =~= cs@);
        lemma_last_landing_is_landing(cs@);
    }
}

/// Resolving the same buffer a second time changes nothing: a player that
/// has landed stays where the landing put it.
pub proof fn lemma_landing_is_idempotent(
    p: Position,
    v: Velocity,
    a: Acceleration,
    cs: Seq<CollisionData>,
    player_size: Vec2,
)
    ensures
        ({
            let once = landed(p, v, a, cs, player_size);
            landed(once.0, once.1, once.2, cs, player_size) == once
        }),
{
}

/// After a landing the player rests on the ground of the last landing, with
/// no vertical velocity or acceleration left. Its lower edge is the ground's
/// upper edge where the two heights add up to an even number, and half a
/// sub-unit above it where they do not: never below.
pub proof fn lemma_landing_rests_on_the_ground(
    p: Position,
    v: Velocity,
    a: Acceleration,
    cs: Seq<CollisionData>,
    player_size: Vec2,
)
    requires
        landings_fit(cs, player_size),
        last_landing(cs) is Some,
    ensures
        ({
            let c = last_landing(cs)->Some_0;
            let ground_pos = c.collision_type->PlayerHitsGround_ground_pos;
            let ground_size = c.collision_type->PlayerHitsGround_ground_size;
            let after = landed(p, v, a, cs, player_size);
            let gap2 = (2 * after.0.0.y - player_size.y) - (2 * ground_pos.y + ground_size.y);
            &&& is_landing(c)
            &&& after.1.0.y == 0
            &&& after.2.0.y == 0
            &&& 0 <= gap2 <= 1
            &&& (ground_size.y + player_size.y) % 2 == 0 ==> gap2 == 0
        }),
{
    lemma_last_landing_is_landing(cs);
}

/// A player that has landed no longer reaches into the ground it landed on:
/// the box test of the player at its new place against that ground reports
/// nothing, so the landing is not found again while the player rests.
pub proof fn lemma_landed_player_clears_the_ground(
    p: Position,
    v: Velocity,
    a: Acceleration,
    cs: Seq<CollisionData>,
    player_size: Vec2,
)
    requires
        landings_fit(cs, player_size),
        last_landing(cs) is Some,
    ensures
        ({
            let c = last_landing(cs)->Some_0;
            let after = landed(p, v, a, cs, player_size);
            aabb_side(
                after.0.0,
                player_size,
                c.collision_type->PlayerHitsGround_ground_pos,
                c.collision_type->PlayerHitsGround_ground_size,
            ) is None
        }),
{
    lemma_last_landing_is_landing(cs);
}

/// The last landing of a buffer is one of its entries, and a landing.
pub proof fn lemma_last_landing_is_landing(cs: Seq<CollisionData>)
    ensures
        last_landing(cs) matches Some(c) ==> is_landing(c) && cs.contains(c),
        last_landing(cs) is None <==> forall|i: int| 0 <= i < cs.len() ==> !is_landing(#[trigger] cs[i]),
    decreases cs.len(),
{
    if cs.len() > 0 {
        lemma_last_landing_is_landing(cs.drop_last());
        if is_landing(cs.last()) {
            assert(cs[cs.len() - 1] == cs.last());
        } else {
            match last_landing(cs.drop_last()) {
                Some(c) => {
                    let i = choose|i: int| 0 <= i < cs.drop_last().len() && cs.drop_last()[i] == c;
                    assert(cs[i] == c);
                },
                None => {
                    assert forall|i: int| 0 <= i < cs.len() implies !is_landing(#[trigger] cs[i]) by {
                        if i < cs.len() - 1 {
                            assert(cs.drop_last()[i] == cs[i]);
                        }
                    }
                },
            }
        }
    }
}

} // verus!
