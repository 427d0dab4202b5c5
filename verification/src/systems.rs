use vstd::prelude::*;
use crate::kinematics::{Acceleration, Position, Velocity};
use crate::shape::{CollisionData, Collisions, Entity};
use crate::body::{Body, BodyView};
use crate::player::{landings_fit_in, resolve_landings};

verus! {

/// The bodies as values.
pub open spec fn views(bodies: Seq<Body>) -> Seq<BodyView> {
    bodies.map_values(|b: Body| b@)
}

/// Integrates the velocity of every body that has a velocity and an
/// acceleration, over one tick.
pub fn update_velocities(bodies: &mut Vec<Body>)
    requires
        forall|i: int| 0 <= i < old(bodies).len() ==> (#[trigger] old(bodies)[i])@.velocity_fits(),
    ensures
        final(bodies).len() == old(bodies).len(),
        forall|i: int|
            0 <= i < old(bodies).len() ==> (#[trigger] final(bodies)[i])@
                == old(bodies)[i]@.with_velocity_advanced(),
{
    let n: usize = bodies.len();
    let mut i: usize = 0;
    while i < n
        invariant
            i <= n,
            bodies.len() == n,
            old(bodies).len() == n,
            forall|k: int|
                0 <= k < i ==> (#[trigger] bodies[k])@ == old(bodies)[k]@.with_velocity_advanced(),
            forall|k: int| i <= k < n ==> #[trigger] bodies[k] == old(bodies)[k],
            forall|k: int| 0 <= k < n ==> (#[trigger] old(bodies)[k])@.velocity_fits(),
        decreases n - i,
    {
        assert(old(bodies)[i as int]@.velocity_fits());
        match (bodies[i].velocity, bodies[i].acceleration) {
            (Some(v), Some(a)) => {
                let mut v: Velocity = v;
                v.advance(&a);
                bodies[i].velocity = Some(v);
            },
            _ => {},
        }
        i = i + 1;
    }
}

/// Integrates the position of every body that has a position and a
/// velocity, over one tick.
pub fn update_positions(bodies: &mut Vec<Body>)
    requires
        forall|i: int| 0 <= i < old(bodies).len() ==> (#[trigger] old(bodies)[i])@.position_fits(),
    ensures
        final(bodies).len() == old(bodies).len(),
        forall|i: int|
            0 <= i < old(bodies).len() ==> (#[trigger] final(bodies)[i])@
                == old(bodies)[i]@.with_position_advanced(),
{
    let n: usize = bodies.len();
    let mut i: usize = 0;
    while i < n
        invariant
            i <= n,
            bodies.len() == n,
            old(bodies).len() == n,
            forall|k: int|
                0 <= k < i ==> (#[trigger] bodies[k])@ == old(bodies)[k]@.with_position_advanced(),
            forall|k: int| i <= k < n ==> #[trigger] bodies[k] == old(bodies)[k],
            forall|k: int| 0 <= k < n ==> (#[trigger] old(bodies)[k])@.position_fits(),
        decreases n - i,
    {
        assert(old(bodies)[i as int]@.position_fits());
        match (bodies[i].position, bodies[i].velocity) {
            (Some(p), Some(v)) => {
                let mut p: Position = p;
                p.advance(&v);
                bodies[i].position = Some(p);
            },
            _ => {},
        }
        i = i + 1;
    }
}

/// Tests every hurtbox that has a place against every hitbox that has a
/// place, that of its own body included, and appends what each hurtbox met to
/// its owner's buffer. Nothing else changes.
pub fn check_collisions(bodies: &mut Vec<Body>)
    requires
        forall|i: int| 0 <= i < old(bodies).len() ==> (#[trigger] old(bodies)[i])@.wf(),
    ensures
        final(bodies).len() == old(bodies).len(),
        forall|i: int|
            0 <= i < old(bodies).len() ==> (#[trigger] final(bodies)[i])@
                == old(bodies)[i]@.with_detections(views(old(bodies)@)),
{
    let n: usize = bodies.len();
    let ghost start: Seq<BodyView> = views(bodies@);
    let mut i: usize = 0;
    while i < n
        invariant
            i <= n,
            bodies.len() == n,
            start == views(old(bodies)@),
            start.len() == n,
            forall|k: int| 0 <= k < n ==> (#[trigger] start[k]).wf(),
            forall|k: int|
                0 <= k < i ==> (#[trigger] bodies[k])@ == start[k].with_detections(start),
            forall|k: int| i <= k < n ==> (#[trigger] bodies[k])@ == start[k],
        decreases n - i,
    {
        let mut j: usize = 0;
        proof {
            assert(start.take(0) =~= Seq::<BodyView>::empty());
            assert(start[i as int].collisions + Seq::<CollisionData>::empty()
                =~= start[i as int].collisions);
        }
        while j < n
            invariant
                i < n,
                j <= n,
                bodies.len() == n,
                start.len() == n,
                forall|k: int| 0 <= k < n ==> (#[trigger] start[k]).wf(),
                forall|k: int|
                    0 <= k < i ==> (#[trigger] bodies[k])@ == start[k].with_detections(start),
                forall|k: int| i < k < n ==> (#[trigger] bodies[k])@ == start[k],
                bodies[i as int]@ == (BodyView {
                    collisions: start[i as int].collisions + start[i as int].hits_among(
                        start.take(j as int),
                    ),
                    ..start[i as int]
                }),
            decreases n - j,
        {
            proof {
                assert(start.take(j + 1).drop_last() =~= start.take(j as int));
                assert(start.take(j + 1).last() == start[j as int]);
                assert(start[i as int].wf());
                assert(bodies[j as int]@.hitbox == start[j as int].hitbox);
                assert(bodies[j as int]@.position == start[j as int].position);
                assert(bodies[j as int]@.entity == start[j as int].entity);
            }
            let found: Option<CollisionData> = match (
                bodies[i].hurtbox,
                bodies[i].position,
                bodies[j].hitbox,
                bodies[j].position,
            ) {
                (
                    Some(hurtbox),
                    Some(hurt_position),
                    Some(hitbox),
                    Some(hitbox_position),
                ) => hurtbox.check_collision(
                    &hurt_position,
                    &hitbox,
                    &hitbox_position,
                    bodies[j].entity,
                ),
                _ => None,
            };
            assert(found == start[i as int].hit_by(start[j as int]));
            let ghost before: Seq<CollisionData> = bodies[i as int]@.collisions;
            match found {
                Some(c) => {
                    bodies[i].collisions.0.push(c);
                    assert(bodies[i as int]@.collisions == before.push(c));
                    assert((start[i as int].collisions + start[i as int].hits_among(
                        start.take(j as int),
                    )).push(c) =~= start[i as int].collisions + start[i as int].hits_among(
                        start.take(j as int),
                    ).push(c));
                },
                None => {},
            }
            j = j + 1;
        }
        assert(start.take(n as int) =~= start);
        i = i + 1;
    }
}

/// Resolves the collisions of every player: each lands on the ground of the
/// last landing in its buffer. Bodies that are no players stay as they are,
/// and so does every buffer.
pub fn handle_player_collides_ground(bodies: &mut Vec<Body>)
    requires
        forall|i: int| 0 <= i < old(bodies).len() ==> (#[trigger] old(bodies)[i])@.landings_fit(),
    ensures
        final(bodies).len() == old(bodies).len(),
        forall|i: int|
            0 <= i < old(bodies).len() ==> (#[trigger] final(bodies)[i])@
                == old(bodies)[i]@.with_landings_resolved(),
{
    let n: usize = bodies.len();
    let mut i: usize = 0;
    while i < n
        invariant
            i <= n,
            bodies.len() == n,
            old(bodies).len() == n,
            forall|k: int|
                0 <= k < i ==> (#[trigger] bodies[k])@ == old(bodies)[k]@.with_landings_resolved(),
            forall|k: int| i <= k < n ==> #[trigger] bodies[k] == old(bodies)[k],
            forall|k: int| 0 <= k < n ==> (#[trigger] old(bodies)[k])@.landings_fit(),
        decreases n - i,
    {
        assert(old(bodies)[i as int]@.landings_fit());
        match (
            bodies[i].position,
            bodies[i].velocity,
            bodies[i].acceleration,
            bodies[i].player_size,
        ) {
            (Some(p), Some(v), Some(a), Some(player_size)) => {
                let mut p: Position = p;
                let mut v: Velocity = v;
                let mut a: Acceleration = a;
                resolve_landings(&mut p, &mut v, &mut a, &bodies[i].collisions, player_size);
                bodies[i].position = Some(p);
                bodies[i].velocity = Some(v);
                bodies[i].acceleration = Some(a);
            },
            _ => {},
        }
        i = i + 1;
    }
}

/// Empties the buffer of every body, read or not.
pub fn clean_up_collisions(bodies: &mut Vec<Body>)
    ensures
        final(bodies).len() == old(bodies).len(),
        forall|i: int|
            0 <= i < old(bodies).len() ==> (#[trigger] final(bodies)[i])@
                == old(bodies)[i]@.with_collisions_cleared(),
{
    let n: usize = bodies.len();
    let mut i: usize = 0;
    while i < n
        invariant
            i <= n,
            bodies.len() == n,
            old(bodies).len() == n,
            forall|k: int|
                0 <= k < i ==> (#[trigger] bodies[k])@ == old(bodies)[k]@.with_collisions_cleared(),
            forall|k: int| i <= k < n ==> #[trigger] bodies[k] == old(bodies)[k],
        decreases n - i,
    {
        bodies[i].collisions.0.clear();
        i = i + 1;
    }
}

/// The collisions that the body named `entity` met in the current tick: the
/// buffer of the first body of that name, if there is one.
pub fn collisions_of(bodies: &Vec<Body>, entity: Entity) -> (found: Option<&Collisions>)
    ensures
        found matches Some(buffer) ==> exists|i: int|
            0 <= i < bodies.len() && (#[trigger] bodies[i]).entity == entity && buffer@
                == bodies[i]@.collisions && forall|k: int|
                0 <= k < i ==> (#[trigger] bodies[k]).entity != entity,
        found is None ==> forall|i: int| 0 <= i < bodies.len() ==> (#[trigger] bodies[i]).entity != entity,
{
    let mut i: usize = 0;
    while i < bodies.len()
        invariant
            i <= bodies.len(),
            forall|k: int| 0 <= k < i ==> (#[trigger] bodies[k]).entity != entity,
        decreases bodies.len() - i,
    {
        if bodies[i].entity.0 == entity.0 {
            return Some(&bodies[i].collisions);
        }
        i = i + 1;
    }
    None
}

/// Tells whether every ray among the hurtboxes has a direction, as
/// `check_collisions` needs.
pub fn shapes_are_wf(bodies: &Vec<Body>) -> (ok: bool)
    ensures
        ok == forall|i: int| 0 <= i < bodies.len() ==> (#[trigger] bodies[i])@.wf(),
{
    let mut i: usize = 0;
    while i < bodies.len()
        invariant
            i <= bodies.len(),
            forall|k: int| 0 <= k < i ==> (#[trigger] bodies[k])@.wf(),
        decreases bodies.len() - i,
    {
        let fine: bool = match bodies[i].hurtbox {
            Some(hurtbox) => hurtbox.shape.is_wf(),
            None => true,
        };
        if !fine {
            return false;
        }
        i = i + 1;
    }
    true
}

/// Tells whether every velocity can be integrated, as `update_velocities`
/// needs.
pub fn velocities_fit(bodies: &Vec<Body>) -> (ok: bool)
    ensures
        ok == forall|i: int| 0 <= i < bodies.len() ==> (#[trigger] bodies[i])@.velocity_fits(),
{
    let mut i: usize = 0;
    while i < bodies.len()
        invariant
            i <= bodies.len(),
            forall|k: int| 0 <= k < i ==> (#[trigger] bodies[k])@.velocity_fits(),
        decreases bodies.len() - i,
    {
        let fine: bool = match (bodies[i].velocity, bodies[i].acceleration) {
            (Some(v), Some(a)) => v.advance_fits(&a),
            _ => true,
        };
        if !fine {
            return false;
        }
        i = i + 1;
    }
    true
}

/// Tells whether every position can be integrated, as `update_positions`
/// needs.
pub fn positions_fit(bodies: &Vec<Body>) -> (ok: bool)
    ensures
        ok == forall|i: int| 0 <= i < bodies.len() ==> (#[trigger] bodies[i])@.position_fits(),
{
    let mut i: usize = 0;
    while i < bodies.len()
        invariant
            i <= bodies.len(),
            forall|k: int| 0 <= k < i ==> (#[trigger] bodies[k])@.position_fits(),
        decreases bodies.len() - i,
    {
        let fine: bool = match (bodies[i].position, bodies[i].velocity) {
            (Some(p), Some(v)) => p.advance_fits(&v),
            _ => true,
        };
        if !fine {
            return false;
        }
        i = i + 1;
    }
    true
}

/// Tells whether every landing of every player can be resolved, as
/// `handle_player_collides_ground` needs.
pub fn all_landings_fit(bodies: &Vec<Body>) -> (ok: bool)
    ensures
        ok == forall|i: int| 0 <= i < bodies.len() ==> (#[trigger] bodies[i])@.landings_fit(),
{
    let mut i: usize = 0;
    while i < bodies.len()
        invariant
            i <= bodies.len(),
            forall|k: int| 0 <= k < i ==> (#[trigger] bodies[k])@.landings_fit(),
        decreases bodies.len() - i,
    {
        let fine: bool = match (
            bodies[i].position,
            bodies[i].velocity,
            bodies[i].acceleration,
            bodies[i].player_size,
        ) {
            (Some(_), Some(_), Some(_), Some(player_size)) => landings_fit_in(
                &bodies[i].collisions,
                player_size,
            ),
            _ => true,
        };
        if !fine {
            return false;
        }
        i = i + 1;
    }
    true
}

/// Every buffer is empty.
pub open spec fn buffers_empty(all: Seq<BodyView>) -> bool {
    forall|i: int| 0 <= i < all.len() ==> (#[trigger] all[i]).collisions.len() == 0
}

/// Tells whether every buffer is empty.
pub fn buffers_are_empty(bodies: &Vec<Body>) -> (ok: bool)
    ensures
        ok == buffers_empty(views(bodies@)),
{
    let mut i: usize = 0;
    while i < bodies.len()
        invariant
            i <= bodies.len(),
            forall|k: int| 0 <= k < i ==> (#[trigger] views(bodies@)[k]).collisions.len() == 0,
        decreases bodies.len() - i,
    {
        if bodies[i].collisions.0.len() != 0 {
            assert(views(bodies@)[i as int].collisions.len() != 0);
            return false;
        }
        assert(views(bodies@)[i as int].collisions.len() == 0);
        i = i + 1;
    }
    true
}

} // verus!
