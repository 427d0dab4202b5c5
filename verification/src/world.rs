use vstd::prelude::*;
use crate::body::{Body, BodyView};
use crate::player::{is_landing, landing_height, last_landing, lemma_last_landing_is_landing};
use crate::systems::{
    all_landings_fit, buffers_are_empty, buffers_empty, check_collisions, clean_up_collisions,
    handle_player_collides_ground, positions_fit, shapes_are_wf, update_positions,
    update_velocities, velocities_fit, views,
};

verus! {

/// The bodies after both integration steps: velocity first, then position
/// with the new velocity.
pub open spec fn moved(all: Seq<BodyView>) -> Seq<BodyView> {
    all.map_values(|b: BodyView| b.with_velocity_advanced().with_position_advanced())
}

/// The bodies after detection: each buffer has grown by what its owner's
/// hurtbox met among all of them.
pub open spec fn detected(all: Seq<BodyView>) -> Seq<BodyView> {
    all.map_values(|b: BodyView| b.with_detections(all))
}

/// The bodies after resolution and cleanup: every player has landed, and
/// every buffer is empty.
pub open spec fn settled(all: Seq<BodyView>) -> Seq<BodyView> {
    all.map_values(|b: BodyView| b.with_landings_resolved().with_collisions_cleared())
}

/// The bodies after one tick: moved, tested against each other, settled.
pub open spec fn after_tick(all: Seq<BodyView>) -> Seq<BodyView> {
    settled(detected(moved(all)))
}

/// A tick can be taken: the buffers are empty, every ray has a direction, and
/// every velocity, position and landing height that the tick computes can be
/// held.
pub open spec fn can_tick(all: Seq<BodyView>) -> bool {
    &&& buffers_empty(all)
    &&& forall|i: int|
        0 <= i < all.len() ==> {
            &&& (#[trigger] all[i]).wf()
            &&& all[i].velocity_fits()
            &&& all[i].with_velocity_advanced().position_fits()
        }
    &&& forall|i: int| 0 <= i < all.len() ==> (#[trigger] detected(moved(all))[i]).landings_fit()
}

/// The bodies of a simulation, in the order in which they were added.
#[derive(Debug)]
pub struct World {
    pub bodies: Vec<Body>,
}

impl View for World {
    type V = Seq<BodyView>;

    open spec fn view(&self) -> Seq<BodyView> {
        views(self.bodies@)
    }
}

impl World {
    /// A world without bodies.
    pub fn new() -> (world: World)
        ensures
            world@ == Seq::<BodyView>::empty(),
    {
        let world = World { bodies: Vec::new() };
        assert(world@ =~= Seq::<BodyView>::empty());
        world
    }

    /// Adds a body behind the others.
    pub fn spawn(&mut self, body: Body)
        ensures
            final(self)@ == old(self)@.push(body@),
    {
        let ghost added: BodyView = body@;
        self.bodies.push(body);
        assert(self@ =~= old(self)@.push(added));
    }

    /// Tells whether `tick` may be called: tries the tick on a copy.
    pub fn tick_fits(&self) -> (ok: bool)
        ensures
            ok == can_tick(self@),
    {
        let ghost start: Seq<BodyView> = self@;
        let mut trial: Vec<Body> = Vec::new();
        let mut i: usize = 0;
        while i < self.bodies.len()
            invariant
                i <= self.bodies.len(),
                trial.len() == i,
                forall|k: int| 0 <= k < i ==> (#[trigger] trial[k])@ == self.bodies[k]@,
            decreases self.bodies.len() - i,
        {
            trial.push(self.bodies[i].duplicate());
            i = i + 1;
        }
        assert(views(trial@) =~= start);
        let ghost copied: Seq<Body> = trial@;
        if !buffers_are_empty(&trial) {
            return false;
        }
        if !shapes_are_wf(&trial) || !velocities_fit(&trial) {
            assert(!can_tick(start)) by {
                if can_tick(start) {
                    assert forall|k: int| 0 <= k < trial.len() implies (#[trigger] trial[k])@.wf()
                        && trial[k]@.velocity_fits() by {
                        assert(start[k].wf());
                    }
                }
            }
            return false;
        }
        update_velocities(&mut trial);
        let ghost sped: Seq<Body> = trial@;
        if !positions_fit(&trial) {
            assert(!can_tick(start)) by {
                if can_tick(start) {
                    assert forall|k: int| 0 <= k < trial.len() implies (#[trigger] trial[k])@.position_fits() by {
                        assert(start[k].wf());
                    }
                }
            }
            return false;
        }
        update_positions(&mut trial);
        assert(views(trial@) =~= moved(start));
        assert forall|k: int| 0 <= k < trial.len() implies (#[trigger] trial[k])@.wf() by {
            assert(copied[k]@.wf());
            assert(sped[k]@.hurtbox == copied[k]@.hurtbox);
        }
        check_collisions(&mut trial);
        assert(views(trial@) =~= detected(moved(start)));
        let fine: bool = all_landings_fit(&trial);
        proof {
            if fine {
                assert forall|k: int| 0 <= k < start.len() implies (#[trigger] detected(
                    moved(start),
                )[k]).landings_fit() by {
                    assert(trial[k]@.landings_fit());
                }
                assert forall|k: int| 0 <= k < start.len() implies {
                    &&& (#[trigger] start[k]).wf()
                    &&& start[k].velocity_fits()
                    &&& start[k].with_velocity_advanced().position_fits()
                } by {
                    assert(copied[k]@.wf());
                    assert(copied[k]@.velocity_fits());
                    assert(sped[k]@.position_fits());
                }
            } else {
                if can_tick(start) {
                    assert forall|k: int| 0 <= k < trial.len() implies (#[trigger] trial[k])@.landings_fit() by {
                        assert(detected(moved(start))[k].landings_fit());
                    }
                }
            }
        }
        fine
    }

    /// Advances the simulation by one tick: integrates velocities, then
    /// positions, detects the collisions, resolves the landings and empties
    /// the buffers.
    pub fn tick(&mut self)
        requires
            can_tick(old(self)@),
        ensures
            final(self)@ == after_tick(old(self)@),
            buffers_empty(final(self)@),
    {
        let ghost start: Seq<BodyView> = self@;
        assert forall|i: int| 0 <= i < self.bodies.len() implies (#[trigger] self.bodies[i])@.velocity_fits() by {
            assert(start[i].wf());
        }
        update_velocities(&mut self.bodies);
        assert forall|i: int| 0 <= i < self.bodies.len() implies (#[trigger] self.bodies[i])@.position_fits() by {
            assert(start[i].wf());
        }
        update_positions(&mut self.bodies);
        assert(self@ =~= moved(start));
        assert forall|i: int| 0 <= i < self.bodies.len() implies (#[trigger] self.bodies[i])@.wf() by {
            assert(start[i].wf());
        }
        check_collisions(&mut self.bodies);
        assert(self@ =~= detected(moved(start)));
        assert forall|i: int| 0 <= i < self.bodies.len() implies (#[trigger] self.bodies[i])@.landings_fit() by {
            assert(detected(moved(start))[i].landings_fit());
        }
        handle_player_collides_ground(&mut self.bodies);
        clean_up_collisions(&mut self.bodies);
        assert(self@ =~= after_tick(start));
    }
}

/// Detection starts from empty buffers and cleanup leaves empty buffers, in
/// every tick that starts with empty buffers. What a buffer holds between the
/// two is what its owner's hurtbox met in this tick, and nothing from before.
pub proof fn lemma_buffers_hold_one_tick(all: Seq<BodyView>)
    requires
        buffers_empty(all),
    ensures
        buffers_empty(moved(all)),
        forall|i: int|
            0 <= i < all.len() ==> (#[trigger] detected(moved(all))[i]).collisions == moved(
                all,
            )[i].hits_among(moved(all)),
        buffers_empty(after_tick(all)),
{
    assert forall|i: int| 0 <= i < all.len() implies (#[trigger] moved(all)[i]).collisions.len()
        == 0 by {
        assert(all[i].collisions.len() == 0);
    }
    assert forall|i: int| 0 <= i < all.len() implies (#[trigger] detected(moved(all))[i]).collisions
        == moved(all)[i].hits_among(moved(all)) by {
        assert(moved(all)[i].collisions.len() == 0);
        assert(moved(all)[i].collisions + moved(all)[i].hits_among(moved(all)) =~= moved(
            all,
        )[i].hits_among(moved(all)));
    }
}

/// A tick keeps the bodies and their shapes: after it every ray still has a
/// direction and every buffer is empty, as the next tick needs them.
pub proof fn lemma_tick_keeps_shapes(all: Seq<BodyView>)
    requires
        forall|i: int| 0 <= i < all.len() ==> (#[trigger] all[i]).wf(),
    ensures
        after_tick(all).len() == all.len(),
        forall|i: int|
            0 <= i < all.len() ==> {
                &&& (#[trigger] after_tick(all)[i]).wf()
                &&& after_tick(all)[i].entity == all[i].entity
                &&& after_tick(all)[i].hitbox == all[i].hitbox
                &&& after_tick(all)[i].hurtbox == all[i].hurtbox
                &&& after_tick(all)[i].player_size == all[i].player_size
                &&& after_tick(all)[i].collisions.len() == 0
            },
{
    assert forall|i: int| 0 <= i < all.len() implies {
        &&& (#[trigger] after_tick(all)[i]).wf()
        &&& after_tick(all)[i].entity == all[i].entity
        &&& after_tick(all)[i].hitbox == all[i].hitbox
        &&& after_tick(all)[i].hurtbox == all[i].hurtbox
        &&& after_tick(all)[i].player_size == all[i].player_size
        &&& after_tick(all)[i].collisions.len() == 0
    } by {
        assert(all[i].wf());
        let m = moved(all)[i];
        let d = detected(moved(all))[i];
        assert(m.hurtbox == all[i].hurtbox);
        assert(d.hurtbox == m.hurtbox);
    }
}

/// A player whose box sank into the top of a ground during a tick ends the
/// tick at rest on that ground: its vertical velocity and acceleration are
/// zero, and its height is that of the last landing that was detected.
pub proof fn lemma_tick_lands_the_player(all: Seq<BodyView>, i: int)
    requires
        can_tick(all),
        0 <= i < all.len(),
        detected(moved(all))[i].is_player(),
        last_landing(detected(moved(all))[i].collisions) is Some,
    ensures
        ({
            let met = detected(moved(all))[i];
            let landing = last_landing(met.collisions)->Some_0;
            let after = after_tick(all)[i];
            &&& is_landing(landing)
            &&& after.velocity->Some_0.0.y == 0
            &&& after.acceleration->Some_0.0.y == 0
            &&& after.position->Some_0.0.y == landing_height(landing, met.player_size->Some_0)
            &&& after.position->Some_0.0.x == moved(all)[i].position->Some_0.0.x
            &&& after.velocity->Some_0.0.x == moved(all)[i].velocity->Some_0.0.x
        }),
{
    let met = detected(moved(all))[i];
    lemma_last_landing_is_landing(met.collisions);
    assert(met.landings_fit());
}

/// The bodies after `n` ticks.
pub open spec fn after_ticks(all: Seq<BodyView>, n: nat) -> Seq<BodyView>
    decreases n,
{
    if n == 0 {
        all
    } else {
        after_tick(after_ticks(all, (n - 1) as nat))
    }
}

/// Nothing leaks from one tick into another: in a run that starts with empty
/// buffers, after any number of ticks the buffers are empty, and they are
/// still empty when the detection of the next tick starts.
pub proof fn lemma_buffers_never_leak(all: Seq<BodyView>, n: nat)
    requires
        buffers_empty(all),
    ensures
        buffers_empty(after_ticks(all, n)),
        buffers_empty(moved(after_ticks(all, n))),
    decreases n,
{
    if n > 0 {
        lemma_buffers_never_leak(all, (n - 1) as nat);
        lemma_buffers_hold_one_tick(after_ticks(all, (n - 1) as nat));
    }
    lemma_buffers_hold_one_tick(after_ticks(all, n));
}

} // verus!
