use vstd::prelude::*;
use crate::vector::Vec2;
use crate::kinematics::{Acceleration, Position, Velocity};
use crate::shape::{ColliderType, CollisionData, CollisionShape, Collisions, Entity, Hitbox, Hurtbox};
use crate::detector::detect;
use crate::player::{landed, landings_fit};

verus! {

/// One body of the simulation, with the parts that it has.
///
/// Every body has a collision buffer; each other part it may have or lack.
/// A body with a place and a velocity moves, and one with a velocity and an
/// acceleration speeds up. A hurtbox with a place is tested against every
/// hitbox with a place. A player is a body with a size, a place, a velocity
/// and an acceleration.
#[derive(Debug)]
pub struct Body {
    pub entity: Entity,
    pub position: Option<Position>,
    pub velocity: Option<Velocity>,
    pub acceleration: Option<Acceleration>,
    pub hitbox: Option<Hitbox>,
    pub hurtbox: Option<Hurtbox>,
    /// The width and height of the player; `None` for any other body.
    pub player_size: Option<Vec2>,
    pub collisions: Collisions,
}

/// A body as a value: its parts, and what its buffer holds.
pub struct BodyView {
    pub entity: Entity,
    pub position: Option<Position>,
    pub velocity: Option<Velocity>,
    pub acceleration: Option<Acceleration>,
    pub hitbox: Option<Hitbox>,
    pub hurtbox: Option<Hurtbox>,
    pub player_size: Option<Vec2>,
    pub collisions: Seq<CollisionData>,
}

impl View for Body {
    type V = BodyView;

    open spec fn view(&self) -> BodyView {
        BodyView {
            entity: self.entity,
            position: self.position,
            velocity: self.velocity,
            acceleration: self.acceleration,
            hitbox: self.hitbox,
            hurtbox: self.hurtbox,
            player_size: self.player_size,
            collisions: self.collisions@,
        }
    }
}

impl BodyView {
    /// The shapes of the body can be tested: a ray has a direction.
    pub open spec fn wf(self) -> bool {
        self.hurtbox matches Some(hurtbox) ==> hurtbox.shape.wf()
    }

    /// The velocity after one tick can be held.
    pub open spec fn velocity_fits(self) -> bool {
        match (self.velocity, self.acceleration) {
            (Some(v), Some(a)) => v.can_advance(a),
            _ => true,
        }
    }

    /// The body after its velocity is integrated, if it has a velocity and an
    /// acceleration.
    pub open spec fn with_velocity_advanced(self) -> BodyView {
        match (self.velocity, self.acceleration) {
            (Some(v), Some(a)) => BodyView { velocity: Some(v.advanced(a)), ..self },
            _ => self,
        }
    }

    /// The position after one tick can be held.
    pub open spec fn position_fits(self) -> bool {
        match (self.position, self.velocity) {
            (Some(p), Some(v)) => p.can_advance(v),
            _ => true,
        }
    }

    /// The body after its position is integrated, if it has a position and a
    /// velocity.
    pub open spec fn with_position_advanced(self) -> BodyView {
        match (self.position, self.velocity) {
            (Some(p), Some(v)) => BodyView { position: Some(p.advanced(v)), ..self },
            _ => self,
        }
    }

    /// What this body's hurtbox records against the hitbox of `target`:
    /// nothing unless both have their shape and a place.
    pub open spec fn hit_by(self, target: BodyView) -> Option<CollisionData> {
        match (self.hurtbox, self.position, target.hitbox, target.position) {
            (Some(hurtbox), Some(hurt_position), Some(hitbox), Some(hitbox_position)) => detect(
                hurtbox,
                hurt_position,
                hitbox,
                hitbox_position,
                target.entity,
            ),
            _ => None,
        }
    }

    /// What this body's hurtbox records against the hitboxes of `targets`,
    /// in their order.
    pub open spec fn hits_among(self, targets: Seq<BodyView>) -> Seq<CollisionData>
        decreases targets.len(),
    {
        if targets.len() == 0 {
            Seq::empty()
        } else {
            let before = self.hits_among(targets.drop_last());
            match self.hit_by(targets.last()) {
                Some(c) => before.push(c),
                None => before,
            }
        }
    }

    /// The body after detection against `all`: its buffer has grown by what
    /// its hurtbox met.
    pub open spec fn with_detections(self, all: Seq<BodyView>) -> BodyView {
        BodyView { collisions: self.collisions + self.hits_among(all), ..self }
    }

    /// The body is a player that can land.
    pub open spec fn is_player(self) -> bool {
        &&& self.player_size is Some
        &&& self.position is Some
        &&& self.velocity is Some
        &&& self.acceleration is Some
    }

    /// Every landing in the buffer of a player puts it at a height that can
    /// be held.
    pub open spec fn landings_fit(self) -> bool {
        self.is_player() ==> landings_fit(self.collisions, self.player_size->Some_0)
    }

    /// The body after its collisions are resolved, if it is a player.
    pub open spec fn with_landings_resolved(self) -> BodyView {
        if self.is_player() {
            let after = landed(
                self.position->Some_0,
                self.velocity->Some_0,
                self.acceleration->Some_0,
                self.collisions,
                self.player_size->Some_0,
            );
            BodyView {
                position: Some(after.0),
                velocity: Some(after.1),
                acceleration: Some(after.2),
                ..self
            }
        } else {
            self
        }
    }

    /// The body with an empty buffer.
    pub open spec fn with_collisions_cleared(self) -> BodyView {
        BodyView { collisions: Seq::empty(), ..self }
    }
}

impl Body {
    /// A body at `position` that neither moves nor collides.
    pub fn new(entity: Entity, position: Position) -> (body: Body)
        ensures
            body@ == (BodyView {
                entity,
                position: Some(position),
                velocity: None,
                acceleration: None,
                hitbox: None,
                hurtbox: None,
                player_size: None,
                collisions: Seq::empty(),
            }),
    {
        Body {
            entity,
            position: Some(position),
            velocity: None,
            acceleration: None,
            hitbox: None,
            hurtbox: None,
            player_size: None,
            collisions: Collisions::new(),
        }
    }

    /// A body with the same parts and the same buffer entries.
    pub fn duplicate(&self) -> (copy: Body)
        ensures
            copy@ == self@,
    {
        Body {
            entity: self.entity,
            position: self.position,
            velocity: self.velocity,
            acceleration: self.acceleration,
            hitbox: self.hitbox,
            hurtbox: self.hurtbox,
            player_size: self.player_size,
            collisions: self.collisions.duplicate(),
        }
    }

    /// Gives the body a passive shape, against which hurtboxes are tested.
    pub fn attach_hitbox(&mut self, shape: CollisionShape, col_type: ColliderType)
        ensures
            final(self)@ == (BodyView { hitbox: Some(Hitbox { shape, col_type }), ..old(self)@ }),
    {
        self.hitbox = Some(Hitbox { shape, col_type });
    }

    /// Gives the body an active shape, which is tested against every hitbox.
    pub fn attach_hurtbox(&mut self, shape: CollisionShape, col_type: ColliderType)
        requires
            shape.wf(),
        ensures
            final(self)@ == (BodyView { hurtbox: Some(Hurtbox { shape, col_type }), ..old(self)@ }),
            final(self)@.wf(),
    {
        self.hurtbox = Some(Hurtbox { shape, col_type });
    }
}

} // verus!
