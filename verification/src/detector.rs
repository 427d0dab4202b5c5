use vstd::prelude::*;
use crate::kinematics::Position;
use crate::shape::{
    ColliderType, Collision, CollisionData, CollisionShape, CollisionType, Entity, Hitbox, Hurtbox,
};
use crate::aabb::{aabb_side, collide_aabb};
use crate::raycast::{ray_side, raycast_to_box};

verus! {

/// The pairings of roles whose overlaps count, each with the shapes that it
/// is tested on.
pub enum Pairing {
    /// The player's box against a ground box.
    PlayerOnGround,
    /// The player's ray against a ground box.
    PlayerRayOnGround,
}

/// The pairing that a hurtbox and a hitbox form, if they form one: a player's
/// box or a player's ray, against a ground box. No other combination of shapes
/// and roles counts, whatever the geometry.
pub open spec fn pairing(hurtbox: Hurtbox, hitbox: Hitbox) -> Option<Pairing> {
    if hurtbox.shape is Rect && hitbox.shape is Rect && hurtbox.col_type is Player
        && hitbox.col_type is Ground {
        Some(Pairing::PlayerOnGround)
    } else if hurtbox.shape is Ray && hitbox.shape is Rect && hurtbox.col_type is PlayerRay
        && hitbox.col_type is Ground {
        Some(Pairing::PlayerRayOnGround)
    } else {
        None
    }
}

/// The side on which the shape of the hurtbox meets the shape of the hitbox:
/// by the box test for two boxes, by the ray cast for a ray and a box.
pub open spec fn geometric_side(
    hurtbox: Hurtbox,
    hurt_position: Position,
    hitbox: Hitbox,
    hitbox_position: Position,
) -> Option<Collision> {
    match (hurtbox.shape, hitbox.shape) {
        (CollisionShape::Rect(hurt_size), CollisionShape::Rect(hit_size)) => aabb_side(
            hurt_position.0,
            hurt_size,
            hitbox_position.0,
            hit_size,
        ),
        (CollisionShape::Ray(ray), CollisionShape::Rect(hit_size)) => ray_side(
            hurt_position.0,
            ray,
            hitbox_position.0,
            hit_size,
        ),
        _ => None,
    }
}

/// What the detector records for a hurtbox against one hitbox.
///
/// Something only where the two form a pairing and their shapes meet: then the
/// hit entity, the side, and the kind of the pairing with the place and the
/// size of the ground.
pub open spec fn detect(
    hurtbox: Hurtbox,
    hurt_position: Position,
    hitbox: Hitbox,
    hitbox_position: Position,
    hit_entity: Entity,
) -> Option<CollisionData> {
    match (
        pairing(hurtbox, hitbox),
        geometric_side(hurtbox, hurt_position, hitbox, hitbox_position),
    ) {
        (Some(Pairing::PlayerOnGround), Some(direction)) => Some(
            CollisionData {
                entity: hit_entity,
                direction,
                collision_type: CollisionType::PlayerHitsGround {
                    ground_pos: hitbox_position.0,
                    ground_size: hitbox.shape->Rect_0,
                },
            },
        ),
        (Some(Pairing::PlayerRayOnGround), Some(direction)) => Some(
            CollisionData {
                entity: hit_entity,
                direction,
                collision_type: CollisionType::PlayerRayHitsGround {
                    ground_pos: hitbox_position.0,
                    ground_size: hitbox.shape->Rect_0,
                },
            },
        ),
        _ => None,
    }
}

impl Hurtbox {
    /// Tests this hurtbox, placed at `hurt_position`, against a hitbox placed
    /// at `hitbox_position`, and describes the collision if one counts.
    pub fn check_collision(
        &self,
        hurt_position: &Position,
        hitbox: &Hitbox,
        hitbox_position: &Position,
        hit_entity: Entity,
    ) -> (found: Option<CollisionData>)
        requires
            self.shape.wf(),
        ensures
            found == detect(*self, *hurt_position, *hitbox, *hitbox_position, hit_entity),
    {
        match (self.shape, hitbox.shape) {
            (CollisionShape::Rect(hurt_size), CollisionShape::Rect(hit_size)) => {
                if let Some(direction) = collide_aabb(
                    hurt_position.0,
                    hurt_size,
                    hitbox_position.0,
                    hit_size,
                ) {
                    return match (self.col_type, hitbox.col_type) {
                        (ColliderType::Player, ColliderType::Ground) => Some(
                            CollisionData {
                                entity: hit_entity,
                                direction,
                                collision_type: CollisionType::PlayerHitsGround {
                                    ground_pos: hitbox_position.0,
                                    ground_size: hit_size,
                                },
                            },
                        ),
                        _ => None,
                    };
                }
                None
            },
            (CollisionShape::Ray(ray), CollisionShape::Rect(hit_size)) => {
                if let Some(direction) = raycast_to_box(
                    hurt_position.0,
                    ray,
                    hitbox_position.0,
                    hit_size,
                ) {
                    return match (self.col_type, hitbox.col_type) {
                        (ColliderType::PlayerRay, ColliderType::Ground) => Some(
                            CollisionData {
                                entity: hit_entity,
                                direction,
                                collision_type: CollisionType::PlayerRayHitsGround {
                                    ground_pos: hitbox_position.0,
                                    ground_size: hit_size,
                                },
                            },
                        ),
                        _ => None,
                    };
                }
                None
            },
            _ => None,
        }
    }
}

/// Two colliders of the same role never collide, whatever their shapes and
/// places: ground against ground, player against player, ray against ray.
pub proof fn lemma_same_role_gives_nothing(
    hurtbox: Hurtbox,
    hurt_position: Position,
    hitbox: Hitbox,
    hitbox_position: Position,
    hit_entity: Entity,
)
    requires
        hurtbox.col_type == hitbox.col_type,
    ensures
        detect(hurtbox, hurt_position, hitbox, hitbox_position, hit_entity) is None,
{
}

/// A collision is recorded only against a ground box, and only for the
/// player's box or the player's ray: the roles decide before the geometry.
pub proof fn lemma_detection_needs_accepted_roles(
    hurtbox: Hurtbox,
    hurt_position: Position,
    hitbox: Hitbox,
    hitbox_position: Position,
    hit_entity: Entity,
)
    requires
        detect(hurtbox, hurt_position, hitbox, hitbox_position, hit_entity) is Some,
    ensures
        hitbox.col_type is Ground,
        hitbox.shape is Rect,
        hurtbox.col_type is Player && hurtbox.shape is Rect || hurtbox.col_type is PlayerRay
            && hurtbox.shape is Ray,
{
}

/// Where the hurtbox and the hitbox form no pairing, nothing is recorded,
/// even for shapes and places on which a pairing would collide.
pub proof fn lemma_unpaired_gives_nothing(
    hurtbox: Hurtbox,
    hurt_position: Position,
    hitbox: Hitbox,
    hitbox_position: Position,
    hit_entity: Entity,
)
    requires
        pairing(hurtbox, hitbox) is None,
    ensures
        detect(hurtbox, hurt_position, hitbox, hitbox_position, hit_entity) is None,
{
}

} // verus!
