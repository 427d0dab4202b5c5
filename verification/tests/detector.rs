use platformer::kinematics::Position;
use platformer::shape::{
    ColliderType, Collision, CollisionData, CollisionShape, CollisionType, Entity, Hitbox, Hurtbox,
};
use platformer::vector::Vec2;

fn ground() -> (Hitbox, Position) {
    (
        Hitbox { shape: CollisionShape::Rect(Vec2::new(240, 60)), col_type: ColliderType::Ground },
        Position(Vec2::new(0, -30)),
    )
}

#[test]
fn player_box_on_ground_is_recorded() {
    let (hitbox, at) = ground();
    let hurtbox = Hurtbox { shape: CollisionShape::Rect(Vec2::new(30, 30)), col_type: ColliderType::Player };
    let found = hurtbox.check_collision(&Position(Vec2::new(0, 14)), &hitbox, &at, Entity(42));
    assert_eq!(
        found,
        Some(CollisionData {
            entity: Entity(42),
            direction: Collision::Top,
            collision_type: CollisionType::PlayerHitsGround {
                ground_pos: Vec2::new(0, -30),
                ground_size: Vec2::new(240, 60),
            },
        })
    );
}

#[test]
fn player_ray_on_ground_is_recorded() {
    let (hitbox, at) = ground();
    let hurtbox = Hurtbox { shape: CollisionShape::Ray(Vec2::new(0, -31)), col_type: ColliderType::PlayerRay };
    let found = hurtbox.check_collision(&Position(Vec2::new(5, 15)), &hitbox, &at, Entity(42));
    assert_eq!(
        found,
        Some(CollisionData {
            entity: Entity(42),
            direction: Collision::Top,
            collision_type: CollisionType::PlayerRayHitsGround {
                ground_pos: Vec2::new(0, -30),
                ground_size: Vec2::new(240, 60),
            },
        })
    );
}

#[test]
fn shapes_apart_record_nothing() {
    let (hitbox, at) = ground();
    let hurtbox = Hurtbox { shape: CollisionShape::Rect(Vec2::new(30, 30)), col_type: ColliderType::Player };
    assert_eq!(hurtbox.check_collision(&Position(Vec2::new(0, 15)), &hitbox, &at, Entity(42)), None);
    let ray = Hurtbox { shape: CollisionShape::Ray(Vec2::new(0, -15)), col_type: ColliderType::PlayerRay };
    assert_eq!(ray.check_collision(&Position(Vec2::new(0, 15)), &hitbox, &at, Entity(42)), None);
}

#[test]
fn same_roles_record_nothing() {
    let (hitbox, at) = ground();
    let over = Position(Vec2::new(0, 14));
    // The same geometry as an accepted pair, under other roles.
    let ground_box = Hurtbox { shape: CollisionShape::Rect(Vec2::new(30, 30)), col_type: ColliderType::Ground };
    assert_eq!(ground_box.check_collision(&over, &hitbox, &at, Entity(42)), None);
    let player_box = Hurtbox { shape: CollisionShape::Rect(Vec2::new(30, 30)), col_type: ColliderType::Player };
    let player_hit = Hitbox { shape: hitbox.shape, col_type: ColliderType::Player };
    assert_eq!(player_box.check_collision(&over, &player_hit, &at, Entity(42)), None);
    let ray = Hurtbox { shape: CollisionShape::Ray(Vec2::new(0, -31)), col_type: ColliderType::PlayerRay };
    let ray_hit = Hitbox { shape: hitbox.shape, col_type: ColliderType::PlayerRay };
    assert_eq!(ray.check_collision(&over, &ray_hit, &at, Entity(42)), None);
}

#[test]
fn roles_must_match_their_shapes() {
    let (hitbox, at) = ground();
    let over = Position(Vec2::new(0, 14));
    // a ray under the role of the player's box
    let ray = Hurtbox { shape: CollisionShape::Ray(Vec2::new(0, -31)), col_type: ColliderType::Player };
    assert_eq!(ray.check_collision(&over, &hitbox, &at, Entity(42)), None);
    // a box under the role of the player's ray
    let boxed = Hurtbox { shape: CollisionShape::Rect(Vec2::new(30, 30)), col_type: ColliderType::PlayerRay };
    assert_eq!(boxed.check_collision(&over, &hitbox, &at, Entity(42)), None);
}

#[test]
fn a_ray_is_no_target() {
    let over = Position(Vec2::new(0, 14));
    let at = Position(Vec2::new(0, 14));
    let target = Hitbox { shape: CollisionShape::Ray(Vec2::new(0, -31)), col_type: ColliderType::Ground };
    let boxed = Hurtbox { shape: CollisionShape::Rect(Vec2::new(30, 30)), col_type: ColliderType::Player };
    assert_eq!(boxed.check_collision(&over, &target, &at, Entity(42)), None);
    let ray = Hurtbox { shape: CollisionShape::Ray(Vec2::new(0, -31)), col_type: ColliderType::PlayerRay };
    assert_eq!(ray.check_collision(&over, &target, &at, Entity(42)), None);
}

#[test]
fn a_ray_needs_a_direction() {
    assert!(CollisionShape::Ray(Vec2::new(0, -1)).is_wf());
    assert!(CollisionShape::Ray(Vec2::new(1, 0)).is_wf());
    assert!(!CollisionShape::Ray(Vec2::new(0, 0)).is_wf());
    assert!(CollisionShape::Rect(Vec2::new(0, 0)).is_wf());
}
