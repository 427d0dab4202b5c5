use platformer::raycast::{c_max, c_min, raycast_to_box, resolve_ray, RaySolution};
use platformer::shape::Collision;
use platformer::vector::Vec2;

/*
*---------->
    ____
    |  |
    |  |
    |__|
*/
#[test]
fn ray_misses_box() {
    let ray_pos = Vec2::new(0, 0);
    let ray = Vec2::new(5, 0);
    let hitbox_pos = Vec2::new(10, 10);
    let hitbox_size = Vec2::new(1, 1);

    let result = raycast_to_box(ray_pos, ray, hitbox_pos, hitbox_size);
    assert!(result.is_none());
}

/*
        ____
*---->  |  |
        |__|
*/
#[test]
fn ray_ends_before_box() {
    let ray_pos = Vec2::new(0, 0);
    let ray = Vec2::new(5, 0);
    let hitbox_pos = Vec2::new(6, 0);
    let hitbox_size = Vec2::new(1, 1);

    let result = raycast_to_box(ray_pos, ray, hitbox_pos, hitbox_size);
    assert!(result.is_none());
}

/*
____
|  |  *---->
|__|
*/
#[test]
fn ray_starts_after_box() {
    let ray_pos = Vec2::new(7, 0);
    let ray = Vec2::new(5, 0);
    let hitbox_pos = Vec2::new(6, 0);
    let hitbox_size = Vec2::new(1, 1);

    let result = raycast_to_box(ray_pos, ray, hitbox_pos, hitbox_size);
    assert!(result.is_none());
}

// the ray pierces the box
/*
    ______
    |    |
 *--X----X-->
    |    |
    |____|
*/
#[test]
fn it_detects_collision_from_left() {
    let ray_pos = Vec2::new(0, 0);
    let ray = Vec2::new(5, 0);
    let hitbox_pos = Vec2::new(3, 0);
    let hitbox_size = Vec2::new(2, 4);

    let result = raycast_to_box(ray_pos, ray, hitbox_pos, hitbox_size);
    let collision = result.unwrap();

    match collision {
        Collision::Left => assert!(true),
        _ => assert!(false),
    }
}

// the ray pierces the box
/*
    ______
    |    |
<---X----X--*
    |    |
    |____|
*/
#[test]
fn it_detects_collision_from_right() {
    let ray_pos = Vec2::new(0, 0);
    let ray = Vec2::new(-5, 0);
    let hitbox_pos = Vec2::new(-3, 0);
    let hitbox_size = Vec2::new(2, 4);

    let result = raycast_to_box(ray_pos, ray, hitbox_pos, hitbox_size);
    let collision = result.unwrap();

    match collision {
        Collision::Right => assert!(true),
        _ => assert!(false),
    }
}

/*
    _____
    |   |
*---X-> |
    |   |
    -----
 */
#[test]
fn it_detects_end_point_in_box() {
    let ray_pos = Vec2::new(0, 0);
    let ray = Vec2::new(5, 0);
    let hitbox_pos = Vec2::new(6, 0);
    let hitbox_size = Vec2::new(3, 4);

    let result = raycast_to_box(ray_pos, ray, hitbox_pos, hitbox_size);
    let collision = result.unwrap();

    match collision {
        Collision::Left => assert!(true),
        _ => assert!(false),
    }
}

/*
    _____
    |   |
    | *-X--->
    |   |
    -----
*/
#[test]
fn it_detects_origin_in_box() {
    let ray_pos = Vec2::new(0, 0);
    let ray = Vec2::new(5, 0);
    let hitbox_pos = Vec2::new(0, 0);
    let hitbox_size = Vec2::new(3, 4);

    let result = raycast_to_box(ray_pos, ray, hitbox_pos, hitbox_size);
    let collision = result.unwrap();

    match collision {
        Collision::Right => assert!(true),
        _ => assert!(false),
    }
}

/*
_______
|     |
| *-> |
|     |
|_____|
*/
#[test]
fn it_doesnt_detect_ray_fully_enclosed_in_box() {
    let ray_pos = Vec2::new(0, 0);
    let ray = Vec2::new(1, 0);
    let hitbox_pos = Vec2::new(0, 0);
    let hitbox_size = Vec2::new(3, 4);

    let result = raycast_to_box(ray_pos, ray, hitbox_pos, hitbox_size);
    assert!(result.is_none());
}

#[test]
fn it_detects_collision_from_top() {
    let ray_pos = Vec2::new(0, 0);
    let ray = Vec2::new(0, -5);
    let hitbox_pos = Vec2::new(0, -2);
    let hitbox_size = Vec2::new(4, 2);

    let result = raycast_to_box(ray_pos, ray, hitbox_pos, hitbox_size);
    let collision = result.unwrap();

    match collision {
        Collision::Top => assert!(true),
        _ => assert!(false),
    }
}

#[test]
fn it_detects_collision_from_bottom() {
    let ray_pos = Vec2::new(0, 0);
    let ray = Vec2::new(0, 5);
    let hitbox_pos = Vec2::new(0, 2);
    let hitbox_size = Vec2::new(4, 2);

    let result = raycast_to_box(ray_pos, ray, hitbox_pos, hitbox_size);
    let collision = result.unwrap();

    match collision {
        Collision::Bottom => assert!(true),
        _ => assert!(false),
    }
}

#[test]
fn diagonal_ray_enters_by_the_later_axis() {
    // Box from (2,0) to (4,2). The ray (4,2) reaches x = 2 at one half and is
    // at y = 0 from the start, so it enters through the left face.
    let result = raycast_to_box(Vec2::new(0, 0), Vec2::new(4, 2), Vec2::new(3, 1), Vec2::new(2, 2));
    assert_eq!(result, Some(Collision::Left));
    // The ray (2,4) reaches y = 2 at one half and x = 1 at one half too: the
    // tie goes to the vertical axis, whose crossing is not strictly earlier.
    let result = raycast_to_box(Vec2::new(0, 0), Vec2::new(2, 4), Vec2::new(2, 3), Vec2::new(2, 2));
    assert_eq!(result, Some(Collision::Bottom));
}

#[test]
fn diagonal_ray_passes_the_box_by() {
    // Box from (4,0) to (6,2); the ray climbs to y = 8 before x = 4.
    let result = raycast_to_box(Vec2::new(0, 0), Vec2::new(5, 10), Vec2::new(5, 1), Vec2::new(2, 2));
    assert_eq!(result, None);
}

#[test]
fn diagonal_ray_compares_unlike_rates() {
    // Box from (3,1) to (7,5). Along (10,6) the left edge is crossed at 3/10
    // and the bottom edge at 1/6: the entry is the later one, on the left.
    let result = raycast_to_box(Vec2::new(0, 0), Vec2::new(10, 6), Vec2::new(5, 3), Vec2::new(4, 4));
    assert_eq!(result, Some(Collision::Left));
    // Along (6,10) the bottom edge is crossed at 1/10 and the left at 3/6.
    let result = raycast_to_box(Vec2::new(0, 0), Vec2::new(6, 10), Vec2::new(5, 3), Vec2::new(4, 4));
    assert_eq!(result, Some(Collision::Left));
    // Box from (1,3) to (5,7): along (6,10) the left edge comes at 1/6, the
    // bottom edge at 3/10.
    let result = raycast_to_box(Vec2::new(0, 0), Vec2::new(6, 10), Vec2::new(3, 5), Vec2::new(4, 4));
    assert_eq!(result, Some(Collision::Bottom));
}

#[test]
fn odd_extents_keep_their_half() {
    // The box of size 1 around (6,0) starts at 5.5: a ray of length 5 ends
    // before it, one of length 6 reaches it.
    assert_eq!(raycast_to_box(Vec2::new(0, 0), Vec2::new(5, 0), Vec2::new(6, 0), Vec2::new(1, 1)), None);
    assert_eq!(
        raycast_to_box(Vec2::new(0, 0), Vec2::new(6, 0), Vec2::new(6, 0), Vec2::new(1, 1)),
        Some(Collision::Left)
    );
}

#[test]
fn ray_ending_on_the_face_does_not_hit() {
    // The box from 5 to 7 is reached exactly at the end of the ray.
    assert_eq!(raycast_to_box(Vec2::new(0, 0), Vec2::new(5, 0), Vec2::new(6, 0), Vec2::new(2, 2)), None);
}

#[test]
fn ray_starting_on_the_face_hits_it() {
    assert_eq!(
        raycast_to_box(Vec2::new(5, 0), Vec2::new(1, 0), Vec2::new(6, 0), Vec2::new(2, 2)),
        Some(Collision::Left)
    );
}

#[test]
fn ray_along_an_edge_line() {
    // A rising ray on the line of the left edge passes the box by.
    assert_eq!(raycast_to_box(Vec2::new(0, 0), Vec2::new(0, 5), Vec2::new(1, 2), Vec2::new(2, 2)), None);
    // On the line of the right edge the horizontal axis decides nothing, and
    // the ray enters from below.
    assert_eq!(
        raycast_to_box(Vec2::new(2, 0), Vec2::new(0, 5), Vec2::new(1, 2), Vec2::new(2, 2)),
        Some(Collision::Bottom)
    );
}

#[test]
fn ray_at_the_limits_of_the_coordinates() {
    let result = raycast_to_box(
        Vec2::new(i32::MIN, i32::MIN),
        Vec2::new(i32::MAX, i32::MAX),
        Vec2::new(i32::MAX, i32::MAX),
        Vec2::new(i32::MAX, i32::MAX),
    );
    assert_eq!(result, None);
    let result = raycast_to_box(
        Vec2::new(i32::MIN, 0),
        Vec2::new(i32::MAX, 1),
        Vec2::new(-1000, 0),
        Vec2::new(10, 10),
    );
    assert_eq!(result, Some(Collision::Left));
}

#[test]
fn crossings_order_by_ratio() {
    let third = RaySolution::new(Collision::Left, 1, 3);
    let half = RaySolution::new(Collision::Top, 2, 4);
    let ahead = RaySolution::new(Collision::Right, 7, 0);
    let behind = RaySolution::new(Collision::Bottom, -7, 0);
    let nowhere = RaySolution::new(Collision::Bottom, 0, 0);
    assert!(third.lt(&half));
    assert!(!half.lt(&third));
    assert!(!half.lt(&half));
    assert!(half.lt(&ahead));
    assert!(behind.lt(&half));
    assert!(behind.lt(&ahead));
    assert!(!ahead.lt(&behind));
    assert!(!ahead.lt(&ahead));
    assert!(!behind.lt(&behind));
    assert!(!nowhere.lt(&half));
    assert!(!half.lt(&nowhere));
}

#[test]
fn crossing_toward_a_negative_rate_is_turned() {
    let s = RaySolution::new(Collision::Right, -4, -10);
    assert_eq!((s.offset, s.rate), (4, 10));
    let s = RaySolution::new(Collision::Right, -4, 10);
    assert_eq!((s.offset, s.rate), (-4, 10));
}

#[test]
fn selection_falls_to_the_second_on_a_tie() {
    let a = RaySolution::new(Collision::Left, 1, 2);
    let b = RaySolution::new(Collision::Top, 2, 4);
    assert_eq!(c_min(&a, &b).side, Collision::Top);
    assert_eq!(c_max(&a, &b).side, Collision::Top);
    let c = RaySolution::new(Collision::Right, 3, 4);
    assert_eq!(c_min(&a, &c).side, Collision::Left);
    assert_eq!(c_max(&a, &c).side, Collision::Right);
    assert_eq!(c_min(&c, &a).side, Collision::Left);
    assert_eq!(c_max(&c, &a).side, Collision::Right);
}

#[test]
fn resolution_by_cases() {
    let at = |side: Collision, offset: i64| RaySolution::new(side, offset, 10);
    // leaves before it enters
    assert_eq!(resolve_ray(&at(Collision::Left, 6), &at(Collision::Top, 4)), None);
    // wholly behind
    assert_eq!(resolve_ray(&at(Collision::Left, -6), &at(Collision::Right, -2)), None);
    // starts and ends inside
    assert_eq!(resolve_ray(&at(Collision::Left, -6), &at(Collision::Right, 11)), None);
    // ends before the box
    assert_eq!(resolve_ray(&at(Collision::Left, 10), &at(Collision::Right, 14)), None);
    // enters from outside
    assert_eq!(resolve_ray(&at(Collision::Left, 0), &at(Collision::Right, 4)), Some(Collision::Left));
    // starts inside and leaves
    assert_eq!(resolve_ray(&at(Collision::Left, -6), &at(Collision::Right, 10)), Some(Collision::Right));
}
