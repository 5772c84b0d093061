use desktop_pet::geometry::{
    is_within_bounds, Facing, Point2, Transform, Vector3, PET_SCALE, SPRITE_SIZE,
};

fn pet_at(x: i32, y: i32) -> Transform {
    Transform::new(Vector3::new(x, y, 0))
}

#[test]
fn new_transform_has_the_pet_scale() {
    let t = pet_at(3, 4);
    assert_eq!(t.translation, Vector3 { x: 3, y: 4, z: 0 });
    assert_eq!(t.scale_x, 1500);
    assert_eq!(t.scale_y, 1500);
    assert_eq!(t.facing, Facing::Right);
    assert_eq!(PET_SCALE, 1500);
    assert_eq!(SPRITE_SIZE, 50);
}

#[test]
fn centre_is_inside() {
    assert!(is_within_bounds(Point2::new(0, 0), &pet_at(0, 0)));
    assert!(is_within_bounds(Point2::new(-500, 700), &pet_at(-500, 700)));
}

#[test]
fn boundary_counts_as_inside_on_all_four_sides() {
    // Half extent: 50 units * 1.5 / 2 = 37.5 units = 37500 sub-units.
    let t = pet_at(1000, -2000);
    assert!(is_within_bounds(Point2::new(1000 + 37_500, -2000), &t));
    assert!(is_within_bounds(Point2::new(1000 - 37_500, -2000), &t));
    assert!(is_within_bounds(Point2::new(1000, -2000 + 37_500), &t));
    assert!(is_within_bounds(Point2::new(1000, -2000 - 37_500), &t));
    assert!(is_within_bounds(Point2::new(1000 + 37_500, -2000 - 37_500), &t));
}

#[test]
fn just_beyond_the_boundary_is_outside() {
    let t = pet_at(1000, -2000);
    assert!(!is_within_bounds(Point2::new(1000 + 37_501, -2000), &t));
    assert!(!is_within_bounds(Point2::new(1000 - 37_501, -2000), &t));
    assert!(!is_within_bounds(Point2::new(1000, -2000 + 37_501), &t));
    assert!(!is_within_bounds(Point2::new(1000, -2000 - 37_501), &t));
}

#[test]
fn hit_box_follows_the_scale_of_each_axis() {
    let mut t = pet_at(0, 0);
    t.scale_x = 1000;
    t.scale_y = 2000;
    assert!(is_within_bounds(Point2::new(25_000, 50_000), &t));
    assert!(!is_within_bounds(Point2::new(25_001, 0), &t));
    assert!(!is_within_bounds(Point2::new(0, 50_001), &t));
}

#[test]
fn hit_box_does_not_depend_on_facing() {
    let mut t = pet_at(0, 0);
    t.facing = Facing::Left;
    assert!(is_within_bounds(Point2::new(37_500, 0), &t));
    assert!(is_within_bounds(Point2::new(-37_500, 0), &t));
    assert!(!is_within_bounds(Point2::new(37_501, 0), &t));
}

#[test]
fn hit_box_at_the_edge_of_the_coordinate_range() {
    let mut t = pet_at(i32::MAX, i32::MIN);
    t.scale_x = u32::MAX;
    t.scale_y = 0;
    assert!(is_within_bounds(Point2::new(i32::MIN, i32::MIN), &t));
    assert!(!is_within_bounds(Point2::new(i32::MAX, i32::MIN + 1), &t));
}

#[test]
fn extend_and_truncate() {
    let p = Point2::new(7, -9);
    assert_eq!(p.extend(3), Vector3 { x: 7, y: -9, z: 3 });
    assert_eq!(Vector3::new(7, -9, 3).truncate(), p);
}
