//! Points, vectors and the pet's placement in the world, and the hit-box test.
//!
//! Every length is an `i32` count of sub-units (`UNIT` of them make one world
//! unit). Scales are thousandths, so a scale of `1000` leaves a size as it is.

use vstd::prelude::*;

verus! {

/// Edge length of the square sprite, in world units.
pub const SPRITE_SIZE: u32 = 50;

/// The scale the pet is drawn with when it appears, in thousandths.
pub const PET_SCALE: u32 = 1500;

/// A point of the plane the pet lives in.
#[derive(Clone, Copy, Debug, PartialEq, Eq, Structural)]
pub struct Point2 {
    pub x: i32,
    pub y: i32,
}

/// A vector with a depth component: a position whose `z` is the drawing
/// layer, or a rate of change per second.
#[derive(Clone, Copy, Debug, PartialEq, Eq, Structural)]
pub struct Vector3 {
    pub x: i32,
    pub y: i32,
    pub z: i32,
}

/// Which way the sprite looks; `Left` is drawn mirrored.
#[derive(Clone, Copy, Debug, PartialEq, Eq, Structural)]
pub enum Facing {
    Right,
    Left,
}

/// Where and how the pet is drawn.
#[derive(Clone, Copy, Debug, PartialEq, Eq, Structural)]
pub struct Transform {
    /// Centre of the sprite.
    pub translation: Vector3,
    /// Horizontal magnification, in thousandths.
    pub scale_x: u32,
    /// Vertical magnification, in thousandths.
    pub scale_y: u32,
    /// Sign of the horizontal scale.
    pub facing: Facing,
}

impl Point2 {
    /// The point with the coordinates `x` and `y`, in sub-units.
    pub fn new(x: i32, y: i32) -> (p: Point2)
        ensures
            p == (Point2 { x, y }),
    {
        Point2 { x, y }
    }

    /// The point with a depth added.
    pub open spec fn extended(self, z: i32) -> Vector3 {
        Vector3 { x: self.x, y: self.y, z }
    }

    /// The point with a depth added.
    pub fn extend(self, z: i32) -> (v: Vector3)
        ensures
            v == self.extended(z),
    {
        Vector3 { x: self.x, y: self.y, z }
    }
}

impl Vector3 {
    /// The vector with the components `x`, `y` and `z`.
    pub fn new(x: i32, y: i32, z: i32) -> (v: Vector3)
        ensures
            v == (Vector3 { x, y, z }),
    {
        Vector3 { x, y, z }
    }

    /// The vector whose components are all zero.
    pub open spec fn zero() -> Vector3 {
        Vector3 { x: 0, y: 0, z: 0 }
    }

    /// The vector without its depth.
    pub open spec fn truncated(self) -> Point2 {
        Point2 { x: self.x, y: self.y }
    }

    /// The vector without its depth.
    pub fn truncate(self) -> (p: Point2)
        ensures
            p == self.truncated(),
    {
        Point2 { x: self.x, y: self.y }
    }

    /// The square of the vector's length.
    pub open spec fn length_squared(self) -> int {
        self.x * self.x + self.y * self.y + self.z * self.z
    }
}

/// The square of the distance between two points, in squared sub-units.
pub open spec fn distance_squared(a: Point2, b: Point2) -> int {
    (a.x - b.x) * (a.x - b.x) + (a.y - b.y) * (a.y - b.y)
}

/// Half the edge of the hit-box along one axis: sprite size times scale,
/// halved. With the scale in thousandths the result is in sub-units.
pub open spec fn half_extent(scale: u32) -> int {
    (SPRITE_SIZE * scale) / 2
}

/// Whether `point` lies in the hit-box: the axis-aligned rectangle centred on
/// the pet's position, bounds included on all four sides.
pub open spec fn hit_box_contains(transform: Transform, point: Point2) -> bool {
    &&& point.x >= transform.translation.x - half_extent(transform.scale_x)
    &&& point.x <= transform.translation.x + half_extent(transform.scale_x)
    &&& point.y >= transform.translation.y - half_extent(transform.scale_y)
    &&& point.y <= transform.translation.y + half_extent(transform.scale_y)
}

impl Transform {
    /// A pet at `translation`, drawn at `PET_SCALE` and facing right.
    pub fn new(translation: Vector3) -> (t: Transform)
        ensures
            t == (Transform { translation, scale_x: PET_SCALE, scale_y: PET_SCALE, facing: Facing::Right }),
    {
        Transform { translation, scale_x: PET_SCALE, scale_y: PET_SCALE, facing: Facing::Right }
    }
}

/// Tests whether `point` lies in the pet's hit-box.
pub fn is_within_bounds(point: Point2, sprite_transform: &Transform) -> (inside: bool)
    ensures
        inside == hit_box_contains(*sprite_transform, point),
{
    let half_x: i64 = (SPRITE_SIZE as i64 * sprite_transform.scale_x as i64) / 2;
    let half_y: i64 = (SPRITE_SIZE as i64 * sprite_transform.scale_y as i64) / 2;
    let px: i64 = point.x as i64;
    let py: i64 = point.y as i64;
    let cx: i64 = sprite_transform.translation.x as i64;
    let cy: i64 = sprite_transform.translation.y as i64;
    px >= cx - half_x && px <= cx + half_x && py >= cy - half_y && py <= cy + half_y
}

} // verus!
