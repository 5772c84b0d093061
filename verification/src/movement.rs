//! Kinematics: friction, walking toward a target, and position integration.
//!
//! A walking pet heads straight for its target at a fixed speed and stops
//! when it is close enough. In any other state its velocity gains the
//! acceleration and then loses a tenth to friction. A dragged pet is not
//! moved here at all.

use vstd::prelude::*;
use crate::arith::{
    NANOS_PER_SECOND, UNIT, clamp_i32, integer_sqrt, is_sqrt_floor, isqrt, per_tick, trunc_div,
};
use crate::geometry::{Facing, Point2, Transform, Vector3, distance_squared};
use crate::pet::{Pet, PetState};

verus! {

/// Friction keeps nine tenths of the velocity on every tick: this is the
/// nine.
pub const FRICTION_NUMERATOR: i32 = 9;

/// The ten of the nine tenths that friction keeps.
pub const FRICTION_DENOMINATOR: i32 = 10;

/// Walking speed in world units per second, and the factor by which a
/// velocity is scaled when the position is integrated.
pub const SPEED: i32 = 15;

/// A walking pet has arrived when it is closer to its target than this many
/// sub-units (two world units).
pub const ARRIVAL_DISTANCE: i32 = 2000;

/// Rate of change of the position, in sub-units per second.
#[derive(Clone, Copy, Debug, PartialEq, Eq, Structural)]
pub struct Velocity {
    pub value: Vector3,
}

/// Rate of change of the velocity, in sub-units per second per second.
#[derive(Clone, Copy, Debug, PartialEq, Eq, Structural)]
pub struct Acceleration {
    pub value: Vector3,
}

/// The kinematic state that travels with the pet.
#[derive(Clone, Copy, Debug, PartialEq, Eq, Structural)]
pub struct MovingObjectBundle {
    pub velocity: Velocity,
    pub acceleration: Acceleration,
}

impl Velocity {
    /// A velocity of `value` sub-units per second.
    pub fn new(value: Vector3) -> (v: Velocity)
        ensures
            v.value == value,
    {
        Self { value }
    }
}

impl Acceleration {
    /// An acceleration of `value` sub-units per second per second.
    pub fn new(value: Vector3) -> (a: Acceleration)
        ensures
            a.value == value,
    {
        Self { value }
    }
}

/// One velocity component after friction: nine tenths of it, rounded toward
/// zero.
pub open spec fn damped(v: int) -> int {
    trunc_div(v * FRICTION_NUMERATOR, FRICTION_DENOMINATOR as int)
}

/// One velocity component after `delta` nanoseconds of the acceleration
/// `a`, held within the component's range.
pub open spec fn accelerated(v: i32, a: i32, delta: u64) -> int {
    clamp_i32(v + per_tick(a as int, delta as int))
}

/// One velocity component after a tick of acceleration and friction.
pub open spec fn slowed_component(v: i32, a: i32, delta: u64) -> i32 {
    damped(accelerated(v, a, delta)) as i32
}

/// A velocity after a tick of acceleration and friction.
pub open spec fn slowed(velocity: Vector3, acceleration: Vector3, delta: u64) -> Vector3 {
    Vector3 {
        x: slowed_component(velocity.x, acceleration.x, delta),
        y: slowed_component(velocity.y, acceleration.y, delta),
        z: slowed_component(velocity.z, acceleration.z, delta),
    }
}

/// One component of the walking velocity: the share `offset / distance` of
/// the walking speed, rounded toward zero.
pub open spec fn heading_component(offset: int, distance: int) -> int {
    trunc_div(offset * (SPEED * UNIT), distance)
}

/// The velocity of a pet at `from` that walks to `to`: the walking speed
/// along the straight line between them, the distance being taken as its
/// integer square root. A pet on its target stands still.
pub open spec fn walking_velocity(from: Point2, to: Point2) -> Vector3 {
    let distance = isqrt(distance_squared(to, from));
    if distance == 0 {
        Vector3::zero()
    } else {
        Vector3 {
            x: heading_component(to.x - from.x, distance) as i32,
            y: heading_component(to.y - from.y, distance) as i32,
            z: 0,
        }
    }
}

/// One coordinate after moving for `delta` nanoseconds at the velocity
/// component `v`, held within the coordinate's range.
pub open spec fn displaced_component(p: i32, v: i32, delta: u64) -> i32 {
    clamp_i32(p + per_tick(v * SPEED, delta as int)) as i32
}

/// A position after moving for `delta` nanoseconds at `velocity`.
pub open spec fn displaced(position: Vector3, velocity: Vector3, delta: u64) -> Vector3 {
    Vector3 {
        x: displaced_component(position.x, velocity.x, delta),
        y: displaced_component(position.y, velocity.y, delta),
        z: displaced_component(position.z, velocity.z, delta),
    }
}

/// The way a pet faces that moves horizontally at `vx`: right when it moves
/// right, left when it moves left, and as before when it does neither.
pub open spec fn facing_for(vx: i32, facing: Facing) -> Facing {
    if vx > 0 {
        Facing::Right
    } else if vx < 0 {
        Facing::Left
    } else {
        facing
    }
}

/// Whether a pet at `position` is close enough to `target` to have arrived.
pub open spec fn within_arrival(position: Point2, target: Point2) -> bool {
    distance_squared(target, position) < ARRIVAL_DISTANCE * ARRIVAL_DISTANCE
}

/// The pet is walking and has reached its target.
pub open spec fn arrives(pet: Pet, transform: Transform) -> bool {
    &&& pet.state == PetState::Walking
    &&& pet.move_target matches Some(target)
    &&& within_arrival(transform.translation.truncated(), target)
}

/// The pet is walking and has not reached its target yet.
pub open spec fn keeps_walking(pet: Pet, transform: Transform) -> bool {
    &&& pet.state == PetState::Walking
    &&& pet.move_target matches Some(target)
    &&& !within_arrival(transform.translation.truncated(), target)
}

/// The pet after a movement tick: arrival ends the walk.
pub open spec fn pet_after_move(pet: Pet, transform: Transform) -> Pet {
    if arrives(pet, transform) {
        pet.with_state(PetState::Idle)
    } else {
        pet
    }
}

/// The velocity after a movement tick.
pub open spec fn velocity_after_move(
    pet: Pet,
    transform: Transform,
    motion: MovingObjectBundle,
    delta: u64,
) -> Vector3 {
    if pet.state == PetState::Dragged {
        motion.velocity.value
    } else if arrives(pet, transform) {
        Vector3::zero()
    } else if keeps_walking(pet, transform) {
        walking_velocity(transform.translation.truncated(), pet.move_target->0)
    } else {
        slowed(motion.velocity.value, motion.acceleration.value, delta)
    }
}

/// The placement of a pet that moved for `delta` nanoseconds at `velocity`.
/// A dragged pet stays where the cursor put it.
pub open spec fn transform_after_step(
    pet: Pet,
    transform: Transform,
    velocity: Vector3,
    delta: u64,
) -> Transform {
    if pet.state == PetState::Dragged {
        transform
    } else {
        Transform {
            translation: displaced(transform.translation, velocity, delta),
            facing: facing_for(velocity.x, transform.facing),
            ..transform
        }
    }
}

/// The placement after a movement tick.
pub open spec fn transform_after_move(
    pet: Pet,
    transform: Transform,
    motion: MovingObjectBundle,
    delta: u64,
) -> Transform {
    transform_after_step(pet, transform, velocity_after_move(pet, transform, motion, delta), delta)
}

/// `v` brought into the range of an `i32`.
fn saturate(v: i128) -> (r: i32)
    ensures
        r as int == clamp_i32(v as int),
{
    if v < i32::MIN as i128 {
        i32::MIN
    } else if v > i32::MAX as i128 {
        i32::MAX
    } else {
        v as i32
    }
}

/// The change over `delta` nanoseconds of a quantity that changes by `rate`
/// per second.
fn change_over(rate: i64, delta: u64) -> (change: i128)
    requires
        -0x10_0000_0000 <= rate <= 0x10_0000_0000,
    ensures
        change as int == per_tick(rate as int, delta as int),
        -0x10_0000_0000_0000_0000_0000_0000 <= change <= 0x10_0000_0000_0000_0000_0000_0000,
{
    assert(-0x10_0000_0000_0000_0000_0000_0000 <= rate * delta
        <= 0x10_0000_0000_0000_0000_0000_0000) by (nonlinear_arith)
        requires
            -0x10_0000_0000 <= rate <= 0x10_0000_0000,
            0 <= delta <= 0xffff_ffff_ffff_ffff,
    ;
    let product: i128 = (rate as i128) * (delta as i128);
    product / (NANOS_PER_SECOND as i128)
}

/// One velocity component after a tick of acceleration and friction.
fn slow_component(v: i32, a: i32, delta: u64) -> (r: i32)
    ensures
        r == slowed_component(v, a, delta),
        r as int == damped(accelerated(v, a, delta)),
{
    let gained: i32 = saturate(v as i128 + change_over(a as i64, delta));
    let kept: i64 = FRICTION_NUMERATOR as i64;
    let of: i64 = FRICTION_DENOMINATOR as i64;
    assert(kept == 9 && of == 10);
    let damped: i64 = (gained as i64 * kept) / of;
    damped as i32
}

/// One coordinate after moving for `delta` nanoseconds at `v`.
fn displace_component(p: i32, v: i32, delta: u64) -> (r: i32)
    ensures
        r == displaced_component(p, v, delta),
{
    let scale: i64 = SPEED as i64;
    assert(scale == 15);
    saturate(p as i128 + change_over(v as i64 * scale, delta))
}

/// Applies acceleration and friction to `velocity` for a tick of `delta`
/// nanoseconds.
pub fn update_velocity(acceleration: &Acceleration, velocity: &mut Velocity, delta: u64)
    ensures
        final(velocity).value == slowed(old(velocity).value, acceleration.value, delta),
{
    let v = velocity.value;
    let a = acceleration.value;
    velocity.value = Vector3 {
        x: slow_component(v.x, a.x, delta),
        y: slow_component(v.y, a.y, delta),
        z: slow_component(v.z, a.z, delta),
    };
}

/// Moves the pet for `delta` nanoseconds at `velocity` and turns it to face
/// the way it moves. A dragged pet is left where it is.
pub fn update_position(velocity: &Velocity, transform: &mut Transform, pet: &Pet, delta: u64)
    ensures
        *final(transform) == transform_after_step(*pet, *old(transform), velocity.value, delta),
{
    if pet.state != PetState::Dragged {
        let p = transform.translation;
        let v = velocity.value;
        transform.translation = Vector3 {
            x: displace_component(p.x, v.x, delta),
            y: displace_component(p.y, v.y, delta),
            z: displace_component(p.z, v.z, delta),
        };
        if v.x > 0 {
            transform.facing = Facing::Right;
        } else if v.x < 0 {
            transform.facing = Facing::Left;
        }
    }
}

/// An offset along one axis is no longer than the distance it is part of.
pub proof fn lemma_offset_within_distance(offset: int, other: int, distance: int)
    requires
        is_sqrt_floor(offset * offset + other * other, distance),
    ensures
        -distance <= offset <= distance,
{
    assert(other * other >= 0) by (nonlinear_arith);
    if offset > distance {
        assert(offset * offset >= (distance + 1) * (distance + 1)) by (nonlinear_arith)
            requires
                0 <= distance + 1 <= offset,
        ;
    } else if offset < -distance {
        assert(offset * offset >= (distance + 1) * (distance + 1)) by (nonlinear_arith)
            requires
                0 <= distance + 1 <= -offset,
        ;
    }
}

/// No component of a heading exceeds the walking speed.
pub proof fn lemma_heading_is_bounded(offset: int, distance: int)
    requires
        0 < distance,
        -distance <= offset <= distance,
    ensures
        -(SPEED * UNIT) <= heading_component(offset, distance) <= SPEED * UNIT,
{
    let speed = SPEED * UNIT;
    assert(speed == 15000);
    if offset >= 0 {
        assert(0 <= (offset * speed) / distance <= speed) by (nonlinear_arith)
            requires
                0 < distance,
                0 <= offset <= distance,
                0 <= speed,
        ;
    } else {
        assert(-(offset * speed) == (-offset) * speed) by (nonlinear_arith);
        assert(0 <= ((-offset) * speed) / distance <= speed) by (nonlinear_arith)
            requires
                0 < distance,
                0 <= -offset <= distance,
                0 <= speed,
        ;
        assert(offset * speed <= 0) by (nonlinear_arith)
            requires
                offset < 0,
                0 <= speed,
        ;
    }
}

/// One component of the walking velocity.
fn heading(offset: i64, distance: u64) -> (r: i32)
    requires
        0 < distance,
        -distance <= offset <= distance,
        distance <= 0x2_0000_0000,
    ensures
        r as int == heading_component(offset as int, distance as int),
{
    proof {
        lemma_heading_is_bounded(offset as int, distance as int);
    }
    let speed: i128 = SPEED as i128 * UNIT as i128;
    assert(speed == 15000);
    let scaled: i128 = offset as i128 * speed;
    let component: i128 = scaled / (distance as i128);
    component as i32
}

/// The square of the length of the offset `(dx, dy)`.
fn squared_length(dx: i64, dy: i64) -> (n: u128)
    requires
        -0x1_0000_0000 < dx < 0x1_0000_0000,
        -0x1_0000_0000 < dy < 0x1_0000_0000,
    ensures
        n as int == dx * dx + dy * dy,
        n <= 0x2_0000_0000_0000_0000,
{
    assert(0 <= dx * dx <= 0x1_0000_0000_0000_0000) by (nonlinear_arith)
        requires
            -0x1_0000_0000 < dx < 0x1_0000_0000,
    ;
    assert(0 <= dy * dy <= 0x1_0000_0000_0000_0000) by (nonlinear_arith)
        requires
            -0x1_0000_0000 < dy < 0x1_0000_0000,
    ;
    let sum: i128 = (dx as i128) * (dx as i128) + (dy as i128) * (dy as i128);
    sum as u128
}

/// Steers a walking pet: when it is within the arrival distance of its
/// target the walk ends, the pet stands still and becomes idle; otherwise
/// its velocity is set to head for the target at walking speed. A pet that
/// is not walking to a target is left alone.
pub fn move_toward_target(transform: &Transform, velocity: &mut Velocity, pet: &mut Pet)
    ensures
        *final(pet) == pet_after_move(*old(pet), *transform),
        final(velocity).value == if arrives(*old(pet), *transform) {
            Vector3::zero()
        } else if keeps_walking(*old(pet), *transform) {
            walking_velocity(transform.translation.truncated(), old(pet).move_target->0)
        } else {
            old(velocity).value
        },
        old(pet).wf() ==> final(pet).wf(),
{
    if pet.state != PetState::Walking {
        return ;
    }
    if let Some(target) = pet.move_target {
        let current_pos = transform.translation.truncate();
        let dx: i64 = target.x as i64 - current_pos.x as i64;
        let dy: i64 = target.y as i64 - current_pos.y as i64;
        let distance_sq: u128 = squared_length(dx, dy);
        let reach: u128 = ARRIVAL_DISTANCE as u128 * ARRIVAL_DISTANCE as u128;
        assert(reach == 4_000_000);
        if distance_sq < reach {
            pet.move_target = None;
            velocity.value = Vector3 { x: 0, y: 0, z: 0 };
            pet.set_state(PetState::Idle);
        } else {
            let distance: u64 = integer_sqrt(distance_sq);
            proof {
                lemma_offset_within_distance(dx as int, dy as int, distance as int);
                assert(dy * dy + dx * dx == dx * dx + dy * dy);
                lemma_offset_within_distance(dy as int, dx as int, distance as int);
                if distance == 0 {
                    assert((distance + 1) * (distance + 1) == 1) by (nonlinear_arith)
                        requires
                            distance == 0,
                    ;
                }
                if distance > 0x2_0000_0000 {
                    assert(distance * distance > 0x2_0000_0000_0000_0000) by (nonlinear_arith)
                        requires
                            distance > 0x2_0000_0000,
                    ;
                }
            }
            velocity.value = Vector3 {
                x: heading(dx, distance),
                y: heading(dy, distance),
                z: 0,
            };
        }
    }
}

/// Runs the movement of one tick of `delta` nanoseconds: steering or
/// friction, then position and facing. A dragged pet is skipped altogether.
pub fn integrate_movement(
    pet: &mut Pet,
    transform: &mut Transform,
    motion: &mut MovingObjectBundle,
    delta: u64,
)
    ensures
        *final(pet) == pet_after_move(*old(pet), *old(transform)),
        final(motion).velocity.value == velocity_after_move(
            *old(pet),
            *old(transform),
            *old(motion),
            delta,
        ),
        final(motion).acceleration == old(motion).acceleration,
        *final(transform) == transform_after_move(*old(pet), *old(transform), *old(motion), delta),
        old(pet).wf() ==> final(pet).wf(),
{
    if pet.state == PetState::Dragged {
        return ;
    }
    if pet.state == PetState::Walking && pet.move_target.is_some() {
        move_toward_target(transform, &mut motion.velocity, pet);
    } else {
        update_velocity(&motion.acceleration, &mut motion.velocity, delta);
    }
    update_position(&motion.velocity, transform, pet, delta);
}

} // verus!
