//! What the kinematics guarantee: friction brings a pet to rest, and a walk
//! gets closer to its target on every tick until it ends there.

use vstd::prelude::*;
use crate::arith::{
    NANOS_PER_SECOND, UNIT, is_sqrt_floor, isqrt, lemma_isqrt_at_least, lemma_isqrt_is_sqrt_floor,
    per_tick,
};
use crate::geometry::{Point2, Transform, Vector3, distance_squared};
use crate::movement::{
    ARRIVAL_DISTANCE, MovingObjectBundle, SPEED, Velocity, arrives, damped, displaced_component,
    heading_component, keeps_walking, lemma_heading_is_bounded, lemma_offset_within_distance,
    pet_after_move, slowed, transform_after_move, velocity_after_move, walking_velocity,
    within_arrival,
};
use crate::pet::{Pet, PetState};

verus! {

/// Friction takes more than nothing from every component that is not zero,
/// and never turns it around.
pub proof fn lemma_damped_is_smaller(v: int)
    ensures
        v > 0 ==> 0 <= damped(v) < v,
        v < 0 ==> v < damped(v) <= 0,
        v == 0 ==> damped(v) == 0,
{
}

/// A square grows with the magnitude of what is squared.
proof fn lemma_square_of_smaller(a: int, b: int)
    requires
        -b <= a <= b,
    ensures
        a * a <= b * b,
        -b < a < b ==> a * a < b * b,
{
    assert(a * a <= b * b) by (nonlinear_arith)
        requires
            -b <= a <= b,
    ;
    if -b < a < b {
        assert(a * a < b * b) by (nonlinear_arith)
            requires
                -b < a < b,
        ;
    }
}

/// A square grows with the magnitude of what is squared, whatever the signs.
proof fn lemma_square_shrinks(after: int, before: int)
    requires
        before >= 0 ==> -before <= after <= before,
        before < 0 ==> before <= after <= -before,
    ensures
        after * after <= before * before,
        (before > 0 && -before < after < before) ==> after * after < before * before,
        (before < 0 && before < after < -before) ==> after * after < before * before,
{
    if before >= 0 {
        lemma_square_of_smaller(after, before);
    } else {
        lemma_square_of_smaller(after, -before);
        assert((-before) * (-before) == before * before) by (nonlinear_arith);
    }
}

/// Without acceleration a tick of friction leaves a velocity at rest at rest
/// and makes any other velocity strictly shorter, however long the tick.
pub proof fn lemma_friction_shortens(velocity: Vector3, delta: u64)
    ensures
        velocity == Vector3::zero() ==> slowed(velocity, Vector3::zero(), delta) == Vector3::zero(),
        velocity != Vector3::zero() ==> slowed(velocity, Vector3::zero(), delta).length_squared()
            < velocity.length_squared(),
{
    let after = slowed(velocity, Vector3::zero(), delta);
    assert(0 * (delta as int) == 0);
    assert(after.x as int == damped(velocity.x as int));
    assert(after.y as int == damped(velocity.y as int));
    assert(after.z as int == damped(velocity.z as int));
    lemma_damped_is_smaller(velocity.x as int);
    lemma_damped_is_smaller(velocity.y as int);
    lemma_damped_is_smaller(velocity.z as int);
    lemma_square_shrinks(after.x as int, velocity.x as int);
    lemma_square_shrinks(after.y as int, velocity.y as int);
    lemma_square_shrinks(after.z as int, velocity.z as int);
}

/// In every state but walking and dragged, a movement tick without
/// acceleration is a tick of friction: a pet at rest stays at rest and a
/// moving pet gets strictly slower.
pub proof fn lemma_friction_slows(
    pet: Pet,
    transform: Transform,
    motion: MovingObjectBundle,
    delta: u64,
)
    requires
        pet.state != PetState::Walking,
        pet.state != PetState::Dragged,
        motion.acceleration.value == Vector3::zero(),
    ensures
        ({
            let before = motion.velocity.value;
            let after = velocity_after_move(pet, transform, motion, delta);
            &&& before == Vector3::zero() ==> after == Vector3::zero()
            &&& before != Vector3::zero() ==> after.length_squared() < before.length_squared()
        }),
{
    lemma_friction_shortens(motion.velocity.value, delta);
}

/// The velocity after one tick of friction for each of `deltas`, without
/// acceleration.
pub open spec fn coasted(velocity: Vector3, deltas: Seq<u64>) -> Vector3
    decreases deltas.len(),
{
    if deltas.len() == 0 {
        velocity
    } else {
        slowed(coasted(velocity, deltas.drop_last()), Vector3::zero(), deltas.last())
    }
}

/// Whether every component of `velocity` is at most `bound` in magnitude.
pub open spec fn components_within(velocity: Vector3, bound: int) -> bool {
    &&& -bound <= velocity.x <= bound
    &&& -bound <= velocity.y <= bound
    &&& -bound <= velocity.z <= bound
}

/// Every tick of friction takes at least one sub-unit per second from each
/// component that is not zero.
proof fn lemma_coasting_loses_speed(velocity: Vector3, deltas: Seq<u64>, bound: int)
    requires
        components_within(velocity, bound),
        0 <= bound,
    ensures
        components_within(coasted(velocity, deltas), if bound >= deltas.len() {
            bound - deltas.len()
        } else {
            0
        }),
    decreases deltas.len(),
{
    if deltas.len() > 0 {
        let earlier = coasted(velocity, deltas.drop_last());
        lemma_coasting_loses_speed(velocity, deltas.drop_last(), bound);
        let after = slowed(earlier, Vector3::zero(), deltas.last());
        assert(0 * (deltas.last() as int) == 0);
        assert(after.x as int == damped(earlier.x as int));
        assert(after.y as int == damped(earlier.y as int));
        assert(after.z as int == damped(earlier.z as int));
        lemma_damped_is_smaller(earlier.x as int);
        lemma_damped_is_smaller(earlier.y as int);
        lemma_damped_is_smaller(earlier.z as int);
    }
}

/// Friction brings the pet to rest: without acceleration, after as many
/// ticks as the largest component has sub-units per second, the velocity is
/// zero, and it stays zero.
pub proof fn lemma_friction_brings_to_rest(velocity: Vector3, deltas: Seq<u64>)
    requires
        components_within(velocity, deltas.len() as int),
    ensures
        coasted(velocity, deltas) == Vector3::zero(),
{
    lemma_coasting_loses_speed(velocity, deltas, deltas.len() as int);
}

/// The stride of a walking pet in a tick of `delta` nanoseconds, in
/// sub-units times `NANOS_PER_SECOND`: the walking speed, scaled once more
/// by `SPEED` as the position integration does, times the tick.
pub open spec fn stride_nanos(delta: u64) -> int {
    SPEED * SPEED * UNIT * delta
}

/// The magnitude of a step along one axis, from the magnitude `m` of the
/// offset along that axis: the share `m / distance` of the walking speed of
/// 15000 sub-units per second, scaled by 15 and by the tick in seconds, each
/// division rounding down.
spec fn step_magnitude(m: int, distance: int, delta: int) -> int {
    (((m * 15000) / distance) * 15 * delta) / 1_000_000_000
}

/// A step along one axis is at most twice the offset along it when the
/// stride is at most twice the distance, and less when the stride is less.
proof fn lemma_step_magnitude_is_bounded(m: int, distance: int, delta: int)
    requires
        0 <= m <= distance,
        0 < distance,
        0 <= delta,
        225000 * delta <= 2 * distance * 1_000_000_000,
    ensures
        0 <= step_magnitude(m, distance, delta) <= 2 * m,
        (m > 0 && 225000 * delta < 2 * distance * 1_000_000_000) ==> step_magnitude(
            m,
            distance,
            delta,
        ) < 2 * m,
{
    let h = (m * 15000) / distance;
    assert(0 <= h && h * distance <= m * 15000) by (nonlinear_arith)
        requires
            h == (m * 15000) / distance,
            0 <= m,
            0 < distance,
    ;
    let hd = h * 15 * delta;
    assert(0 <= hd) by (nonlinear_arith)
        requires
            hd == h * 15 * delta,
            0 <= h,
            0 <= delta,
    ;
    let s = hd / 1_000_000_000;
    assert(s == step_magnitude(m, distance, delta));
    assert(0 <= s && s * 1_000_000_000 <= hd);
    let k = 1_000_000_000 * distance;
    assert(s * k <= hd * distance) by (nonlinear_arith)
        requires
            s * 1_000_000_000 <= hd,
            0 < distance,
            k == 1_000_000_000 * distance,
    ;
    assert(hd * distance == (h * distance) * (15 * delta)) by (nonlinear_arith)
        requires
            hd == h * 15 * delta,
    ;
    assert((h * distance) * (15 * delta) <= (m * 15000) * (15 * delta)) by (nonlinear_arith)
        requires
            h * distance <= m * 15000,
            0 <= delta,
    ;
    assert((m * 15000) * (15 * delta) == m * (225000 * delta)) by (nonlinear_arith);
    assert(m * (225000 * delta) <= m * (2 * distance * 1_000_000_000)) by (nonlinear_arith)
        requires
            0 <= m,
            225000 * delta <= 2 * distance * 1_000_000_000,
    ;
    assert(m * (2 * distance * 1_000_000_000) == (2 * m) * k) by (nonlinear_arith)
        requires
            k == 1_000_000_000 * distance,
    ;
    assert(s * k <= (2 * m) * k);
    assert(s <= 2 * m) by (nonlinear_arith)
        requires
            s * k <= (2 * m) * k,
            0 < k,
    ;
    if m > 0 && 225000 * delta < 2 * distance * 1_000_000_000 {
        assert(m * (225000 * delta) < m * (2 * distance * 1_000_000_000)) by (nonlinear_arith)
            requires
                0 < m,
                225000 * delta < 2 * distance * 1_000_000_000,
        ;
        assert(s * k < (2 * m) * k);
        assert(s < 2 * m) by (nonlinear_arith)
            requires
                s * k < (2 * m) * k,
                0 < k,
        ;
    }
}

/// A step along an axis that carries at least two thirds of the distance is
/// at least one sub-unit when the stride is at least one and a half.
proof fn lemma_step_magnitude_is_positive(m: int, distance: int, delta: int)
    requires
        0 < distance,
        2 * distance <= 3 * m,
        0 <= delta,
        3_000_000_000 <= 450000 * delta,
    ensures
        1 <= step_magnitude(m, distance, delta),
{
    let h = (m * 15000) / distance;
    assert(10000 <= h) by (nonlinear_arith)
        requires
            h == (m * 15000) / distance,
            0 < distance,
            10000 * distance <= m * 15000,
    ;
    let hd = h * 15 * delta;
    assert(150000 * delta <= hd) by (nonlinear_arith)
        requires
            hd == h * 15 * delta,
            10000 <= h,
            0 <= delta,
    ;
    assert(1_000_000_000 <= 150000 * delta);
    assert(1_000_000_000 <= hd);
}

/// What a walking tick does along one axis: the coordinate `p` moves toward
/// the target coordinate `t` by `step_magnitude`, held within the range of
/// the coordinate, so the offset never grows while the stride is at most
/// twice the distance.
proof fn lemma_axis_step(p: i32, t: i32, distance: int, delta: u64)
    requires
        0 < distance,
        -distance <= t - p <= distance,
        stride_nanos(delta) <= 2 * distance * NANOS_PER_SECOND,
    ensures
        ({
            let v = heading_component(t - p, distance);
            let q = displaced_component(p, v as i32, delta);
            let m = if t >= p {
                t - p
            } else {
                p - t
            };
            let s = step_magnitude(m, distance, delta as int);
            &&& -15000 <= v <= 15000
            &&& 0 <= s <= 2 * m
            &&& t >= p ==> -(t - p) <= t - q <= t - p
            &&& t < p ==> t - p <= t - q <= -(t - p)
            &&& (t > p && 1 <= s < 2 * m) ==> -(t - p) < t - q < t - p
            &&& (t < p && 1 <= s < 2 * m) ==> t - p < t - q < -(t - p)
        }),
{
    let speed = SPEED * UNIT;
    assert(speed == 15000);
    assert(SPEED * SPEED * UNIT == 225000);
    assert(stride_nanos(delta) == 225000 * delta);
    let m = if t >= p {
        t - p
    } else {
        p - t
    };
    lemma_step_magnitude_is_bounded(m, distance, delta as int);
    lemma_heading_is_bounded(t - p, distance);
    let h = (m * 15000) / distance;
    let hd = h * 15 * delta;
    let s = step_magnitude(m, distance, delta as int);
    assert(0 <= h) by (nonlinear_arith)
        requires
            h == (m * 15000) / distance,
            0 <= m,
            0 < distance,
    ;
    assert(0 <= hd) by (nonlinear_arith)
        requires
            hd == h * 15 * delta,
            0 <= h,
            0 <= delta,
    ;
    let v = heading_component(t - p, distance);
    if t >= p {
        assert((t - p) * speed == m * 15000);
        assert(v == h);
        assert((v as i32) * SPEED * (delta as int) == hd) by (nonlinear_arith)
            requires
                (v as i32) == h,
                SPEED == 15,
                hd == h * 15 * delta,
        ;
        assert(per_tick((v as i32) * SPEED, delta as int) == s);
    } else {
        assert(-((t - p) * speed) == m * 15000);
        assert(m * 15000 > 0);
        assert(v == -h);
        assert((v as i32) * SPEED * (delta as int) == -hd) by (nonlinear_arith)
            requires
                (v as i32) == -h,
                SPEED == 15,
                hd == h * 15 * delta,
        ;
        assert(per_tick((v as i32) * SPEED, delta as int) == -s);
    }
}

/// The square of the distance from a placement to `target`.
pub open spec fn remaining_squared(transform: Transform, target: Point2) -> int {
    distance_squared(target, transform.translation.truncated())
}

/// The integer distance from a placement to `target`.
pub open spec fn remaining(transform: Transform, target: Point2) -> int {
    isqrt(remaining_squared(transform, target))
}

/// The longer of the two offsets carries at least two thirds of the
/// distance.
proof fn lemma_major_axis(major: int, minor: int, distance: int)
    requires
        0 <= minor <= major,
        is_sqrt_floor(major * major + minor * minor, distance),
    ensures
        2 * distance <= 3 * major,
{
    assert(minor * minor <= major * major) by (nonlinear_arith)
        requires
            0 <= minor <= major,
    ;
    if 2 * distance > 3 * major {
        assert((2 * distance) * (2 * distance) > (3 * major) * (3 * major)) by (nonlinear_arith)
            requires
                0 <= 3 * major < 2 * distance,
        ;
        assert((2 * distance) * (2 * distance) == 4 * (distance * distance)) by (nonlinear_arith);
        assert((3 * major) * (3 * major) == 9 * (major * major)) by (nonlinear_arith);
    }
}

/// A walking tick never takes the pet further from its target, provided the
/// stride of the tick is at most twice the distance that remains. The pet
/// keeps walking to the same target.
pub proof fn lemma_walk_never_retreats(
    pet: Pet,
    transform: Transform,
    motion: MovingObjectBundle,
    delta: u64,
)
    requires
        keeps_walking(pet, transform),
        stride_nanos(delta) <= 2 * remaining(transform, pet.move_target->0) * NANOS_PER_SECOND,
    ensures
        pet_after_move(pet, transform) == pet,
        remaining_squared(transform_after_move(pet, transform, motion, delta), pet.move_target->0)
            <= remaining_squared(transform, pet.move_target->0),
{
    let target = pet.move_target->0;
    let from = transform.translation.truncated();
    let dx = target.x - from.x;
    let dy = target.y - from.y;
    let n = distance_squared(target, from);
    let distance = isqrt(n);
    assert(dx * dx >= 0 && dy * dy >= 0) by (nonlinear_arith);
    lemma_isqrt_is_sqrt_floor(n);
    assert(ARRIVAL_DISTANCE * ARRIVAL_DISTANCE == 2000 * 2000);
    lemma_isqrt_at_least(n, 2000);
    lemma_offset_within_distance(dx, dy, distance);
    assert(dy * dy + dx * dx == dx * dx + dy * dy);
    lemma_offset_within_distance(dy, dx, distance);
    lemma_axis_step(from.x, target.x, distance, delta);
    lemma_axis_step(from.y, target.y, distance, delta);
    let velocity = walking_velocity(from, target);
    let after = transform_after_move(pet, transform, motion, delta).translation.truncated();
    assert(after.x == displaced_component(from.x, velocity.x, delta));
    assert(after.y == displaced_component(from.y, velocity.y, delta));
    lemma_square_shrinks(target.x - after.x, dx);
    lemma_square_shrinks(target.y - after.y, dy);
}

/// A walking tick takes the pet strictly closer to its target, provided its
/// stride is at least one and a half sub-units and less than twice the
/// distance that remains.
pub proof fn lemma_walk_advances(
    pet: Pet,
    transform: Transform,
    motion: MovingObjectBundle,
    delta: u64,
)
    requires
        keeps_walking(pet, transform),
        3 * NANOS_PER_SECOND <= 2 * stride_nanos(delta),
        stride_nanos(delta) < 2 * remaining(transform, pet.move_target->0) * NANOS_PER_SECOND,
    ensures
        pet_after_move(pet, transform) == pet,
        remaining_squared(transform_after_move(pet, transform, motion, delta), pet.move_target->0)
            < remaining_squared(transform, pet.move_target->0),
{
    let target = pet.move_target->0;
    let from = transform.translation.truncated();
    let dx = target.x - from.x;
    let dy = target.y - from.y;
    let n = distance_squared(target, from);
    let distance = isqrt(n);
    assert(dx * dx >= 0 && dy * dy >= 0) by (nonlinear_arith);
    lemma_isqrt_is_sqrt_floor(n);
    assert(ARRIVAL_DISTANCE * ARRIVAL_DISTANCE == 2000 * 2000);
    lemma_isqrt_at_least(n, 2000);
    lemma_offset_within_distance(dx, dy, distance);
    assert(dy * dy + dx * dx == dx * dx + dy * dy);
    lemma_offset_within_distance(dy, dx, distance);
    lemma_axis_step(from.x, target.x, distance, delta);
    lemma_axis_step(from.y, target.y, distance, delta);
    let velocity = walking_velocity(from, target);
    let after = transform_after_move(pet, transform, motion, delta).translation.truncated();
    assert(after.x == displaced_component(from.x, velocity.x, delta));
    assert(after.y == displaced_component(from.y, velocity.y, delta));
    lemma_square_shrinks(target.x - after.x, dx);
    lemma_square_shrinks(target.y - after.y, dy);
    assert(SPEED * SPEED * UNIT == 225000);
    assert(stride_nanos(delta) == 225000 * delta);
    assert(NANOS_PER_SECOND == 1_000_000_000);
    let mx = if dx >= 0 {
        dx
    } else {
        -dx
    };
    let my = if dy >= 0 {
        dy
    } else {
        -dy
    };
    assert(mx * mx == dx * dx) by (nonlinear_arith)
        requires
            mx == dx || mx == -dx,
    ;
    assert(my * my == dy * dy) by (nonlinear_arith)
        requires
            my == dy || my == -dy,
    ;
    if mx >= my {
        lemma_major_axis(mx, my, distance);
        lemma_step_magnitude_is_positive(mx, distance, delta as int);
        lemma_step_magnitude_is_bounded(mx, distance, delta as int);
    } else {
        assert(my * my + mx * mx == mx * mx + my * my);
        lemma_major_axis(my, mx, distance);
        lemma_step_magnitude_is_positive(my, distance, delta as int);
        lemma_step_magnitude_is_bounded(my, distance, delta as int);
    }
}

/// Arrival ends the walk within the tick that finds the pet close enough:
/// the target is dropped, the pet is idle and at rest, and it stays where it
/// is. No other movement tick drops a target.
pub proof fn lemma_arrival_ends_walk(
    pet: Pet,
    transform: Transform,
    motion: MovingObjectBundle,
    delta: u64,
)
    requires
        pet.wf(),
        pet.move_target is Some,
    ensures
        arrives(pet, transform) <==> pet_after_move(pet, transform).move_target is None,
        arrives(pet, transform) ==> {
            &&& pet_after_move(pet, transform).state == PetState::Idle
            &&& velocity_after_move(pet, transform, motion, delta) == Vector3::zero()
            &&& transform_after_move(pet, transform, motion, delta) == transform
        },
{
    if arrives(pet, transform) {
        assert(0 * SPEED == 0);
        assert(0 * (delta as int) == 0);
    }
}

/// The pet, its placement and its kinematics after one movement tick for
/// each of `deltas`, in order.
pub open spec fn moved_all(
    pet: Pet,
    transform: Transform,
    motion: MovingObjectBundle,
    deltas: Seq<u64>,
) -> (Pet, Transform, MovingObjectBundle)
    decreases deltas.len(),
{
    if deltas.len() == 0 {
        (pet, transform, motion)
    } else {
        let (p, t, m) = moved_all(pet, transform, motion, deltas.drop_last());
        (
            pet_after_move(p, t),
            transform_after_move(p, t, m, deltas.last()),
            MovingObjectBundle {
                velocity: Velocity { value: velocity_after_move(p, t, m, deltas.last()) },
                acceleration: m.acceleration,
            },
        )
    }
}

/// A tick on which a walking pet is sure to get closer: its stride is at
/// least one and a half sub-units and less than twice the arrival distance.
pub open spec fn is_steady_tick(delta: u64) -> bool {
    &&& 3 * NANOS_PER_SECOND <= 2 * stride_nanos(delta)
    &&& stride_nanos(delta) < 2 * ARRIVAL_DISTANCE * NANOS_PER_SECOND
}

/// Either the pet has arrived, or every tick so far has brought it closer.
proof fn lemma_walk_progress(
    pet: Pet,
    transform: Transform,
    motion: MovingObjectBundle,
    deltas: Seq<u64>,
)
    requires
        pet.state == PetState::Walking,
        pet.move_target is Some,
        forall|i: int| 0 <= i < deltas.len() ==> is_steady_tick(#[trigger] deltas[i]),
    ensures
        ({
            let target = pet.move_target->0;
            let (p, t, m) = moved_all(pet, transform, motion, deltas);
            let at_rest = motion.acceleration.value == Vector3::zero();
            &&& m.acceleration == motion.acceleration
            &&& {
                ||| {
                    &&& p == pet
                    &&& remaining_squared(t, target) + deltas.len() <= remaining_squared(
                        transform,
                        target,
                    )
                }
                ||| {
                    &&& p == pet.with_state(PetState::Idle)
                    &&& at_rest ==> m.velocity.value == Vector3::zero()
                    &&& at_rest ==> within_arrival(t.translation.truncated(), target)
                }
            }
        }),
    decreases deltas.len(),
{
    if deltas.len() > 0 {
        let target = pet.move_target->0;
        let delta = deltas.last();
        lemma_walk_progress(pet, transform, motion, deltas.drop_last());
        let (p, t, m) = moved_all(pet, transform, motion, deltas.drop_last());
        assert(is_steady_tick(delta));
        if p == pet {
            if keeps_walking(p, t) {
                let n = remaining_squared(t, target);
                assert(ARRIVAL_DISTANCE * ARRIVAL_DISTANCE == 2000 * 2000);
                lemma_isqrt_at_least(n, 2000);
                assert(NANOS_PER_SECOND == 1_000_000_000);
                lemma_walk_advances(p, t, m, delta);
            } else {
                assert(arrives(p, t));
                assert(0 * SPEED == 0);
                assert(0 * (delta as int) == 0);
            }
        } else {
            if motion.acceleration.value == Vector3::zero() {
                lemma_friction_shortens(Vector3::zero(), delta);
                assert(0 * SPEED == 0);
                assert(0 * (delta as int) == 0);
            }
        }
    }
}

/// A walk ends: a pet that walks to a target on steady ticks is idle and
/// without a target once there have been more ticks than the square of the
/// distance it set out with. When nothing accelerates it, it is then at
/// rest within the arrival distance of the target.
pub proof fn lemma_walk_arrives(
    pet: Pet,
    transform: Transform,
    motion: MovingObjectBundle,
    deltas: Seq<u64>,
)
    requires
        pet.state == PetState::Walking,
        pet.move_target is Some,
        forall|i: int| 0 <= i < deltas.len() ==> is_steady_tick(#[trigger] deltas[i]),
        deltas.len() > remaining_squared(transform, pet.move_target->0),
    ensures
        ({
            let target = pet.move_target->0;
            let (p, t, m) = moved_all(pet, transform, motion, deltas);
            &&& p.state == PetState::Idle
            &&& p.move_target is None
            &&& motion.acceleration.value == Vector3::zero() ==> {
                &&& m.velocity.value == Vector3::zero()
                &&& within_arrival(t.translation.truncated(), target)
            }
        }),
{
    let target = pet.move_target->0;
    let (p, t, m) = moved_all(pet, transform, motion, deltas);
    lemma_walk_progress(pet, transform, motion, deltas);
    let after = t.translation.truncated();
    assert((target.x - after.x) * (target.x - after.x) >= 0) by (nonlinear_arith);
    assert((target.y - after.y) * (target.y - after.y) >= 0) by (nonlinear_arith);
}

} // verus!
