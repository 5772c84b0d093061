//! The behaviour core of an on-screen desktop pet.
//!
//! The crate turns per-frame pointer samples and elapsed time into behaviour
//! state transitions, a movement target, a position and an animation frame.
//!
//! Everything is integer arithmetic, so that every rule is exact: lengths
//! are thousandths of a world unit (`arith::UNIT` sub-units make one unit),
//! scales are thousandths, and times are nanoseconds. Coordinates and
//! velocities saturate at the range of an `i32`, and sums of time at the
//! range of a `u64`.
//!
//! A host calls `world::World::tick` once per frame with what it sampled,
//! and reads the pet's state, placement and animation frame from the world
//! afterwards. The stages of a frame are also available on their own:
//! `dq::update_cursor_pos`, `pet::update_state`, `clicks::handle_clicks`,
//! `movement::integrate_movement` and `animation::update_animation`.

pub mod arith;
pub mod geometry;
pub mod timer;
pub mod pet;
pub mod dq;
pub mod clicks;
pub mod animation;
pub mod movement;
pub mod motion_laws;
pub mod world;
