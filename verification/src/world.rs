//! The whole simulation: one pet, its pointer record, its placement, its
//! kinematics and its animation, advanced one frame at a time.
//!
//! A frame samples the input, lets the idle decay run, classifies the click,
//! moves the pet and steps the animation, in that order.

use vstd::prelude::*;
use crate::animation::{AnimationConfig, FPS, frame_period, frame_range, update_animation};
use crate::clicks::{Click, DOUBLE_CLICK_THRESHOLD, DRAG_THRESHOLD, handle_clicks};
use crate::dq::{DQ, EdgeEvent, edge_between, update_cursor_pos};
use crate::geometry::{Facing, PET_SCALE, Point2, Transform, Vector3, hit_box_contains};
use crate::movement::{
    Acceleration, MovingObjectBundle, Velocity, integrate_movement, pet_after_move,
    transform_after_move, velocity_after_move,
};
use crate::pet::{MAX_ALLOWED_IDLE, Pet, PetState, lemma_idle_decay_chain, total, update_state};
use crate::timer::{Timer, TimerMode, elapsed_between};

verus! {

/// What the host hands over for one frame.
#[derive(Clone, Copy, Debug, PartialEq, Eq, Structural)]
pub struct FrameInput {
    /// Whether the primary button is down.
    pub pressed: bool,
    /// The cursor in world coordinates, or `None` while the host cannot
    /// tell where it is.
    pub cursor: Option<Point2>,
    /// The monotonic time of the frame, in nanoseconds.
    pub now: u64,
    /// The time since the previous frame, in nanoseconds.
    pub delta: u64,
}

/// Everything the simulation owns.
#[derive(Clone, Copy, Debug, PartialEq, Eq, Structural)]
pub struct World {
    pub pet: Pet,
    pub dq: DQ,
    pub transform: Transform,
    pub motion: MovingObjectBundle,
    pub animation: AnimationConfig,
    /// The sprite's cursor into the atlas, if the sprite has an atlas.
    pub atlas_index: Option<usize>,
}

impl World {
    /// The world at start-up: a chilling pet at the origin, at rest, showing
    /// the first frame of its state, and a pointer that has done nothing yet.
    pub open spec fn initial(now: u64) -> World {
        World {
            pet: Pet::initial(),
            dq: DQ::initial(now),
            transform: Transform {
                translation: Vector3::zero(),
                scale_x: PET_SCALE,
                scale_y: PET_SCALE,
                facing: Facing::Right,
            },
            motion: MovingObjectBundle {
                velocity: Velocity { value: Vector3::zero() },
                acceleration: Acceleration { value: Vector3::zero() },
            },
            animation: AnimationConfig {
                frame_timer: Timer::fresh(frame_period(FPS), TimerMode::Repeating),
            },
            atlas_index: Some(frame_range(PetState::Chilling).0),
        }
    }

    /// The edge event that `input` causes in this world, if the frame runs.
    pub open spec fn edge(self, input: FrameInput) -> Option<EdgeEvent> {
        match input.cursor {
            Some(_) => Some(edge_between(self.dq.was_pressed, input.pressed)),
            None => None,
        }
    }

    /// The click that `input` amounts to, once the pointer is sampled at
    /// `cursor` and the idle decay has run.
    pub open spec fn click(self, input: FrameInput, cursor: Point2) -> Click {
        Click {
            dq: self.dq.sampled(input.pressed, cursor),
            transform: self.transform,
            pet: self.pet.decayed(input.delta),
            event: edge_between(self.dq.was_pressed, input.pressed),
            now: input.now,
        }
    }

    /// The world after the frame described by `input`. A frame without a
    /// cursor position changes nothing.
    pub open spec fn after(self, input: FrameInput) -> World {
        match input.cursor {
            None => self,
            Some(cursor) => {
                let click = self.click(input, cursor);
                let pet = click.pet_after();
                let transform = click.transform_after();
                let moved = pet_after_move(pet, transform);
                World {
                    pet: moved,
                    dq: click.dq_after(),
                    transform: transform_after_move(pet, transform, self.motion, input.delta),
                    motion: MovingObjectBundle {
                        velocity: Velocity {
                            value: velocity_after_move(pet, transform, self.motion, input.delta),
                        },
                        acceleration: self.motion.acceleration,
                    },
                    animation: self.animation.advanced(input.delta, self.atlas_index is Some),
                    atlas_index: self.animation.cursor_after(
                        self.atlas_index,
                        moved.state,
                        input.delta,
                    ),
                }
            },
        }
    }

    /// The world after the frames described by `inputs`, in order.
    pub open spec fn after_all(self, inputs: Seq<FrameInput>) -> World
        decreases inputs.len(),
    {
        if inputs.len() == 0 {
            self
        } else {
            self.after_all(inputs.drop_last()).after(inputs.last())
        }
    }

    /// Creates the world at start-up; `now` is the time of creation.
    pub fn new(now: u64) -> (world: World)
        ensures
            world == World::initial(now),
            world.pet.wf(),
    {
        let pet = Pet::default();
        let first_sprite_index = AnimationConfig::get_frame_range(&pet.state).0;
        World {
            pet,
            dq: DQ::new(now),
            transform: Transform::new(Vector3::new(0, 0, 0)),
            motion: MovingObjectBundle {
                velocity: Velocity::new(Vector3::new(0, 0, 0)),
                acceleration: Acceleration::new(Vector3::new(0, 0, 0)),
            },
            animation: AnimationConfig::new(FPS),
            atlas_index: Some(first_sprite_index),
        }
    }

    /// Runs one frame.
    pub fn tick(&mut self, input: &FrameInput)
        ensures
            *final(self) == old(self).after(*input),
            old(self).pet.wf() ==> final(self).pet.wf(),
    {
        let cursor = match input.cursor {
            None => {
                return ;
            },
            Some(cursor) => cursor,
        };
        let event = update_cursor_pos(&mut self.dq, input.pressed, cursor);
        update_state(&mut self.pet, input.delta);
        handle_clicks(&mut self.dq, &mut self.transform, &mut self.pet, event, input.now);
        integrate_movement(&mut self.pet, &mut self.transform, &mut self.motion, input.delta);
        update_animation(&mut self.animation, &mut self.atlas_index, &self.pet, input.delta);
    }
}

/// The frame lengths of `inputs`.
pub open spec fn deltas_of(inputs: Seq<FrameInput>) -> Seq<u64> {
    inputs.map_values(|input: FrameInput| input.delta)
}

/// A frame that runs and in which the button is up.
pub open spec fn is_quiet(input: FrameInput) -> bool {
    input.cursor is Some && !input.pressed
}

/// A frame never leaves a target with a pet that does not walk.
pub proof fn lemma_frame_keeps_target_rule(world: World, input: FrameInput)
    requires
        world.pet.wf(),
    ensures
        world.after(input).pet.wf(),
{
}

/// In every world that frames can lead to from start-up, the pet has a
/// target only while it walks.
pub proof fn lemma_target_only_while_walking(now: u64, inputs: Seq<FrameInput>)
    ensures
        World::initial(now).after_all(inputs).pet.wf(),
    decreases inputs.len(),
{
    if inputs.len() > 0 {
        lemma_target_only_while_walking(now, inputs.drop_last());
        lemma_frame_keeps_target_rule(
            World::initial(now).after_all(inputs.drop_last()),
            inputs.last(),
        );
    }
}

/// The last click is never older than a time that no frame since is older
/// than.
proof fn lemma_last_click_is_recent(world: World, inputs: Seq<FrameInput>, since: u64)
    requires
        world.dq.last_click_time >= since,
        forall|i: int| 0 <= i < inputs.len() ==> (#[trigger] inputs[i]).now >= since,
    ensures
        world.after_all(inputs).dq.last_click_time >= since,
    decreases inputs.len(),
{
    if inputs.len() > 0 {
        lemma_last_click_is_recent(world, inputs.drop_last(), since);
    }
}

/// While the button stays down, the pointer record stays as the press left
/// it: button down, and armed since the same time.
proof fn lemma_press_stays_armed(world: World, inputs: Seq<FrameInput>, start: u64)
    requires
        world.dq.was_pressed,
        world.dq.held_start_time == Some(start),
        forall|i: int| 0 <= i < inputs.len() ==> (#[trigger] inputs[i]).pressed,
    ensures
        world.after_all(inputs).dq.was_pressed,
        world.after_all(inputs).dq.held_start_time == Some(start),
    decreases inputs.len(),
{
    if inputs.len() > 0 {
        lemma_press_stays_armed(world, inputs.drop_last(), start);
    }
}

/// Double click: a press on the pet that comes less than the double-click
/// threshold after an earlier press makes the pet jump, whatever state it
/// was in and whatever happened in the frames between, as long as their
/// times do not run backwards.
pub proof fn lemma_double_click_jumps(
    world: World,
    first: FrameInput,
    between: Seq<FrameInput>,
    second: FrameInput,
)
    requires
        world.edge(first) == Some(EdgeEvent::PressStart),
        forall|i: int| 0 <= i < between.len() ==> (#[trigger] between[i]).now >= first.now,
        world.after(first).after_all(between).edge(second) == Some(EdgeEvent::PressStart),
        hit_box_contains(world.after(first).after_all(between).transform, second.cursor->0),
        second.now < first.now + DOUBLE_CLICK_THRESHOLD,
    ensures
        world.after(first).after_all(between).after(second).pet.state == PetState::Jumping,
{
    let pressed = world.after(first);
    assert(pressed.dq.last_click_time == first.now);
    lemma_last_click_is_recent(pressed, between, first.now);
    let met = pressed.after_all(between);
    let click = met.click(second, second.cursor->0);
    assert(click.is_double_click());
}

/// Drag: after a press on the pet that is not a double click, a frame in
/// which the button is still down on the pet, later than the drag threshold
/// after the press and with no release since, leaves the pet dragged.
pub proof fn lemma_hold_becomes_drag(
    world: World,
    press: FrameInput,
    held: Seq<FrameInput>,
    last: FrameInput,
)
    requires
        press.cursor is Some,
        world.click(press, press.cursor->0).arms_drag(),
        forall|i: int| 0 <= i < held.len() ==> (#[trigger] held[i]).pressed,
        last.pressed,
        last.cursor is Some,
        hit_box_contains(world.after(press).after_all(held).transform, last.cursor->0),
        elapsed_between(last.now, press.now) > DRAG_THRESHOLD,
    ensures
        world.after(press).after_all(held).after(last).pet.state == PetState::Dragged,
{
    let pressed = world.after(press);
    assert(pressed.dq.held_start_time == Some(press.now));
    lemma_press_stays_armed(pressed, held, press.now);
    let met = pressed.after_all(held);
    let click = met.click(last, last.cursor->0);
    assert(click.event == EdgeEvent::HeldWhilePressed);
    assert(click.pet.state == PetState::Dragged <==> met.pet.state == PetState::Dragged);
    assert(click.next_state() == PetState::Dragged);
}

/// Short press: after a press on the pet that is not a double click, letting
/// go on the pet sooner than the drag threshold after the press, with the
/// pet not dragged by then, makes the pet send love.
pub proof fn lemma_short_press_sends_love(
    world: World,
    press: FrameInput,
    held: Seq<FrameInput>,
    release: FrameInput,
)
    requires
        press.cursor is Some,
        world.click(press, press.cursor->0).arms_drag(),
        forall|i: int| 0 <= i < held.len() ==> (#[trigger] held[i]).pressed,
        !release.pressed,
        release.cursor is Some,
        hit_box_contains(world.after(press).after_all(held).transform, release.cursor->0),
        elapsed_between(release.now, press.now) < DRAG_THRESHOLD,
        world.after(press).after_all(held).pet.state != PetState::Dragged,
    ensures
        world.after(press).after_all(held).after(release).pet.state == PetState::SendingLove,
{
    let pressed = world.after(press);
    assert(pressed.dq.held_start_time == Some(press.now));
    lemma_press_stays_armed(pressed, held, press.now);
    let met = pressed.after_all(held);
    let click = met.click(release, release.cursor->0);
    assert(click.event == EdgeEvent::ReleaseEdge);
    assert(click.pet.state == PetState::Dragged <==> met.pet.state == PetState::Dragged);
    assert(click.sends_love());
}

/// Drag release: a dragged pet sits down in the frame in which the button
/// is found up, wherever the cursor is.
pub proof fn lemma_release_ends_drag(world: World, release: FrameInput)
    requires
        world.pet.state == PetState::Dragged,
        release.cursor is Some,
        !release.pressed,
    ensures
        world.after(release).pet.state == PetState::Sitting,
        world.after(release).dq.held_start_time is None,
{
}

/// Drag tracking: while the pet is dragged and the button stays down, the
/// pet sits under the cursor at the end of the frame, on its layer, and is
/// still dragged.
pub proof fn lemma_dragged_pet_follows_cursor(world: World, input: FrameInput)
    requires
        world.pet.state == PetState::Dragged,
        world.dq.was_pressed,
        input.pressed,
        input.cursor is Some,
    ensures
        world.after(input).pet.state == PetState::Dragged,
        world.after(input).transform.translation == input.cursor->0.extended(
            world.transform.translation.z,
        ),
{
}

/// Left alone, the world only lets the idle decay run: while the button is
/// up and the pet is neither dragged nor walking, frames without a press
/// change the pet exactly as that much rest does.
pub proof fn lemma_quiet_frames_only_decay(world: World, inputs: Seq<FrameInput>)
    requires
        !world.dq.was_pressed,
        world.pet.state != PetState::Dragged,
        world.pet.state != PetState::Walking,
        forall|i: int| 0 <= i < inputs.len() ==> is_quiet(#[trigger] inputs[i]),
    ensures
        world.after_all(inputs).pet == world.pet.decayed_all(deltas_of(inputs)),
        !world.after_all(inputs).dq.was_pressed,
        world.after_all(inputs).pet.state != PetState::Dragged,
        world.after_all(inputs).pet.state != PetState::Walking,
    decreases inputs.len(),
{
    if inputs.len() > 0 {
        lemma_quiet_frames_only_decay(world, inputs.drop_last());
        assert(deltas_of(inputs).drop_last() =~= deltas_of(inputs.drop_last()));
        assert(deltas_of(inputs).last() == inputs.last().delta);
        assert(is_quiet(inputs.last()));
    }
}

/// The idle decay of a world that is left alone from the start: the pet
/// chills until the frames add up to the idle limit and sits down on the
/// frame that completes it, sits until the frames since add up to the limit
/// again and starts eating on the frame that completes that, and then eats
/// for as long as nothing is pressed.
pub proof fn lemma_world_left_alone(
    now: u64,
    chilling: Seq<FrameInput>,
    sits_down: FrameInput,
    sitting: Seq<FrameInput>,
    starts_eating: FrameInput,
    eating: Seq<FrameInput>,
)
    requires
        forall|i: int| 0 <= i < chilling.len() ==> is_quiet(#[trigger] chilling[i]),
        forall|i: int| 0 <= i < sitting.len() ==> is_quiet(#[trigger] sitting[i]),
        forall|i: int| 0 <= i < eating.len() ==> is_quiet(#[trigger] eating[i]),
        is_quiet(sits_down),
        is_quiet(starts_eating),
        total(deltas_of(chilling)) < MAX_ALLOWED_IDLE <= total(deltas_of(chilling))
            + sits_down.delta,
        total(deltas_of(sitting)) < MAX_ALLOWED_IDLE <= total(deltas_of(sitting))
            + starts_eating.delta,
    ensures
        World::initial(now).after_all(chilling).pet.state == PetState::Chilling,
        World::initial(now).after_all(chilling.push(sits_down)).pet.state == PetState::Sitting,
        World::initial(now).after_all(chilling.push(sits_down) + sitting).pet.state
            == PetState::Sitting,
        World::initial(now).after_all(
            chilling.push(sits_down) + sitting.push(starts_eating),
        ).pet.state == PetState::Eating,
        World::initial(now).after_all(
            chilling.push(sits_down) + sitting.push(starts_eating) + eating,
        ).pet.state == PetState::Eating,
{
    let world = World::initial(now);
    let first = chilling.push(sits_down);
    let second = sitting.push(starts_eating);
    lemma_idle_decay_chain(
        deltas_of(chilling),
        sits_down.delta,
        deltas_of(sitting),
        starts_eating.delta,
        deltas_of(eating),
    );
    lemma_quiet_frames_only_decay(world, chilling);
    lemma_quiet_frames_only_decay(world, first);
    lemma_quiet_frames_only_decay(world, first + sitting);
    lemma_quiet_frames_only_decay(world, first + second);
    lemma_quiet_frames_only_decay(world, first + second + eating);
    assert(deltas_of(first) =~= deltas_of(chilling).push(sits_down.delta));
    assert(deltas_of(second) =~= deltas_of(sitting).push(starts_eating.delta));
    assert(deltas_of(first + sitting) =~= deltas_of(first) + deltas_of(sitting));
    assert(deltas_of(first + second) =~= deltas_of(first) + deltas_of(second));
    assert(deltas_of(first + second + eating) =~= deltas_of(first) + deltas_of(second)
        + deltas_of(eating));
}

} // verus!
