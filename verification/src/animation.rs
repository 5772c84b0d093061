//! Animation frame selection: each state owns a window of the sprite atlas,
//! and a fixed-rate timer steps the frame cursor through it.

use vstd::prelude::*;
use crate::arith::NANOS_PER_SECOND;
use crate::pet::{Pet, PetState};
use crate::timer::{Timer, TimerMode};

verus! {

/// Frames per row of the sprite atlas.
pub const NUM_FRAMES: usize = 61;

/// Rows of the sprite atlas, one per state.
pub const NUM_STATES: usize = 8;

/// Animation frames per second.
pub const FPS: u8 = 12;

/// The animation clock of one pet.
#[derive(Clone, Copy, Debug, PartialEq, Eq, Structural)]
pub struct AnimationConfig {
    pub frame_timer: Timer,
}

/// The first and the last atlas index of the frames that show `state`.
pub open spec fn frame_range(state: PetState) -> (usize, usize) {
    match state {
        PetState::Chilling => (1, 60),
        PetState::Dragged => (61, 68),
        PetState::Eating => (122, 145),
        PetState::Idle => (183, 220),
        PetState::Jumping => (244, 254),
        PetState::SendingLove => (305, 365),
        PetState::Sitting => (366, 366),
        PetState::Walking => (427, 434),
    }
}

/// Whether `index` is a frame of `state`.
pub open spec fn in_frame_range(state: PetState, index: usize) -> bool {
    frame_range(state).0 <= index <= frame_range(state).1
}

/// The frame that follows `index` while the pet is in `state`: the next one
/// inside the state's window, and the window's first frame from its last
/// frame or from anywhere outside the window.
pub open spec fn next_frame(state: PetState, index: usize) -> usize {
    if frame_range(state).0 <= index < frame_range(state).1 {
        (index + 1) as usize
    } else {
        frame_range(state).0
    }
}

/// The frame reached from `index` by stepping `steps` times in `state`.
pub open spec fn frame_after(state: PetState, index: usize, steps: nat) -> usize
    decreases steps,
{
    if steps == 0 {
        index
    } else {
        next_frame(state, frame_after(state, index, (steps - 1) as nat))
    }
}

/// How many frames the window of `state` holds.
pub open spec fn frame_count(state: PetState) -> int {
    frame_range(state).1 - frame_range(state).0 + 1
}

/// The time between two frames at `fps` frames per second, in nanoseconds.
pub open spec fn frame_period(fps: u8) -> u64 {
    (NANOS_PER_SECOND as int / fps as int) as u64
}

impl AnimationConfig {
    /// The animation clock after a frame that lasted `delta` nanoseconds,
    /// given whether the sprite has an atlas cursor to step. The clock is
    /// started over only when a frame was stepped.
    pub open spec fn advanced(self, delta: u64, has_atlas: bool) -> AnimationConfig {
        let timer = self.frame_timer.ticked(delta);
        if timer.just_finished && has_atlas {
            AnimationConfig { frame_timer: timer.rewound() }
        } else {
            AnimationConfig { frame_timer: timer }
        }
    }

    /// Whether a frame that lasts `delta` nanoseconds steps the animation.
    pub open spec fn is_due(self, delta: u64) -> bool {
        self.frame_timer.ticked(delta).just_finished
    }

    /// The sprite's atlas cursor after a frame that lasted `delta`
    /// nanoseconds with the pet in `state`: stepped once when the animation
    /// is due, and otherwise as it was. A sprite without an atlas has none.
    pub open spec fn cursor_after(
        self,
        atlas_index: Option<usize>,
        state: PetState,
        delta: u64,
    ) -> Option<usize> {
        match atlas_index {
            Some(index) => Some(
                if self.is_due(delta) {
                    next_frame(state, index)
                } else {
                    index
                },
            ),
            None => None,
        }
    }

    /// The window of atlas indices that shows `state`, first and last.
    pub fn get_frame_range(state: &PetState) -> (range: (usize, usize))
        ensures
            range == frame_range(*state),
    {
        match state {
            PetState::Chilling => (1, 60),
            PetState::Dragged => (61, 68),
            PetState::Eating => (122, 145),
            PetState::Idle => (183, 220),
            PetState::Jumping => (244, 254),
            PetState::SendingLove => (305, 365),
            PetState::Sitting => (366, 366),
            PetState::Walking => (427, 434),
        }
    }

    /// An animation clock that steps `fps` times per second.
    pub fn new(fps: u8) -> (config: AnimationConfig)
        requires
            fps > 0,
        ensures
            config.frame_timer == Timer::fresh(frame_period(fps), TimerMode::Repeating),
    {
        AnimationConfig { frame_timer: Timer::new(NANOS_PER_SECOND / (fps as u64), TimerMode::Repeating) }
    }
}

/// Steps the frame cursor of a pet in `state` once.
pub fn advance_frame(state: &PetState, index: usize) -> (next: usize)
    ensures
        next == next_frame(*state, index),
        in_frame_range(*state, next),
{
    let (first_sprite_index, last_sprite_index) = AnimationConfig::get_frame_range(state);
    if index >= last_sprite_index || index < first_sprite_index {
        first_sprite_index
    } else {
        index + 1
    }
}

/// Advances the animation clock by `delta` nanoseconds and, when a frame is
/// due, steps the sprite's atlas cursor within the window of the pet's state.
/// A sprite without an atlas (`None`) is left alone.
pub fn update_animation(
    config: &mut AnimationConfig,
    atlas_index: &mut Option<usize>,
    pet: &Pet,
    delta: u64,
)
    ensures
        *final(config) == old(config).advanced(delta, *old(atlas_index) is Some),
        *final(atlas_index) == old(config).cursor_after(*old(atlas_index), pet.state, delta),
{
    config.frame_timer.tick(delta);
    if config.frame_timer.just_finished() {
        match *atlas_index {
            None => {
                return ;
            },
            Some(index) => {
                *atlas_index = Some(advance_frame(&pet.state, index));
            },
        }
        config.frame_timer.reset();
    }
}

/// Every state's window holds at least one frame and lies inside the atlas.
pub proof fn lemma_frame_ranges_are_valid(state: PetState)
    ensures
        frame_range(state).0 <= frame_range(state).1,
        frame_range(state).1 < NUM_FRAMES * NUM_STATES,
{
}

/// The windows of two different states share no frame.
pub proof fn lemma_frame_ranges_are_disjoint(a: PetState, b: PetState, index: usize)
    requires
        a != b,
    ensures
        !(in_frame_range(a, index) && in_frame_range(b, index)),
{
}

/// One step from a state's last frame leads to its first frame.
pub proof fn lemma_last_frame_wraps(state: PetState)
    ensures
        next_frame(state, frame_range(state).1) == frame_range(state).0,
{
}

/// However often the cursor is stepped, and wherever it started, it is
/// inside the state's window after the first step.
pub proof fn lemma_frames_stay_in_range(state: PetState, index: usize, steps: nat)
    requires
        steps >= 1,
    ensures
        in_frame_range(state, frame_after(state, index, steps)),
    decreases steps,
{
    if steps > 1 {
        lemma_frames_stay_in_range(state, index, (steps - 1) as nat);
    }
}

/// Stepping cycles through the window: from a frame of the window, `steps`
/// steps lead to the frame `steps` places further on, counted around the
/// window.
pub proof fn lemma_frames_cycle(state: PetState, index: usize, steps: nat)
    requires
        in_frame_range(state, index),
    ensures
        frame_after(state, index, steps) == frame_range(state).0 + (index - frame_range(state).0
            + steps) % frame_count(state),
    decreases steps,
{
    let first = frame_range(state).0 as int;
    let count = frame_count(state);
    if steps == 0 {
        assert((index - first) % count == index - first) by (nonlinear_arith)
            requires
                0 <= index - first < count,
        ;
    } else {
        lemma_frames_cycle(state, index, (steps - 1) as nat);
        let before = index - first + steps - 1;
        assert((before + 1) % count == if before % count == count - 1 {
            0
        } else {
            before % count + 1
        }) by (nonlinear_arith)
            requires
                0 <= before,
                0 < count,
        ;
        assert(0 <= before % count < count) by (nonlinear_arith)
            requires
                0 <= before,
                0 < count,
        ;
    }
}

} // verus!
