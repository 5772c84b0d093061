//! Click classification: what a press, a hold or a release does to the pet.
//!
//! A second press on the pet within the double-click window makes it jump.
//! Any other press on the pet arms a drag; holding on beyond the drag
//! threshold drags the pet, letting go before it sends love. A press beside
//! the pet sends it walking to the cursor.

use vstd::prelude::*;
use crate::dq::{DQ, EdgeEvent};
use crate::geometry::{Transform, hit_box_contains, is_within_bounds};
use crate::pet::{Pet, PetState};
use crate::timer::{duration_since, elapsed_between};

verus! {

/// A press must be held longer than this, in nanoseconds, to become a drag;
/// released sooner it is a sign of affection.
pub const DRAG_THRESHOLD: u64 = 125_000_000;

/// Two presses on the pet closer together than this, in nanoseconds, are a
/// double click.
pub const DOUBLE_CLICK_THRESHOLD: u64 = 250_000_000;

/// One frame's edge event together with the state it meets.
pub struct Click {
    pub dq: DQ,
    pub transform: Transform,
    pub pet: Pet,
    pub event: EdgeEvent,
    pub now: u64,
}

impl Click {
    /// Whether the cursor is in the pet's hit-box. This is judged the same
    /// way whichever edge fired.
    pub open spec fn inside(self) -> bool {
        hit_box_contains(self.transform, self.dq.cursor_pos)
    }

    /// A press on the pet that follows the last press closely.
    pub open spec fn is_double_click(self) -> bool {
        &&& self.event is PressStart
        &&& self.inside()
        &&& elapsed_between(self.now, self.dq.last_click_time) < DOUBLE_CLICK_THRESHOLD
    }

    /// A press on the pet that is not a double click: it arms a drag.
    pub open spec fn arms_drag(self) -> bool {
        &&& self.event is PressStart
        &&& self.inside()
        &&& !self.is_double_click()
    }

    /// A press beside the pet: the pet walks to the cursor.
    pub open spec fn starts_walk(self) -> bool {
        self.event is PressStart && !self.inside()
    }

    /// The button stays down on the pet, longer than the drag threshold
    /// since the press was armed, and the pet is not dragged yet.
    pub open spec fn promotes_to_drag(self) -> bool {
        &&& self.event is HeldWhilePressed
        &&& self.inside()
        &&& self.dq.held_start_time matches Some(start)
        &&& elapsed_between(self.now, start) > DRAG_THRESHOLD
        &&& self.pet.state != PetState::Dragged
    }

    /// The button is let go on the pet.
    pub open spec fn releases_inside(self) -> bool {
        self.event is ReleaseEdge && self.inside()
    }

    /// The button is let go on the pet sooner than the drag threshold after
    /// the press was armed, and the pet is not dragged.
    pub open spec fn sends_love(self) -> bool {
        &&& self.releases_inside()
        &&& self.dq.held_start_time matches Some(start)
        &&& elapsed_between(self.now, start) < DRAG_THRESHOLD
        &&& self.pet.state != PetState::Dragged
    }

    /// The pet is dragged and the button is up, wherever the cursor is.
    pub open spec fn ends_drag(self) -> bool {
        !self.event.button_down() && self.pet.state == PetState::Dragged
    }

    /// The pet is dragged, or becomes so in this frame, and the button stays
    /// down: the pet follows the cursor. A double click consumes its frame.
    pub open spec fn pins_to_cursor(self) -> bool {
        &&& self.event.button_down()
        &&& !self.is_double_click()
        &&& !self.starts_walk()
        &&& (self.pet.state == PetState::Dragged || self.promotes_to_drag())
    }

    /// The state the pet is in after the frame.
    pub open spec fn next_state(self) -> PetState {
        if self.is_double_click() {
            PetState::Jumping
        } else if self.starts_walk() {
            PetState::Walking
        } else if self.promotes_to_drag() {
            PetState::Dragged
        } else if self.sends_love() {
            PetState::SendingLove
        } else if self.ends_drag() {
            PetState::Sitting
        } else {
            self.pet.state
        }
    }

    /// Whether the frame puts the pet into a state, be it the one it has.
    pub open spec fn transitions(self) -> bool {
        ||| self.is_double_click()
        ||| self.starts_walk()
        ||| self.promotes_to_drag()
        ||| self.sends_love()
        ||| self.ends_drag()
    }

    /// The pet after the frame. A press beside the pet sets the target; any
    /// other transition drops it.
    pub open spec fn pet_after(self) -> Pet {
        Pet {
            state: self.next_state(),
            move_target: if self.starts_walk() {
                Some(self.dq.cursor_pos)
            } else if self.transitions() {
                None
            } else {
                self.pet.move_target
            },
            ..self.pet
        }
    }

    /// The pointer record after the frame. Every press start is remembered
    /// as the last click; a press armed for a drag is remembered until the
    /// button is let go on the pet or a drag ends.
    pub open spec fn dq_after(self) -> DQ {
        DQ {
            last_click_time: if self.event is PressStart {
                self.now
            } else {
                self.dq.last_click_time
            },
            held_start_time: if self.arms_drag() {
                Some(self.now)
            } else if self.releases_inside() || self.ends_drag() {
                None
            } else {
                self.dq.held_start_time
            },
            ..self.dq
        }
    }

    /// The placement after the frame: a dragged pet sits under the cursor,
    /// on the layer it was on.
    pub open spec fn transform_after(self) -> Transform {
        if self.pins_to_cursor() {
            Transform {
                translation: self.dq.cursor_pos.extended(self.transform.translation.z),
                ..self.transform
            }
        } else {
            self.transform
        }
    }
}

/// Applies one frame's edge event, seen at time `now`, to the pet.
///
/// `event` is what the sampler reported for this frame and `dq.cursor_pos`
/// the position it recorded.
pub fn handle_clicks(
    dq: &mut DQ,
    sprite_transform: &mut Transform,
    pet: &mut Pet,
    event: EdgeEvent,
    now: u64,
)
    ensures
        ({
            let click = Click {
                dq: *old(dq),
                transform: *old(sprite_transform),
                pet: *old(pet),
                event,
                now,
            };
            &&& *final(dq) == click.dq_after()
            &&& *final(pet) == click.pet_after()
            &&& *final(sprite_transform) == click.transform_after()
        }),
        old(pet).wf() ==> final(pet).wf(),
{
    let cursor_pos = dq.cursor_pos;
    let cursor_on_pet = is_within_bounds(cursor_pos, sprite_transform);
    let cursor_pressed = event.is_button_down();

    if event == EdgeEvent::PressStart {
        let time_since_last = duration_since(now, dq.last_click_time);
        dq.last_click_time = now;
        if cursor_on_pet {
            if time_since_last < DOUBLE_CLICK_THRESHOLD {
                pet.set_state(PetState::Jumping);
                return ;
            } else {
                dq.held_start_time = Some(now);
            }
        } else {
            pet.move_target = Some(cursor_pos);
            pet.set_state(PetState::Walking);
        }
    }

    if cursor_pressed && cursor_on_pet {
        if let Some(start_time) = dq.held_start_time {
            if duration_since(now, start_time) > DRAG_THRESHOLD && pet.state != PetState::Dragged {
                pet.set_state(PetState::Dragged);
            }
        }
    }

    if event == EdgeEvent::ReleaseEdge && cursor_on_pet {
        if let Some(start_time) = dq.held_start_time {
            if duration_since(now, start_time) < DRAG_THRESHOLD && pet.state != PetState::Dragged {
                pet.set_state(PetState::SendingLove);
            }
        }
        dq.held_start_time = None;
    }

    if pet.state == PetState::Dragged {
        if !cursor_pressed {
            dq.held_start_time = None;
            pet.set_state(PetState::Sitting);
        } else {
            sprite_transform.translation = cursor_pos.extend(sprite_transform.translation.z);
        }
    }
}

} // verus!
