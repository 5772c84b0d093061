//! The pet's behaviour state and its idle decay.

use vstd::prelude::*;
use crate::geometry::Point2;
use crate::timer::{Timer, TimerMode};

verus! {

/// Nanoseconds of rest after which the pet's mood decays one step.
pub const MAX_ALLOWED_IDLE: u64 = 15_000_000_000;

/// What the pet is doing. The state selects the animation, decides whether
/// the idle timer runs and whether the pet moves.
#[derive(Clone, Copy, Debug, PartialEq, Eq, Hash, Structural)]
pub enum PetState {
    Chilling,
    Dragged,
    Eating,
    Idle,
    Jumping,
    SendingLove,
    Sitting,
    Walking,
}

/// The pet: its state, the countdown of its idle decay, and where it is
/// walking to.
#[derive(Clone, Copy, Debug, PartialEq, Eq, Structural)]
pub struct Pet {
    pub state: PetState,
    pub idle_timer: Timer,
    pub move_target: Option<Point2>,
}

/// The mood that follows `state` when the idle timer runs out, if any does.
pub open spec fn decays_to(state: PetState) -> Option<PetState> {
    match state {
        PetState::Chilling | PetState::Idle => Some(PetState::Sitting),
        PetState::Sitting => Some(PetState::Eating),
        _ => None,
    }
}

impl Pet {
    /// A pet has a target only while it walks.
    pub open spec fn wf(self) -> bool {
        self.move_target is Some ==> self.state == PetState::Walking
    }

    /// The pet as it is created: chilling, with a full idle countdown and
    /// nowhere to go.
    pub open spec fn initial() -> Pet {
        Pet {
            state: PetState::Chilling,
            idle_timer: Timer::fresh(MAX_ALLOWED_IDLE, TimerMode::Once),
            move_target: None,
        }
    }

    /// The pet put into `new_state`. A pet that does not walk has no target.
    pub open spec fn with_state(self, new_state: PetState) -> Pet {
        Pet {
            state: new_state,
            move_target: if new_state == PetState::Walking {
                self.move_target
            } else {
                None
            },
            ..self
        }
    }

    /// The pet after `delta` nanoseconds without interaction.
    ///
    /// In a mood that decays the idle timer advances; when it runs out the
    /// pet takes the next mood and the timer starts over. In any other state
    /// nothing changes.
    pub open spec fn decayed(self, delta: u64) -> Pet {
        match decays_to(self.state) {
            Some(next) => {
                let timer = self.idle_timer.ticked(delta);
                if timer.finished {
                    Pet { idle_timer: timer.rewound(), ..self.with_state(next) }
                } else {
                    Pet { idle_timer: timer, ..self }
                }
            },
            None => self,
        }
    }

    /// The pet after one span of `delta` nanoseconds without interaction for
    /// each of `deltas`, in order.
    pub open spec fn decayed_all(self, deltas: Seq<u64>) -> Pet
        decreases deltas.len(),
    {
        if deltas.len() == 0 {
            self
        } else {
            self.decayed_all(deltas.drop_last()).decayed(deltas.last())
        }
    }

    /// Whether the idle countdown is running: single-shot and not run out.
    pub open spec fn counts_down(self) -> bool {
        &&& self.idle_timer.mode == TimerMode::Once
        &&& !self.idle_timer.finished
        &&& self.idle_timer.elapsed < self.idle_timer.duration
    }

    /// Puts the pet into `new_state`, dropping the target unless it walks.
    pub fn set_state(&mut self, new_state: PetState)
        ensures
            *final(self) == old(self).with_state(new_state),
            final(self).wf(),
    {
        if new_state != PetState::Walking {
            self.move_target = None;
        }
        if self.state == new_state {
            return ;
        }
        self.state = new_state;
    }
}

impl Default for Pet {
    fn default() -> (pet: Pet)
        ensures
            pet == Pet::initial(),
            pet.wf(),
    {
        Pet {
            idle_timer: Timer::new(MAX_ALLOWED_IDLE, TimerMode::Once),
            state: PetState::Chilling,
            move_target: None,
        }
    }
}

/// Advances the idle decay by `delta` nanoseconds.
pub fn update_state(pet: &mut Pet, delta: u64)
    ensures
        *final(pet) == old(pet).decayed(delta),
        old(pet).wf() ==> final(pet).wf(),
{
    match pet.state {
        PetState::Idle | PetState::Chilling => {
            pet.idle_timer.tick(delta);
            if pet.idle_timer.finished() {
                pet.set_state(PetState::Sitting);
                pet.idle_timer.reset();
            }
        },
        PetState::Sitting => {
            pet.idle_timer.tick(delta);
            if pet.idle_timer.finished() {
                pet.set_state(PetState::Eating);
                pet.idle_timer.reset();
            }
        },
        _ => {},
    }
}

/// The sum of `deltas`.
pub open spec fn total(deltas: Seq<u64>) -> int
    decreases deltas.len(),
{
    if deltas.len() == 0 {
        0
    } else {
        total(deltas.drop_last()) + deltas.last()
    }
}

/// A sum of durations is not negative.
pub proof fn lemma_total_is_not_negative(deltas: Seq<u64>)
    ensures
        0 <= total(deltas),
    decreases deltas.len(),
{
    if deltas.len() > 0 {
        lemma_total_is_not_negative(deltas.drop_last());
    }
}

/// The idle decay over two runs of spans is the decay over the first run
/// followed by the decay over the second.
pub proof fn lemma_decay_in_two_runs(pet: Pet, first: Seq<u64>, second: Seq<u64>)
    ensures
        pet.decayed_all(first + second) == pet.decayed_all(first).decayed_all(second),
    decreases second.len(),
{
    if second.len() == 0 {
        assert(first + second =~= first);
    } else {
        lemma_decay_in_two_runs(pet, first, second.drop_last());
        assert((first + second).drop_last() =~= first + second.drop_last());
        assert((first + second).last() == second.last());
    }
}

/// While the spans of rest add up to less than what is left of the idle
/// countdown, a pet in a mood that decays keeps its mood, and the countdown
/// has advanced by exactly their sum.
pub proof fn lemma_idle_decay_waits(pet: Pet, deltas: Seq<u64>)
    requires
        decays_to(pet.state) is Some,
        pet.counts_down(),
        pet.idle_timer.elapsed + total(deltas) < pet.idle_timer.duration,
    ensures
        pet.decayed_all(deltas).state == pet.state,
        pet.decayed_all(deltas).move_target == pet.move_target,
        pet.decayed_all(deltas).counts_down(),
        pet.decayed_all(deltas).idle_timer.duration == pet.idle_timer.duration,
        pet.decayed_all(deltas).idle_timer.elapsed == pet.idle_timer.elapsed + total(deltas),
    decreases deltas.len(),
{
    if deltas.len() > 0 {
        lemma_total_is_not_negative(deltas.drop_last());
        lemma_idle_decay_waits(pet, deltas.drop_last());
    }
}

/// The span on which the rest adds up to the idle countdown moves the pet to
/// the next mood, without a target and with the countdown started over.
pub proof fn lemma_idle_decay_fires(pet: Pet, deltas: Seq<u64>, last: u64)
    requires
        decays_to(pet.state) is Some,
        pet.counts_down(),
        pet.idle_timer.elapsed + total(deltas) < pet.idle_timer.duration,
        pet.idle_timer.elapsed + total(deltas) + last >= pet.idle_timer.duration,
    ensures
        pet.decayed_all(deltas.push(last)) == (Pet {
            state: decays_to(pet.state)->0,
            idle_timer: Timer::fresh(pet.idle_timer.duration, TimerMode::Once),
            move_target: None,
        }),
{
    lemma_idle_decay_waits(pet, deltas);
    assert(deltas.push(last).drop_last() =~= deltas);
    assert(deltas.push(last).last() == last);
}

/// A pet in a state that does not decay is not changed by rest. Eating is
/// such a state: the decay ends there.
pub proof fn lemma_rest_changes_nothing(pet: Pet, deltas: Seq<u64>)
    requires
        decays_to(pet.state) is None,
    ensures
        pet.decayed_all(deltas) == pet,
    decreases deltas.len(),
{
    if deltas.len() > 0 {
        lemma_rest_changes_nothing(pet, deltas.drop_last());
    }
}

/// The idle decay from start to end. A new pet chills until the rest adds
/// up to the idle limit; on that span it sits down. It sits until the rest
/// since then adds up to the limit again; on that span it starts eating.
/// After that it eats, however long it is left alone.
pub proof fn lemma_idle_decay_chain(
    chilling: Seq<u64>,
    sits_down: u64,
    sitting: Seq<u64>,
    starts_eating: u64,
    eating: Seq<u64>,
)
    requires
        total(chilling) < MAX_ALLOWED_IDLE <= total(chilling) + sits_down,
        total(sitting) < MAX_ALLOWED_IDLE <= total(sitting) + starts_eating,
    ensures
        Pet::initial().decayed_all(chilling).state == PetState::Chilling,
        Pet::initial().decayed_all(chilling.push(sits_down)).state == PetState::Sitting,
        Pet::initial().decayed_all(chilling.push(sits_down) + sitting).state == PetState::Sitting,
        Pet::initial().decayed_all(
            chilling.push(sits_down) + sitting.push(starts_eating),
        ).state == PetState::Eating,
        Pet::initial().decayed_all(
            chilling.push(sits_down) + sitting.push(starts_eating) + eating,
        ).state == PetState::Eating,
{
    let start = Pet::initial();
    lemma_idle_decay_waits(start, chilling);
    lemma_idle_decay_fires(start, chilling, sits_down);
    let sat = start.decayed_all(chilling.push(sits_down));
    lemma_decay_in_two_runs(start, chilling.push(sits_down), sitting);
    lemma_idle_decay_waits(sat, sitting);
    lemma_decay_in_two_runs(start, chilling.push(sits_down), sitting.push(starts_eating));
    lemma_idle_decay_fires(sat, sitting, starts_eating);
    let fed = sat.decayed_all(sitting.push(starts_eating));
    lemma_decay_in_two_runs(
        start,
        chilling.push(sits_down) + sitting.push(starts_eating),
        eating,
    );
    lemma_rest_changes_nothing(fed, eating);
}

} // verus!
