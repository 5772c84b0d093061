use desktop_pet::animation::{
    advance_frame, update_animation, AnimationConfig, FPS, NUM_FRAMES, NUM_STATES,
};
use desktop_pet::pet::{Pet, PetState};
use desktop_pet::timer::{Timer, TimerMode};

const ALL: [PetState; 8] = [
    PetState::Chilling,
    PetState::Dragged,
    PetState::Eating,
    PetState::Idle,
    PetState::Jumping,
    PetState::SendingLove,
    PetState::Sitting,
    PetState::Walking,
];

fn pet_in(state: PetState) -> Pet {
    let mut pet = Pet::default();
    pet.set_state(state);
    pet
}

#[test]
fn frame_ranges() {
    assert_eq!(AnimationConfig::get_frame_range(&PetState::Chilling), (1, 60));
    assert_eq!(AnimationConfig::get_frame_range(&PetState::Dragged), (61, 68));
    assert_eq!(AnimationConfig::get_frame_range(&PetState::Eating), (122, 145));
    assert_eq!(AnimationConfig::get_frame_range(&PetState::Idle), (183, 220));
    assert_eq!(AnimationConfig::get_frame_range(&PetState::Jumping), (244, 254));
    assert_eq!(AnimationConfig::get_frame_range(&PetState::SendingLove), (305, 365));
    assert_eq!(AnimationConfig::get_frame_range(&PetState::Sitting), (366, 366));
    assert_eq!(AnimationConfig::get_frame_range(&PetState::Walking), (427, 434));
}

#[test]
fn frame_ranges_are_in_order_inside_the_atlas_and_apart() {
    assert_eq!(NUM_FRAMES * NUM_STATES, 488);
    for a in ALL {
        let (first, last) = AnimationConfig::get_frame_range(&a);
        assert!(first <= last);
        assert!(last < NUM_FRAMES * NUM_STATES);
        for b in ALL {
            if a != b {
                let (other_first, other_last) = AnimationConfig::get_frame_range(&b);
                assert!(last < other_first || other_last < first);
            }
        }
    }
}

#[test]
fn clock_runs_at_twelve_frames_per_second() {
    assert_eq!(FPS, 12);
    let config = AnimationConfig::new(FPS);
    assert_eq!(config.frame_timer, Timer::new(83_333_333, TimerMode::Repeating));
    assert_eq!(AnimationConfig::new(1).frame_timer.duration(), 1_000_000_000);
    assert_eq!(AnimationConfig::new(255).frame_timer.duration(), 3_921_568);
}

#[test]
fn frame_advances_by_one_inside_the_window() {
    assert_eq!(advance_frame(&PetState::Chilling, 1), 2);
    assert_eq!(advance_frame(&PetState::Chilling, 59), 60);
    assert_eq!(advance_frame(&PetState::Walking, 427), 428);
}

#[test]
fn last_frame_wraps_to_the_first() {
    for state in ALL {
        let (first, last) = AnimationConfig::get_frame_range(&state);
        assert_eq!(advance_frame(&state, last), first);
    }
}

#[test]
fn frame_outside_the_window_resets_to_the_first() {
    assert_eq!(advance_frame(&PetState::Chilling, 0), 1);
    assert_eq!(advance_frame(&PetState::Chilling, 61), 1);
    assert_eq!(advance_frame(&PetState::Walking, 30), 427);
    assert_eq!(advance_frame(&PetState::Walking, 435), 427);
    assert_eq!(advance_frame(&PetState::Dragged, usize::MAX), 61);
}

#[test]
fn single_frame_window_stays_on_its_frame() {
    assert_eq!(advance_frame(&PetState::Sitting, 366), 366);
    assert_eq!(advance_frame(&PetState::Sitting, 5), 366);
}

#[test]
fn repeated_stepping_cycles_through_the_window() {
    for state in ALL {
        let (first, last) = AnimationConfig::get_frame_range(&state);
        let count = last - first + 1;
        let mut index = first;
        let mut steps = 0;
        while steps < 3 * count {
            index = advance_frame(&state, index);
            steps += 1;
            assert!(first <= index && index <= last);
            assert_eq!(index, first + steps % count);
        }
    }
}

#[test]
fn animation_steps_when_a_frame_period_has_passed() {
    let mut config = AnimationConfig::new(FPS);
    let mut index = Some(1);
    let pet = pet_in(PetState::Chilling);
    update_animation(&mut config, &mut index, &pet, 83_333_332);
    assert_eq!(index, Some(1));
    assert_eq!(config.frame_timer.elapsed(), 83_333_332);
    update_animation(&mut config, &mut index, &pet, 1);
    assert_eq!(index, Some(2));
    assert_eq!(config.frame_timer.elapsed(), 0);
    assert!(!config.frame_timer.just_finished());
}

#[test]
fn animation_steps_once_however_long_the_frame_was() {
    let mut config = AnimationConfig::new(FPS);
    let mut index = Some(10);
    let pet = pet_in(PetState::Chilling);
    update_animation(&mut config, &mut index, &pet, 1_000_000_000);
    assert_eq!(index, Some(11));
    assert_eq!(config.frame_timer.elapsed(), 0);
}

#[test]
fn animation_jumps_to_the_window_of_a_new_state() {
    let mut config = AnimationConfig::new(FPS);
    let mut index = Some(30);
    update_animation(&mut config, &mut index, &pet_in(PetState::Jumping), 90_000_000);
    assert_eq!(index, Some(244));
    update_animation(&mut config, &mut index, &pet_in(PetState::Jumping), 90_000_000);
    assert_eq!(index, Some(245));
}

#[test]
fn sprite_without_an_atlas_is_left_alone() {
    let mut config = AnimationConfig::new(FPS);
    let mut index = None;
    update_animation(&mut config, &mut index, &pet_in(PetState::Chilling), 100_000_000);
    assert_eq!(index, None);
    // The clock wrapped but was not started over.
    assert_eq!(config.frame_timer.elapsed(), 100_000_000 - 83_333_333);
    assert!(config.frame_timer.just_finished());
}
