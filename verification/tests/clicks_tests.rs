use desktop_pet::clicks::{handle_clicks, DOUBLE_CLICK_THRESHOLD, DRAG_THRESHOLD};
use desktop_pet::dq::{update_cursor_pos, EdgeEvent, DQ};
use desktop_pet::geometry::{Point2, Transform, Vector3};
use desktop_pet::pet::{Pet, PetState};

const MS: u64 = 1_000_000;
const SECOND: u64 = 1_000_000_000;

struct Scene {
    dq: DQ,
    transform: Transform,
    pet: Pet,
}

fn scene() -> Scene {
    Scene { dq: DQ::new(0), transform: Transform::new(Vector3::new(0, 0, 5)), pet: Pet::default() }
}

/// One frame: sample the pointer, then classify.
fn frame(s: &mut Scene, pressed: bool, x: i32, y: i32, now: u64) -> EdgeEvent {
    let event = update_cursor_pos(&mut s.dq, pressed, Point2::new(x, y));
    handle_clicks(&mut s.dq, &mut s.transform, &mut s.pet, event, now);
    event
}

#[test]
fn thresholds() {
    assert_eq!(DRAG_THRESHOLD, 125 * MS);
    assert_eq!(DOUBLE_CLICK_THRESHOLD, 250 * MS);
}

#[test]
fn new_pointer_record() {
    let dq = DQ::new(77);
    assert_eq!(dq.last_click_time, 77);
    assert_eq!(dq.held_start_time, None);
    assert_eq!(dq.cursor_pos, Point2::new(0, 0));
    assert!(!dq.was_pressed);
}

#[test]
fn sampler_reports_the_four_edges() {
    let mut dq = DQ::new(0);
    assert_eq!(update_cursor_pos(&mut dq, false, Point2::new(1, 1)), EdgeEvent::NoChange);
    assert_eq!(update_cursor_pos(&mut dq, true, Point2::new(2, 2)), EdgeEvent::PressStart);
    assert!(dq.was_pressed);
    assert_eq!(update_cursor_pos(&mut dq, true, Point2::new(3, 3)), EdgeEvent::HeldWhilePressed);
    assert_eq!(update_cursor_pos(&mut dq, false, Point2::new(4, 4)), EdgeEvent::ReleaseEdge);
    assert!(!dq.was_pressed);
    assert_eq!(update_cursor_pos(&mut dq, false, Point2::new(5, 5)), EdgeEvent::NoChange);
    assert_eq!(dq.cursor_pos, Point2::new(5, 5));
}

#[test]
fn sampler_leaves_the_click_times_alone() {
    let mut dq = DQ::new(9);
    dq.held_start_time = Some(4);
    update_cursor_pos(&mut dq, true, Point2::new(2, 2));
    assert_eq!(dq.last_click_time, 9);
    assert_eq!(dq.held_start_time, Some(4));
}

#[test]
fn button_level_of_each_event() {
    assert!(EdgeEvent::PressStart.is_button_down());
    assert!(EdgeEvent::HeldWhilePressed.is_button_down());
    assert!(!EdgeEvent::ReleaseEdge.is_button_down());
    assert!(!EdgeEvent::NoChange.is_button_down());
}

#[test]
fn press_inside_then_release_after_50ms_sends_love() {
    let mut s = scene();
    frame(&mut s, true, 0, 0, SECOND);
    assert_eq!(s.pet.state, PetState::Chilling);
    assert_eq!(s.dq.held_start_time, Some(SECOND));
    frame(&mut s, false, 0, 0, SECOND + 50 * MS);
    assert_eq!(s.pet.state, PetState::SendingLove);
    assert_eq!(s.dq.held_start_time, None);
}

#[test]
fn press_inside_hold_200ms_then_release_drags_then_sits() {
    let mut s = scene();
    frame(&mut s, true, 0, 0, SECOND);
    frame(&mut s, true, 0, 0, SECOND + 100 * MS);
    assert_eq!(s.pet.state, PetState::Chilling);
    frame(&mut s, true, 0, 0, SECOND + 200 * MS);
    assert_eq!(s.pet.state, PetState::Dragged);
    frame(&mut s, false, 0, 0, SECOND + 210 * MS);
    assert_eq!(s.pet.state, PetState::Sitting);
    assert_eq!(s.dq.held_start_time, None);
}

#[test]
fn hold_of_exactly_the_threshold_is_neither_drag_nor_love() {
    let mut s = scene();
    frame(&mut s, true, 0, 0, SECOND);
    frame(&mut s, true, 0, 0, SECOND + 125 * MS);
    assert_eq!(s.pet.state, PetState::Chilling);
    frame(&mut s, false, 0, 0, SECOND + 125 * MS);
    assert_eq!(s.pet.state, PetState::Chilling);
    assert_eq!(s.dq.held_start_time, None);
}

#[test]
fn hold_just_beyond_the_threshold_drags() {
    let mut s = scene();
    frame(&mut s, true, 0, 0, SECOND);
    frame(&mut s, true, 0, 0, SECOND + 125 * MS + 1);
    assert_eq!(s.pet.state, PetState::Dragged);
}

#[test]
fn release_just_below_the_threshold_sends_love() {
    let mut s = scene();
    frame(&mut s, true, 0, 0, SECOND);
    frame(&mut s, false, 0, 0, SECOND + 125 * MS - 1);
    assert_eq!(s.pet.state, PetState::SendingLove);
}

#[test]
fn second_press_within_250ms_jumps() {
    let mut s = scene();
    frame(&mut s, true, 0, 0, SECOND);
    frame(&mut s, false, 0, 0, SECOND + 50 * MS);
    assert_eq!(s.pet.state, PetState::SendingLove);
    frame(&mut s, true, 0, 0, SECOND + 249 * MS);
    assert_eq!(s.pet.state, PetState::Jumping);
    assert_eq!(s.dq.last_click_time, SECOND + 249 * MS);
    // The press is consumed: nothing is armed.
    assert_eq!(s.dq.held_start_time, None);
}

#[test]
fn second_press_after_exactly_250ms_is_no_double_click() {
    let mut s = scene();
    frame(&mut s, true, 0, 0, SECOND);
    frame(&mut s, false, 0, 0, SECOND + 50 * MS);
    frame(&mut s, true, 0, 0, SECOND + 250 * MS);
    assert_eq!(s.pet.state, PetState::SendingLove);
    assert_eq!(s.dq.held_start_time, Some(SECOND + 250 * MS));
}

#[test]
fn double_click_jumps_from_every_state() {
    let states = [
        PetState::Chilling,
        PetState::Dragged,
        PetState::Eating,
        PetState::Idle,
        PetState::Jumping,
        PetState::SendingLove,
        PetState::Sitting,
        PetState::Walking,
    ];
    for state in states {
        let mut s = scene();
        s.dq.last_click_time = SECOND;
        s.pet.set_state(state);
        frame(&mut s, true, 10, 10, SECOND + 100 * MS);
        assert_eq!(s.pet.state, PetState::Jumping);
    }
}

#[test]
fn double_click_consumes_the_frame_of_a_dragged_pet() {
    let mut s = scene();
    s.dq.last_click_time = SECOND;
    s.pet.set_state(PetState::Dragged);
    frame(&mut s, true, 10, 10, SECOND + 100 * MS);
    assert_eq!(s.pet.state, PetState::Jumping);
    assert_eq!(s.transform.translation, Vector3::new(0, 0, 5));
}

#[test]
fn double_click_after_a_press_beside_the_pet() {
    // Every press start counts as the last click, on the pet or not.
    let mut s = scene();
    frame(&mut s, true, 100_000, 0, SECOND);
    assert_eq!(s.pet.state, PetState::Walking);
    frame(&mut s, false, 100_000, 0, SECOND + 20 * MS);
    frame(&mut s, true, 0, 0, SECOND + 100 * MS);
    assert_eq!(s.pet.state, PetState::Jumping);
    assert_eq!(s.pet.move_target, None);
}

#[test]
fn first_press_right_after_start_up_is_a_double_click() {
    let mut s = scene();
    s.dq = DQ::new(SECOND);
    frame(&mut s, true, 0, 0, SECOND + 100 * MS);
    assert_eq!(s.pet.state, PetState::Jumping);
}

#[test]
fn press_beside_the_pet_starts_a_walk() {
    let mut s = scene();
    frame(&mut s, true, 100_000, 0, SECOND);
    assert_eq!(s.pet.state, PetState::Walking);
    assert_eq!(s.pet.move_target, Some(Point2::new(100_000, 0)));
    assert_eq!(s.dq.last_click_time, SECOND);
    assert_eq!(s.dq.held_start_time, None);
    assert_eq!(s.transform.translation, Vector3::new(0, 0, 5));
}

#[test]
fn press_just_beside_the_hit_box_starts_a_walk() {
    let mut s = scene();
    frame(&mut s, true, 37_501, 0, SECOND);
    assert_eq!(s.pet.state, PetState::Walking);
    let mut s = scene();
    frame(&mut s, true, 37_500, 0, SECOND);
    assert_eq!(s.pet.state, PetState::Chilling);
    assert_eq!(s.dq.held_start_time, Some(SECOND));
}

#[test]
fn holding_beside_the_pet_does_not_move_the_target() {
    let mut s = scene();
    frame(&mut s, true, 100_000, 0, SECOND);
    frame(&mut s, true, 200_000, 50_000, SECOND + 16 * MS);
    assert_eq!(s.pet.move_target, Some(Point2::new(100_000, 0)));
    assert_eq!(s.dq.last_click_time, SECOND);
}

#[test]
fn press_beside_a_dragged_pet_makes_it_walk() {
    let mut s = scene();
    s.pet.set_state(PetState::Dragged);
    frame(&mut s, true, 100_000, 0, SECOND);
    assert_eq!(s.pet.state, PetState::Walking);
    assert_eq!(s.pet.move_target, Some(Point2::new(100_000, 0)));
    assert_eq!(s.transform.translation, Vector3::new(0, 0, 5));
}

#[test]
fn dragged_pet_follows_the_cursor_on_its_layer() {
    let mut s = scene();
    frame(&mut s, true, 0, 0, SECOND);
    frame(&mut s, true, 1_000, 2_000, SECOND + 200 * MS);
    assert_eq!(s.pet.state, PetState::Dragged);
    assert_eq!(s.transform.translation, Vector3::new(1_000, 2_000, 5));
    // Once dragged, the pet follows even a cursor that has left the hit-box.
    frame(&mut s, true, 500_000, -300_000, SECOND + 216 * MS);
    assert_eq!(s.pet.state, PetState::Dragged);
    assert_eq!(s.transform.translation, Vector3::new(500_000, -300_000, 5));
}

#[test]
fn drag_ends_on_release_wherever_the_cursor_is() {
    let mut s = scene();
    s.pet.set_state(PetState::Dragged);
    s.dq.held_start_time = Some(SECOND);
    s.dq.was_pressed = true;
    frame(&mut s, false, 900_000, 900_000, 2 * SECOND);
    assert_eq!(s.pet.state, PetState::Sitting);
    assert_eq!(s.dq.held_start_time, None);
    assert_eq!(s.transform.translation, Vector3::new(0, 0, 5));
}

#[test]
fn release_on_a_dragged_pet_does_not_send_love() {
    let mut s = scene();
    s.pet.set_state(PetState::Dragged);
    frame(&mut s, true, 0, 0, SECOND);
    assert_eq!(s.pet.state, PetState::Dragged);
    frame(&mut s, false, 0, 0, SECOND + 10 * MS);
    assert_eq!(s.pet.state, PetState::Sitting);
}

#[test]
fn release_beside_the_pet_leaves_the_press_armed() {
    let mut s = scene();
    frame(&mut s, true, 0, 0, SECOND);
    frame(&mut s, false, 100_000, 0, SECOND + 50 * MS);
    assert_eq!(s.pet.state, PetState::Chilling);
    assert_eq!(s.dq.held_start_time, Some(SECOND));
}

#[test]
fn hold_without_an_armed_press_does_not_drag() {
    let mut s = scene();
    s.dq.was_pressed = true;
    frame(&mut s, true, 0, 0, 10 * SECOND);
    assert_eq!(s.pet.state, PetState::Chilling);
    frame(&mut s, false, 0, 0, 10 * SECOND + MS);
    assert_eq!(s.pet.state, PetState::Chilling);
}

#[test]
fn hold_beside_the_pet_does_not_drag() {
    let mut s = scene();
    frame(&mut s, true, 0, 0, SECOND);
    frame(&mut s, true, 100_000, 0, SECOND + 500 * MS);
    assert_eq!(s.pet.state, PetState::Chilling);
    assert_eq!(s.dq.held_start_time, Some(SECOND));
}

#[test]
fn nothing_happens_without_an_edge() {
    let mut s = scene();
    s.pet.set_state(PetState::Eating);
    let before_pet = s.pet;
    let before_transform = s.transform;
    frame(&mut s, false, 0, 0, SECOND);
    frame(&mut s, false, 100_000, 0, 2 * SECOND);
    assert_eq!(s.pet, before_pet);
    assert_eq!(s.transform, before_transform);
    assert_eq!(s.dq.last_click_time, 0);
    assert_eq!(s.dq.held_start_time, None);
}

#[test]
fn click_times_that_lie_ahead_count_as_now() {
    let mut s = scene();
    s.dq.last_click_time = 5 * SECOND;
    frame(&mut s, true, 0, 0, SECOND);
    assert_eq!(s.pet.state, PetState::Jumping);
    assert_eq!(s.dq.last_click_time, SECOND);
}

#[test]
fn transition_away_from_walking_drops_the_target() {
    let mut s = scene();
    frame(&mut s, true, 100_000, 0, SECOND);
    frame(&mut s, false, 100_000, 0, SECOND + 10 * MS);
    assert_eq!(s.pet.state, PetState::Walking);
    // A long press on the pet: armed, then dragged.
    frame(&mut s, true, 0, 0, 2 * SECOND);
    assert_eq!(s.pet.state, PetState::Walking);
    assert_eq!(s.pet.move_target, Some(Point2::new(100_000, 0)));
    frame(&mut s, true, 0, 0, 2 * SECOND + 130 * MS);
    assert_eq!(s.pet.state, PetState::Dragged);
    assert_eq!(s.pet.move_target, None);
}

#[test]
fn held_double_click_is_never_dragged() {
    let mut s = scene();
    frame(&mut s, true, 0, 0, SECOND);
    frame(&mut s, false, 0, 0, SECOND + 50 * MS);
    frame(&mut s, true, 0, 0, SECOND + 100 * MS);
    assert_eq!(s.pet.state, PetState::Jumping);
    frame(&mut s, true, 0, 0, SECOND + 500 * MS);
    frame(&mut s, true, 0, 0, 2 * SECOND);
    assert_eq!(s.pet.state, PetState::Jumping);
    assert_eq!(s.dq.held_start_time, None);
}

#[test]
fn short_double_click_does_not_send_love() {
    let mut s = scene();
    frame(&mut s, true, 0, 0, SECOND);
    frame(&mut s, false, 0, 0, SECOND + 50 * MS);
    assert_eq!(s.pet.state, PetState::SendingLove);
    frame(&mut s, true, 0, 0, SECOND + 100 * MS);
    frame(&mut s, false, 0, 0, SECOND + 150 * MS);
    assert_eq!(s.pet.state, PetState::Jumping);
}
