use motorino::{Action, DriveVelocity, InputEvent, Key, PlayerController, JUMP_POWER, RUN_SPEED, TURN_SPEED};

fn ev(source: Key, action: Action) -> InputEvent<Key> {
    InputEvent { source, action }
}

#[test]
fn w_and_s_set_run_velocity() {
    let mut controller = PlayerController::new();
    let mut velocity = DriveVelocity::default();
    controller.handle_key_events(&mut velocity, &vec![ev(Key::W, Action::Press)]);
    assert_eq!(velocity.run_velocity, 50);
    controller.handle_key_events(&mut velocity, &vec![ev(Key::S, Action::Repeat)]);
    assert_eq!(velocity.run_velocity, -50);
    assert_eq!(RUN_SPEED, 50);
}

#[test]
fn a_and_d_set_turn_velocity() {
    let mut controller = PlayerController::new();
    let mut velocity = DriveVelocity::default();
    controller.handle_key_events(&mut velocity, &vec![ev(Key::A, Action::Press)]);
    assert_eq!(velocity.turn_velocity, 120);
    controller.handle_key_events(&mut velocity, &vec![ev(Key::D, Action::Press)]);
    assert_eq!(velocity.turn_velocity, -120);
    assert_eq!(TURN_SPEED, 120);
    assert_eq!(velocity.run_velocity, 0);
}

#[test]
fn release_stops_axis() {
    let mut controller = PlayerController::new();
    let mut velocity = DriveVelocity::default();
    controller.handle_key_events(
        &mut velocity,
        &vec![ev(Key::W, Action::Press), ev(Key::A, Action::Press), ev(Key::W, Action::Release)],
    );
    assert_eq!(velocity.run_velocity, 0);
    assert_eq!(velocity.turn_velocity, 120);
    controller.handle_key_events(&mut velocity, &vec![ev(Key::D, Action::Release), ev(Key::Space, Action::Release)]);
    assert_eq!(velocity, DriveVelocity { run_velocity: 0, turn_velocity: 0 });
}

#[test]
fn release_after_other_axis_events_still_stops() {
    let mut controller = PlayerController::new();
    let mut velocity = DriveVelocity { run_velocity: -50, turn_velocity: 0 };
    controller.handle_key_events(
        &mut velocity,
        &vec![ev(Key::S, Action::Release), ev(Key::A, Action::Press), ev(Key::Other, Action::Press)],
    );
    assert_eq!(velocity.run_velocity, 0);
}

#[test]
fn jump_only_from_ground() {
    let mut controller = PlayerController::new();
    let mut velocity = DriveVelocity::default();
    assert!(controller.handle_key_events(&mut velocity, &vec![ev(Key::Space, Action::Press)]));
    assert!(controller.is_in_air);
    assert_eq!(JUMP_POWER, 25);
    // airborne: further presses do nothing
    assert!(!controller.handle_key_events(&mut velocity, &vec![ev(Key::Space, Action::Press)]));
    assert!(!controller.handle_key_events(&mut velocity, &vec![ev(Key::Space, Action::Repeat)]));
    controller.land();
    assert!(!controller.is_in_air);
    assert!(controller.handle_key_events(&mut velocity, &vec![ev(Key::Space, Action::Repeat)]));
}

#[test]
fn two_presses_in_one_frame_jump_once() {
    let mut controller = PlayerController::new();
    let mut velocity = DriveVelocity::default();
    assert!(controller.handle_key(&mut velocity, ev(Key::Space, Action::Press)));
    assert!(!controller.handle_key(&mut velocity, ev(Key::Space, Action::Press)));
    let mut other = PlayerController::new();
    assert!(other.handle_key_events(
        &mut velocity,
        &vec![ev(Key::Space, Action::Press), ev(Key::Space, Action::Press)]
    ));
    assert!(other.is_in_air);
}

#[test]
fn releasing_space_does_not_jump() {
    let mut controller = PlayerController::new();
    let mut velocity = DriveVelocity::default();
    assert!(!controller.handle_key_events(&mut velocity, &vec![ev(Key::Space, Action::Release)]));
    assert!(!controller.is_in_air);
}
