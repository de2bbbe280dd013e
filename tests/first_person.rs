use cam::first_person::{
    Direction, FirstPersonAction, FirstPersonSettings, Keys, MoveAction, Movement,
};
use input::keyboard::Key;
use input::mouse::MouseButton;
use input::Button;

fn key(k: Key) -> Button {
    Button::Keyboard(k)
}

#[test]
fn keys_insert_contains_remove() {
    let mut keys = Keys::empty();
    assert!(!keys.contains(MoveAction::MoveForward));
    keys.insert(MoveAction::MoveForward);
    keys.insert(MoveAction::FlyDown);
    assert!(keys.contains(MoveAction::MoveForward));
    assert!(keys.contains(MoveAction::FlyDown));
    assert!(!keys.contains(MoveAction::MoveBackward));
    keys.remove(MoveAction::MoveForward);
    assert!(!keys.contains(MoveAction::MoveForward));
    assert!(keys.contains(MoveAction::FlyDown));
}

#[test]
fn wasd_bindings() {
    let s: FirstPersonSettings<f32> = FirstPersonSettings::keyboard_wasd();
    assert_eq!(s.move_forward_button, key(Key::W));
    assert_eq!(s.move_backward_button, key(Key::S));
    assert_eq!(s.strafe_left_button, key(Key::A));
    assert_eq!(s.strafe_right_button, key(Key::D));
    assert_eq!(s.fly_up_button, key(Key::Space));
    assert_eq!(s.fly_down_button, key(Key::LShift));
    assert_eq!(s.move_faster_button, key(Key::LCtrl));
    assert_eq!(s.speed_horizontal, 1.0);
    assert_eq!(s.speed_vertical, 1.0);
}

#[test]
fn esdf_bindings() {
    let s: FirstPersonSettings<f64> = FirstPersonSettings::keyboard_esdf();
    assert_eq!(s.move_forward_button, key(Key::E));
    assert_eq!(s.move_backward_button, key(Key::D));
    assert_eq!(s.strafe_left_button, key(Key::S));
    assert_eq!(s.strafe_right_button, key(Key::F));
    assert_eq!(s.fly_up_button, key(Key::Space));
    assert_eq!(s.fly_down_button, key(Key::Z));
    assert_eq!(s.move_faster_button, key(Key::LShift));
    assert_eq!(s.speed_horizontal, 1.0);
    assert_eq!(s.speed_vertical, 1.0);
}

#[test]
fn action_lookup() {
    let s: FirstPersonSettings<f32> = FirstPersonSettings::keyboard_wasd();
    assert_eq!(
        s.action(&key(Key::W)),
        Some(FirstPersonAction::Move(MoveAction::MoveForward))
    );
    assert_eq!(
        s.action(&key(Key::D)),
        Some(FirstPersonAction::Move(MoveAction::StrafeRight))
    );
    assert_eq!(
        s.action(&key(Key::LShift)),
        Some(FirstPersonAction::Move(MoveAction::FlyDown))
    );
    assert_eq!(s.action(&key(Key::LCtrl)), Some(FirstPersonAction::MoveFaster));
    assert_eq!(s.action(&key(Key::Q)), None);
    assert_eq!(s.action(&Button::Mouse(MouseButton::Left)), None);
}

#[test]
fn first_binding_wins_when_shared() {
    let mut s: FirstPersonSettings<f32> = FirstPersonSettings::keyboard_wasd();
    s.move_faster_button = key(Key::W);
    assert_eq!(
        s.action(&key(Key::W)),
        Some(FirstPersonAction::Move(MoveAction::MoveForward))
    );
}

#[test]
fn new_movement_is_at_rest() {
    let m = Movement::new();
    assert_eq!(m.direction, Direction { x: 0, y: 0, z: 0 });
    assert_eq!(m.velocity(), 1);
    assert!(!m.direction.is_diagonal());
}

#[test]
fn press_sets_axis_contributions() {
    let mut m = Movement::new();
    m.press(FirstPersonAction::Move(MoveAction::MoveForward));
    assert_eq!(m.direction, Direction { x: 0, y: 0, z: -1 });
    m.press(FirstPersonAction::Move(MoveAction::StrafeRight));
    assert_eq!(m.direction, Direction { x: -1, y: 0, z: -1 });
    m.press(FirstPersonAction::Move(MoveAction::FlyUp));
    assert_eq!(m.direction, Direction { x: -1, y: 1, z: -1 });
    assert!(m.keys.contains(MoveAction::MoveForward));
    assert!(m.keys.contains(MoveAction::StrafeRight));
    assert!(m.keys.contains(MoveAction::FlyUp));
}

#[test]
fn diagonal_only_with_both_horizontal_axes() {
    let mut m = Movement::new();
    m.press(FirstPersonAction::Move(MoveAction::MoveBackward));
    assert!(!m.direction.is_diagonal());
    m.press(FirstPersonAction::Move(MoveAction::FlyDown));
    assert!(!m.direction.is_diagonal());
    m.press(FirstPersonAction::Move(MoveAction::StrafeLeft));
    assert!(m.direction.is_diagonal());
    assert_eq!(m.direction, Direction { x: 1, y: -1, z: 1 });
    m.release(FirstPersonAction::Move(MoveAction::MoveBackward));
    assert!(!m.direction.is_diagonal());
    assert_eq!(m.direction, Direction { x: 1, y: -1, z: 0 });
}

#[test]
fn release_restores_opposite() {
    let mut m = Movement::new();
    m.press(FirstPersonAction::Move(MoveAction::MoveForward));
    m.press(FirstPersonAction::Move(MoveAction::MoveBackward));
    assert_eq!(m.direction.z, 1);
    m.release(FirstPersonAction::Move(MoveAction::MoveForward));
    assert_eq!(m.direction.z, 1);
    m.release(FirstPersonAction::Move(MoveAction::MoveBackward));
    assert_eq!(m.direction.z, 0);
}

#[test]
fn release_restores_opposite_strafe_and_fly() {
    let mut m = Movement::new();
    m.press(FirstPersonAction::Move(MoveAction::StrafeLeft));
    m.press(FirstPersonAction::Move(MoveAction::StrafeRight));
    m.release(FirstPersonAction::Move(MoveAction::StrafeRight));
    assert_eq!(m.direction.x, 1);
    m.press(FirstPersonAction::Move(MoveAction::FlyDown));
    m.press(FirstPersonAction::Move(MoveAction::FlyUp));
    m.release(FirstPersonAction::Move(MoveAction::FlyUp));
    assert_eq!(m.direction.y, -1);
}

#[test]
fn release_without_opposite_zeroes_axis() {
    let mut m = Movement::new();
    m.press(FirstPersonAction::Move(MoveAction::StrafeLeft));
    m.release(FirstPersonAction::Move(MoveAction::StrafeLeft));
    assert_eq!(m.direction, Direction { x: 0, y: 0, z: 0 });
    assert!(!m.keys.contains(MoveAction::StrafeLeft));
}

#[test]
fn speed_boost_press_and_release() {
    let mut m = Movement::new();
    m.press(FirstPersonAction::MoveFaster);
    assert_eq!(m.velocity(), 2);
    m.press(FirstPersonAction::MoveFaster);
    assert_eq!(m.velocity(), 2);
    m.release(FirstPersonAction::MoveFaster);
    assert_eq!(m.velocity(), 1);
    assert_eq!(m.direction, Direction { x: 0, y: 0, z: 0 });
}

#[test]
fn buttons_drive_movement() {
    let s: FirstPersonSettings<f32> = FirstPersonSettings::keyboard_esdf();
    let mut m = Movement::new();
    m.press_button(&s, &key(Key::E));
    m.press_button(&s, &key(Key::F));
    assert_eq!(m.direction, Direction { x: -1, y: 0, z: -1 });
    assert!(m.direction.is_diagonal());
    m.press_button(&s, &key(Key::LShift));
    assert_eq!(m.velocity(), 2);
    m.release_button(&s, &key(Key::E));
    assert_eq!(m.direction, Direction { x: -1, y: 0, z: 0 });
    m.release_button(&s, &key(Key::LShift));
    assert_eq!(m.velocity(), 1);
}

#[test]
fn unbound_button_changes_nothing() {
    let s: FirstPersonSettings<f32> = FirstPersonSettings::keyboard_wasd();
    let mut m = Movement::new();
    m.press_button(&s, &key(Key::W));
    let before = m;
    m.press_button(&s, &key(Key::P));
    m.release_button(&s, &Button::Mouse(MouseButton::Right));
    assert_eq!(m, before);
}

#[test]
fn every_short_sequence_keeps_signs() {
    let actions = [
        FirstPersonAction::Move(MoveAction::MoveForward),
        FirstPersonAction::Move(MoveAction::MoveBackward),
        FirstPersonAction::Move(MoveAction::StrafeLeft),
        FirstPersonAction::Move(MoveAction::StrafeRight),
        FirstPersonAction::Move(MoveAction::FlyUp),
        FirstPersonAction::Move(MoveAction::FlyDown),
        FirstPersonAction::MoveFaster,
    ];
    let events = actions.len() * 2;
    let mut total = 1;
    for _ in 0..4 {
        total *= events;
    }
    for code in 0..total {
        let mut m = Movement::new();
        let mut c = code;
        for _ in 0..4 {
            let e = c % events;
            c /= events;
            let a = actions[e / 2];
            if e % 2 == 0 {
                m.press(a);
            } else {
                m.release(a);
            }
            let d = m.direction;
            assert!(d.is_valid());
            assert!((-1..=1).contains(&d.x) && (-1..=1).contains(&d.y) && (-1..=1).contains(&d.z));
            assert_eq!(d.is_diagonal(), d.x != 0 && d.z != 0);
            assert!(m.velocity() == 1 || m.velocity() == 2);
        }
    }
}
