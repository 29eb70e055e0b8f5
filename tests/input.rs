use tenebra::input::{InputAction, InputCommand, InputReplayer, MouseButton};
use tenebra::keymap::{browser_code_to_key, KeyCode};

fn key(kind: &str, code: &str) -> InputCommand {
    InputCommand { kind: kind.to_string(), key: Some(code.to_string()), ..Default::default() }
}

fn pointer(kind: &str, x: i32, y: i32) -> InputCommand {
    InputCommand { kind: kind.to_string(), x: Some(x), y: Some(y), ..Default::default() }
}

#[test]
fn key_table_maps_browser_codes() {
    assert_eq!(browser_code_to_key("KeyA"), Some(KeyCode::A));
    assert_eq!(browser_code_to_key("Escape"), Some(KeyCode::Esc));
    assert_eq!(browser_code_to_key("MetaLeft"), Some(KeyCode::LeftMeta));
    assert_eq!(browser_code_to_key("AudioVolumeMute"), Some(KeyCode::Mute));
    assert_eq!(browser_code_to_key("VolumeMute"), Some(KeyCode::Mute));
    assert_eq!(browser_code_to_key("Numpad7"), Some(KeyCode::Kp7));
    assert_eq!(browser_code_to_key("Eject"), None);
    assert_eq!(browser_code_to_key("Unidentified"), None);
    assert_eq!(browser_code_to_key("keya"), None);
    assert_eq!(browser_code_to_key(""), None);
}

#[test]
fn capslock_debounce() {
    let t0 = 10_000u64;
    let mut r = InputReplayer::new(0, 0);
    let caps = key("keydown", "CapsLock");
    let press_release =
        vec![InputAction::KeyDown(KeyCode::CapsLock), InputAction::KeyUp(KeyCode::CapsLock)];
    assert_eq!(r.handle(&caps, t0), press_release);
    assert_eq!(r.handle(&caps, t0 + 100), vec![]);
    assert_eq!(r.handle(&caps, t0 + 500), press_release);
}

#[test]
fn capslock_release_is_replayed_as_press_and_release() {
    let mut r = InputReplayer::new(0, 0);
    let out = r.handle(&key("keyup", "CapsLock"), 1_000);
    assert_eq!(
        out,
        vec![InputAction::KeyDown(KeyCode::CapsLock), InputAction::KeyUp(KeyCode::CapsLock)]
    );
    assert_eq!(r.handle(&key("keyup", "CapsLock"), 1_250), vec![]);
    assert_eq!(r.handle(&key("keyup", "CapsLock"), 1_251).len(), 2);
}

#[test]
fn first_capslock_is_always_replayed() {
    let mut r = InputReplayer::new(0, 0);
    assert_eq!(
        r.handle(&key("keydown", "CapsLock"), 0),
        vec![InputAction::KeyDown(KeyCode::CapsLock), InputAction::KeyUp(KeyCode::CapsLock)]
    );
    assert_eq!(r.handle(&key("keydown", "CapsLock"), 250), vec![]);
}

#[test]
fn meta_release_sweeps_held_keys() {
    let mut r = InputReplayer::new(0, 0);
    assert_eq!(r.handle(&key("keydown", "MetaLeft"), 1), vec![InputAction::KeyDown(KeyCode::LeftMeta)]);
    assert_eq!(r.handle(&key("keydown", "KeyC"), 2), vec![InputAction::KeyDown(KeyCode::C)]);
    assert_eq!(r.handle(&key("keydown", "KeyC"), 3), vec![InputAction::KeyDown(KeyCode::C)]);
    assert_eq!(r.handle(&key("keydown", "Digit1"), 4), vec![InputAction::KeyDown(KeyCode::Num1)]);
    let out = r.handle(&key("keyup", "MetaLeft"), 5);
    assert_eq!(
        out,
        vec![
            InputAction::KeyUp(KeyCode::LeftMeta),
            InputAction::KeyUp(KeyCode::LeftMeta),
            InputAction::KeyUp(KeyCode::C),
            InputAction::KeyUp(KeyCode::Num1),
        ]
    );
    // nothing is held any more
    assert_eq!(r.handle(&key("keyup", "MetaRight"), 6), vec![InputAction::KeyUp(KeyCode::RightMeta)]);
}

#[test]
fn plain_key_events() {
    let mut r = InputReplayer::new(0, 0);
    assert_eq!(r.handle(&key("keyup", "KeyZ"), 1), vec![InputAction::KeyUp(KeyCode::Z)]);
    assert_eq!(r.handle(&key("keypress", "KeyZ"), 1), vec![]);
    assert_eq!(r.handle(&key("keydown", "NoSuchKey"), 1), vec![]);
}

#[test]
fn pointer_commands() {
    let mut r = InputReplayer::new(100, 200);
    assert_eq!(r.handle(&pointer("mousemove", 3, -4), 0), vec![InputAction::MoveRelative { x: 3, y: -4 }]);
    assert_eq!(
        r.handle(&pointer("mousemoveabs", 3, 4), 0),
        vec![InputAction::MoveAbsolute { x: 103, y: 204 }]
    );
    assert_eq!(r.handle(&pointer("wheel", 5, 120), 0), vec![InputAction::Wheel { x: 5, y: -120 }]);
    assert_eq!(
        r.handle(&pointer("wheel", 0, i32::MIN), 0),
        vec![InputAction::Wheel { x: 0, y: 2147483648 }]
    );
    assert_eq!(r.handle(&pointer("bogus", 1, 1), 0), vec![]);
    assert_eq!(
        r.handle(&pointer("mousemoveabs", i32::MAX, 0), 0),
        vec![InputAction::MoveAbsolute { x: i32::MAX as i64 + 100, y: 200 }]
    );
}

#[test]
fn mouse_buttons() {
    let mut r = InputReplayer::new(0, 0);
    let b = |kind: &str, n: u8| InputCommand { kind: kind.to_string(), button: Some(n), ..Default::default() };
    assert_eq!(r.handle(&b("mousedown", 0), 0), vec![InputAction::ButtonDown(MouseButton::Left)]);
    assert_eq!(r.handle(&b("mouseup", 1), 0), vec![InputAction::ButtonUp(MouseButton::Middle)]);
    assert_eq!(r.handle(&b("mousedown", 2), 0), vec![InputAction::ButtonDown(MouseButton::Right)]);
    assert_eq!(r.handle(&b("mousedown", 3), 0), vec![]);
}

#[test]
fn touch_and_pen() {
    let mut r = InputReplayer::new(10, 20);
    let t = |kind: &str| InputCommand {
        kind: kind.to_string(),
        x: Some(1),
        y: Some(2),
        id: Some(7),
        ..Default::default()
    };
    assert_eq!(r.handle(&t("touchstart"), 0), vec![InputAction::TouchDown { id: 7, x: 11, y: 22 }]);
    assert_eq!(r.handle(&t("touchmove"), 0), vec![InputAction::TouchMove { id: 7, x: 11, y: 22 }]);
    let end = InputCommand { kind: "touchend".to_string(), id: Some(7), ..Default::default() };
    assert_eq!(r.handle(&end, 0), vec![InputAction::TouchUp { id: 7 }]);
    let pressure = 0.5f64.to_bits();
    let pen = InputCommand {
        kind: "pen".to_string(),
        x: Some(1),
        y: Some(2),
        pressure_bits: Some(pressure),
        tilt_x: Some(-3),
        tilt_y: Some(4),
        ..Default::default()
    };
    assert_eq!(
        r.handle(&pen, 0),
        vec![InputAction::Pen { x: 11, y: 22, pressure_bits: pressure, tilt_x: -3, tilt_y: 4 }]
    );
}

#[test]
fn reset_keyboard_releases_everything() {
    let mut r = InputReplayer::new(0, 0);
    let reset = InputCommand { kind: "resetkeyboard".to_string(), ..Default::default() };
    assert_eq!(r.handle(&reset, 0), vec![InputAction::ReleaseAllKeys]);
}
