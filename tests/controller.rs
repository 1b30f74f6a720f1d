use fps_controller::{
    axis_input, camera_look_applies, is_held, plan_movement, plan_player_frame, player_look_applies, Axis,
    CameraLook, CursorState, KeyBindings, Movement, PlayerControls,
};

const W: u32 = 22;
const S: u32 = 18;
const A: u32 = 0;
const D: u32 = 3;
const E: u32 = 4;
const Q: u32 = 16;
const SHIFT: u32 = 115;

fn bindings() -> KeyBindings {
    KeyBindings { forward: W, back: S, left: A, right: D, up: E, down: Q, run: SHIFT }
}

fn controls() -> PlayerControls {
    PlayerControls { enabled: true, bindings: bindings() }
}

#[test]
fn held_key_lookup() {
    let held = vec![A, W, SHIFT];
    assert!(is_held(&held, W));
    assert!(is_held(&held, SHIFT));
    assert!(!is_held(&held, S));
    assert!(!is_held(&Vec::new(), W));
}

#[test]
fn no_keys_give_zero_axis() {
    let axis = axis_input(&bindings(), &Vec::new());
    assert_eq!(axis, Axis { x: 0, y: 0, z: 0 });
    assert!(axis.is_zero());
    assert_eq!(axis.length_squared(), 0);
}

#[test]
fn each_key_moves_its_axis() {
    let b = bindings();
    assert_eq!(axis_input(&b, &vec![W]), Axis { x: 0, y: 0, z: 1 });
    assert_eq!(axis_input(&b, &vec![S]), Axis { x: 0, y: 0, z: -1 });
    assert_eq!(axis_input(&b, &vec![D]), Axis { x: 1, y: 0, z: 0 });
    assert_eq!(axis_input(&b, &vec![A]), Axis { x: -1, y: 0, z: 0 });
    assert_eq!(axis_input(&b, &vec![E]), Axis { x: 0, y: 1, z: 0 });
    assert_eq!(axis_input(&b, &vec![Q]), Axis { x: 0, y: -1, z: 0 });
}

#[test]
fn forward_and_back_cancel_in_either_order() {
    let b = bindings();
    assert_eq!(axis_input(&b, &vec![W, S]).z, 0);
    assert_eq!(axis_input(&b, &vec![S, W]).z, 0);
    assert!(axis_input(&b, &vec![S, W]).is_zero());
    assert_eq!(axis_input(&b, &vec![S, W, D]), Axis { x: 1, y: 0, z: 0 });
}

#[test]
fn diagonal_axis_length() {
    let axis = axis_input(&bindings(), &vec![W, D]);
    assert_eq!(axis, Axis { x: 1, y: 0, z: 1 });
    assert_eq!(axis.length_squared(), 2);
    let all = axis_input(&bindings(), &vec![W, D, E]);
    assert_eq!(all.length_squared(), 3);
}

#[test]
fn walking_forward_drives_at_walk_speed() {
    let frame = plan_player_frame(&controls(), &vec![W], false, false).unwrap();
    assert_eq!(frame.axis, Axis { x: 0, y: 0, z: 1 });
    assert_eq!(frame.movement, Movement::Drive { run: false });
    assert!(!frame.turn);
}

#[test]
fn run_key_selects_run_speed() {
    let frame = plan_player_frame(&controls(), &vec![SHIFT, W], true, true).unwrap();
    assert_eq!(frame.movement, Movement::Drive { run: true });
    assert!(frame.turn);
}

#[test]
fn no_direction_coasts() {
    let frame = plan_player_frame(&controls(), &Vec::new(), false, false).unwrap();
    assert_eq!(frame.movement, Movement::Coast);
    let run_only = plan_player_frame(&controls(), &vec![SHIFT], false, false).unwrap();
    assert_eq!(run_only.movement, Movement::Coast);
    assert_eq!(plan_movement(&Axis { x: 0, y: 0, z: 0 }, true), Movement::Coast);
    assert_eq!(plan_movement(&Axis { x: 0, y: -1, z: 0 }, true), Movement::Drive { run: true });
}

#[test]
fn disabled_player_is_left_alone() {
    let c = PlayerControls { enabled: false, bindings: bindings() };
    assert_eq!(plan_player_frame(&c, &vec![W], true, true), None);
}

#[test]
fn still_mouse_never_turns() {
    assert!(!player_look_applies(true, false));
    assert!(!player_look_applies(false, true));
    assert!(player_look_applies(true, true));
    let cam = CameraLook::new();
    assert!(!camera_look_applies(&cam, true, false));
    assert!(camera_look_applies(&cam, true, true));
    assert!(!camera_look_applies(&cam, false, true));
    let frame = plan_player_frame(&controls(), &vec![W], true, false).unwrap();
    assert!(!frame.turn);
}

#[test]
fn camera_without_lock_requirement_turns_unlocked() {
    let cam = CameraLook { enabled: true, require_lock: false };
    assert!(camera_look_applies(&cam, false, true));
    assert!(!camera_look_applies(&cam, false, false));
    let off = CameraLook { enabled: false, require_lock: false };
    assert!(!camera_look_applies(&off, true, true));
}

#[test]
fn lock_then_unlock_restores_flags() {
    let start = CursorState::new();
    assert!(start.visible);
    assert!(!start.locked);
    let mut s = start;
    s.grab_mouse(true, false);
    assert!(s.locked);
    assert!(!s.visible);
    s.grab_mouse(false, true);
    assert_eq!(s, start);
}

#[test]
fn repeated_presses_are_no_ops() {
    let mut s = CursorState::new();
    s.grab_mouse(false, true);
    assert_eq!(s, CursorState::new());
    s.grab_mouse(true, false);
    let locked = s;
    s.grab_mouse(true, false);
    assert_eq!(s, locked);
    s.grab_mouse(false, false);
    assert_eq!(s, locked);
}

#[test]
fn release_wins_over_grab_in_one_frame() {
    let mut s = CursorState::new();
    s.grab_mouse(true, true);
    assert_eq!(s, CursorState { locked: false, visible: true });
}
