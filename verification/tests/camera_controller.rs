use orbit_viewer::camera_controller::{
    CameraController, ControllerState, DeviceEvent, KeyCode, KeyEvent, Mode, MouseScrollDelta,
    PRIMARY_BUTTON, PRIMARY_BUTTON_MACOS,
};
use orbit_viewer::orbit_camera::{
    CameraMotion, OrbitCamera, OrbitCameraBounds, Vector3, ViewBasis, PITCH_LIMIT,
};

fn screen() -> ViewBasis {
    ViewBasis {
        right: Vector3 { x: 1_000_000, y: 0, z: 0 },
        up: Vector3 { x: 0, y: 1_000_000, z: 0 },
    }
}

fn camera() -> OrbitCamera {
    let mut cam = OrbitCamera::new(2_000_000, 0, 0, Vector3 { x: 0, y: 0, z: 0 }, 1_777_777);
    cam.set_bounds(OrbitCameraBounds { min_distance: Some(1_100_000), ..OrbitCameraBounds::default() });
    cam
}

fn controller() -> CameraController {
    CameraController::new(2_500, 100_000)
}

fn button(pressed: bool) -> DeviceEvent {
    DeviceEvent::Button { button: PRIMARY_BUTTON, pressed }
}

fn shift(pressed: bool) -> KeyEvent {
    KeyEvent { key_code: KeyCode::ShiftLeft, pressed }
}

fn motion(dx: i64, dy: i64) -> DeviceEvent {
    DeviceEvent::MouseMotion { dx, dy }
}

fn lines(y: i64) -> DeviceEvent {
    DeviceEvent::MouseWheel { delta: MouseScrollDelta::LineDelta { x: 0, y } }
}

#[test]
fn new_controller_is_at_rest() {
    let ctl = CameraController::new(2_500, 100_000);
    assert_eq!(
        ctl.state(),
        ControllerState {
            rotate_speed: 2_500,
            zoom_speed: 100_000,
            primary_button: 1,
            is_drag_rotate: false,
            is_pan: false,
        }
    );
    assert_eq!(ctl.current_mode(), Mode::Idle);
}

#[test]
fn set_primary_button_changes_the_button_alone() {
    let mut cam = camera();
    let mut ctl = controller();
    ctl.process_events(&button(true), &screen(), &mut cam);
    ctl.set_primary_button(7);
    assert_eq!(
        ctl.state(),
        ControllerState {
            rotate_speed: 2_500,
            zoom_speed: 100_000,
            primary_button: 7,
            is_drag_rotate: true,
            is_pan: false,
        }
    );
}

#[test]
fn drag_to_the_right_lowers_the_yaw() {
    let mut cam = camera();
    let mut ctl = controller();
    let before = cam.snapshot();
    assert!(!ctl.process_events(&button(true), &screen(), &mut cam));
    assert!(ctl.state().is_drag_rotate);
    assert!(ctl.process_events(&motion(10_000_000, 0), &screen(), &mut cam));
    let after = cam.snapshot();
    assert_eq!(after.state.yaw, before.state.yaw - 25_000);
    assert_eq!(after.state.pitch, before.state.pitch);
    assert_eq!(after.state.distance, before.state.distance);
    assert_eq!(after.state.target, before.state.target);
}

#[test]
fn drag_downward_raises_the_pitch() {
    let mut cam = camera();
    let mut ctl = controller();
    ctl.process_events(&button(true), &screen(), &mut cam);
    ctl.process_events(&motion(-4_000_000, 8_000_000), &screen(), &mut cam);
    let snap = cam.snapshot();
    assert_eq!(snap.state.yaw, 10_000);
    assert_eq!(snap.state.pitch, 20_000);
}

#[test]
fn drag_cannot_push_the_pitch_past_the_limit() {
    let mut cam = camera();
    let mut ctl = controller();
    ctl.process_events(&button(true), &screen(), &mut cam);
    ctl.process_events(&motion(0, i64::MAX), &screen(), &mut cam);
    assert_eq!(cam.snapshot().state.pitch, PITCH_LIMIT);
}

#[test]
fn shift_then_button_pans() {
    let mut cam = camera();
    let mut ctl = controller();
    let before = cam.snapshot();
    ctl.process_keyed_events(&shift(true));
    assert!(ctl.state().is_pan);
    assert!(!ctl.process_events(&button(true), &screen(), &mut cam));
    assert!(ctl.state().is_pan);
    assert!(!ctl.state().is_drag_rotate);
    assert!(ctl.process_events(&motion(0, 0), &screen(), &mut cam));
    assert!(ctl.state().is_pan);
    assert_eq!(cam.snapshot().state.target, before.state.target);
    assert_eq!(cam.snapshot(), before);
}

#[test]
fn pan_moves_the_target_by_the_scaled_motion() {
    let mut cam = camera();
    let mut ctl = controller();
    ctl.process_keyed_events(&shift(true));
    assert!(ctl.process_events(&motion(40_000_000, -20_000_000), &screen(), &mut cam));
    let snap = cam.snapshot();
    assert_eq!(snap.state.target, Vector3 { x: 100_000, y: -50_000, z: 0 });
    assert_eq!(snap.state.yaw, 0);
    assert_eq!(snap.state.pitch, 0);
}

#[test]
fn scroll_forward_zooms_in() {
    let mut cam = camera();
    let mut ctl = controller();
    let before = cam.snapshot().state.distance;
    assert!(ctl.process_events(&lines(3_000_000), &screen(), &mut cam));
    assert_eq!(cam.snapshot().state.distance, before - 300_000);
    assert_eq!(cam.snapshot().state.distance, 1_700_000);
}

#[test]
fn scroll_is_subject_to_the_bounds() {
    let mut cam = camera();
    let mut ctl = controller();
    assert!(ctl.process_events(&lines(30_000_000), &screen(), &mut cam));
    assert_eq!(cam.snapshot().state.distance, 1_100_000);
}

#[test]
fn scroll_backward_zooms_out() {
    let mut cam = camera();
    let mut ctl = controller();
    ctl.process_events(&lines(-1_500_000), &screen(), &mut cam);
    assert_eq!(cam.snapshot().state.distance, 2_150_000);
}

#[test]
fn scroll_in_pixels_reads_the_vertical_amount() {
    let mut cam = camera();
    let mut ctl = controller();
    let event = DeviceEvent::MouseWheel { delta: MouseScrollDelta::PixelDelta { x: 9_000_000, y: 2_000_000 } };
    assert!(ctl.process_events(&event, &screen(), &mut cam));
    assert_eq!(cam.snapshot().state.distance, 1_800_000);
    let event = DeviceEvent::MouseWheel { delta: MouseScrollDelta::LineDelta { x: 9_000_000, y: 0 } };
    assert!(ctl.process_events(&event, &screen(), &mut cam));
    assert_eq!(cam.snapshot().state.distance, 1_800_000);
}

#[test]
fn scroll_works_in_every_mode() {
    let mut cam = camera();
    let mut ctl = controller();
    ctl.process_events(&button(true), &screen(), &mut cam);
    assert!(ctl.process_events(&lines(1_000_000), &screen(), &mut cam));
    assert_eq!(cam.snapshot().state.distance, 1_900_000);
    assert!(ctl.state().is_drag_rotate);
}

#[test]
fn idle_motion_is_ignored() {
    let mut cam = camera();
    let mut ctl = controller();
    let before = cam.snapshot();
    assert!(!ctl.process_events(&motion(10_000_000, 10_000_000), &screen(), &mut cam));
    assert_eq!(cam.snapshot(), before);
    assert_eq!(ctl.state(), controller().state());
}

#[test]
fn release_ends_the_rotation() {
    let mut cam = camera();
    let mut ctl = controller();
    let before = cam.snapshot();
    ctl.process_events(&button(true), &screen(), &mut cam);
    ctl.process_events(&button(false), &screen(), &mut cam);
    assert!(!ctl.state().is_drag_rotate);
    assert!(!ctl.process_events(&motion(10_000_000, 0), &screen(), &mut cam));
    assert_eq!(cam.snapshot(), before);
}

#[test]
fn button_release_under_shift_ends_the_pan() {
    let mut cam = camera();
    let mut ctl = controller();
    ctl.process_keyed_events(&shift(true));
    ctl.process_events(&button(true), &screen(), &mut cam);
    ctl.process_events(&button(false), &screen(), &mut cam);
    assert!(!ctl.state().is_pan);
    assert!(!ctl.state().is_drag_rotate);
    assert!(!ctl.process_events(&motion(10_000_000, 0), &screen(), &mut cam));
}

#[test]
fn shift_alone_pans() {
    let mut cam = camera();
    let mut ctl = controller();
    ctl.process_keyed_events(&shift(true));
    assert!(ctl.process_events(&motion(4_000_000, 0), &screen(), &mut cam));
    assert_eq!(cam.snapshot().state.target.x, 10_000);
    ctl.process_keyed_events(&shift(false));
    assert!(!ctl.state().is_pan);
    assert!(!ctl.process_events(&motion(4_000_000, 0), &screen(), &mut cam));
    assert_eq!(cam.snapshot().state.target.x, 10_000);
}

#[test]
fn shift_ends_a_rotation_under_way() {
    let mut cam = camera();
    let mut ctl = controller();
    ctl.process_events(&button(true), &screen(), &mut cam);
    assert!(ctl.state().is_drag_rotate);
    ctl.process_keyed_events(&shift(true));
    assert!(!ctl.state().is_drag_rotate);
    assert!(ctl.state().is_pan);
    assert!(ctl.process_events(&motion(40_000_000, 0), &screen(), &mut cam));
    let snap = cam.snapshot();
    assert_eq!(snap.state.yaw, 0);
    assert_eq!(snap.state.target, Vector3 { x: 100_000, y: 0, z: 0 });
}

#[test]
fn no_rotation_is_left_when_the_button_goes_up_under_shift() {
    let mut cam = camera();
    let mut ctl = controller();
    let before = cam.snapshot();
    ctl.process_events(&button(true), &screen(), &mut cam);
    ctl.process_keyed_events(&shift(true));
    ctl.process_events(&button(false), &screen(), &mut cam);
    assert!(!ctl.state().is_drag_rotate);
    assert!(!ctl.state().is_pan);
    assert!(!ctl.process_events(&motion(10_000_000, 0), &screen(), &mut cam));
    assert_eq!(cam.snapshot(), before);
}

#[test]
fn shift_release_does_not_bring_a_rotation_back() {
    let mut cam = camera();
    let mut ctl = controller();
    ctl.process_events(&button(true), &screen(), &mut cam);
    ctl.process_keyed_events(&shift(true));
    ctl.process_keyed_events(&shift(false));
    assert!(!ctl.state().is_drag_rotate);
    assert!(!ctl.state().is_pan);
    assert_eq!(ctl.current_mode(), Mode::Idle);
}

#[test]
fn flags_are_never_both_set() {
    let events: [(bool, bool); 4] = [(true, true), (true, false), (false, true), (false, false)];
    for first in events {
        for second in events {
            for third in events {
                for fourth in events {
                    let mut cam = camera();
                    let mut ctl = controller();
                    for (is_key, pressed) in [first, second, third, fourth] {
                        if is_key {
                            ctl.process_keyed_events(&shift(pressed));
                        } else {
                            ctl.process_events(&button(pressed), &screen(), &mut cam);
                        }
                        let state = ctl.state();
                        assert!(!(state.is_drag_rotate && state.is_pan));
                    }
                }
            }
        }
    }
}

#[test]
fn other_buttons_change_nothing() {
    let mut cam = camera();
    let mut ctl = controller();
    assert!(!ctl.process_events(&DeviceEvent::Button { button: 3, pressed: true }, &screen(), &mut cam));
    assert_eq!(ctl.state(), controller().state());
    assert!(!ctl.process_events(&DeviceEvent::Button { button: 0, pressed: true }, &screen(), &mut cam));
    assert_eq!(ctl.state(), controller().state());
}

#[test]
fn primary_button_can_be_the_one_of_macos() {
    let mut cam = camera();
    let mut ctl = controller();
    ctl.set_primary_button(PRIMARY_BUTTON_MACOS);
    assert_eq!(PRIMARY_BUTTON_MACOS, 0);
    ctl.process_events(&DeviceEvent::Button { button: 1, pressed: true }, &screen(), &mut cam);
    assert!(!ctl.state().is_drag_rotate);
    ctl.process_events(&DeviceEvent::Button { button: 0, pressed: true }, &screen(), &mut cam);
    assert!(ctl.state().is_drag_rotate);
}

#[test]
fn other_events_change_nothing() {
    let mut cam = camera();
    let mut ctl = controller();
    let before = cam.snapshot();
    assert!(!ctl.process_events(&DeviceEvent::Other, &screen(), &mut cam));
    assert_eq!(ctl.state(), controller().state());
    assert_eq!(cam.snapshot(), before);
}

#[test]
fn other_keys_change_nothing() {
    let mut ctl = controller();
    ctl.process_keyed_events(&KeyEvent { key_code: KeyCode::Other, pressed: true });
    assert_eq!(ctl.state(), controller().state());
    ctl.process_keyed_events(&shift(true));
    ctl.process_keyed_events(&KeyEvent { key_code: KeyCode::Other, pressed: false });
    assert!(ctl.state().is_pan);
}

#[test]
fn interpret_names_the_motion() {
    let mut ctl = controller();
    assert_eq!(ctl.interpret(&button(true)), CameraMotion::Still);
    assert_eq!(
        ctl.interpret(&motion(10_000_000, -2_000_000)),
        CameraMotion::Rotate { yaw: -25_000, pitch: -5_000 }
    );
    assert_eq!(ctl.interpret(&lines(3_000_000)), CameraMotion::Zoom { delta: -300_000 });
    assert_eq!(ctl.interpret(&button(false)), CameraMotion::Still);
    assert_eq!(ctl.interpret(&motion(10_000_000, 0)), CameraMotion::Still);
    ctl.process_keyed_events(&shift(true));
    assert_eq!(
        ctl.interpret(&motion(10_000_000, -2_000_000)),
        CameraMotion::Pan { dx: 25_000, dy: -5_000 }
    );
}

#[test]
fn interpret_saturates_the_opposite_of_the_least_motion() {
    let mut ctl = CameraController::new(1_000_000, 1_000_000);
    ctl.interpret(&button(true));
    assert_eq!(
        ctl.interpret(&motion(i64::MIN, i64::MIN)),
        CameraMotion::Rotate { yaw: i64::MAX, pitch: i64::MIN }
    );
    assert_eq!(ctl.interpret(&lines(i64::MIN)), CameraMotion::Zoom { delta: i64::MAX });
}

#[test]
fn modes_follow_the_flags() {
    let mut cam = camera();
    let mut ctl = controller();
    assert_eq!(ctl.current_mode(), Mode::Idle);
    ctl.process_keyed_events(&shift(true));
    assert_eq!(ctl.current_mode(), Mode::Panning);
    ctl.process_keyed_events(&shift(false));
    assert_eq!(ctl.current_mode(), Mode::Idle);
    ctl.process_events(&button(true), &screen(), &mut cam);
    assert_eq!(ctl.current_mode(), Mode::Rotating);
    ctl.process_keyed_events(&shift(true));
    assert_eq!(ctl.current_mode(), Mode::Panning);
    ctl.process_events(&button(false), &screen(), &mut cam);
    assert_eq!(ctl.current_mode(), Mode::Idle);
}
