//! The input router: turns raw device and key events into camera motions.
//!
//! The router keeps two flags, of which at most one is set. `is_pan`
//! follows the left shift key, and the key always wins: when it goes down,
//! `is_pan` is set and a rotation that is under way ends. `is_drag_rotate`
//! follows the primary mouse button while `is_pan` is clear; while `is_pan`
//! is set, the button writes to `is_pan` instead, so pressing the button
//! under shift does not start a rotation. A pointer motion pans while
//! `is_pan` is set, rotates while `is_drag_rotate` is set, and is ignored
//! otherwise.
use crate::fixed::{
    lemma_scaled_odd, lemma_scaled_sign, lemma_scaled_zero, narrow, saturate, scaled,
    scaled_product, scaled_wide,
};
use crate::orbit_camera::{
    lemma_pan_zero, moved, CameraMotion, CameraSnapshot, OrbitCamera, ViewBasis,
};
use vstd::prelude::*;

verus! {

/// The id under which most platforms report the primary mouse button.
pub const PRIMARY_BUTTON: u32 = 1;

/// The id under which macOS reports the primary mouse button.
pub const PRIMARY_BUTTON_MACOS: u32 = 0;

/// How far a wheel turned. Both kinds are read alike: one line counts as one
/// pixel.
#[derive(Clone, Copy, Debug, PartialEq, Eq, Structural)]
pub enum MouseScrollDelta {
    /// Lines or rows, as a wheel with notches reports them.
    LineDelta { x: i64, y: i64 },
    /// Pixels, as a touchpad reports them.
    PixelDelta { x: i64, y: i64 },
}

impl MouseScrollDelta {
    /// The vertical amount, whichever the kind.
    pub open spec fn vertical(self) -> i64 {
        match self {
            MouseScrollDelta::LineDelta { x, y } => y,
            MouseScrollDelta::PixelDelta { x, y } => y,
        }
    }
}

/// A raw event of an input device.
#[derive(Clone, Copy, Debug, PartialEq, Eq, Structural)]
pub enum DeviceEvent {
    /// A mouse button went down or up.
    Button { button: u32, pressed: bool },
    /// The wheel turned.
    MouseWheel { delta: MouseScrollDelta },
    /// The pointer moved by `dx` to the right and `dy` down.
    MouseMotion { dx: i64, dy: i64 },
    /// Any other event.
    Other,
}

/// The keys the router tells apart.
#[derive(Clone, Copy, Debug, PartialEq, Eq, Structural)]
pub enum KeyCode {
    ShiftLeft,
    Other,
}

/// A key went down or up.
#[derive(Clone, Copy, Debug, PartialEq, Eq, Structural)]
pub struct KeyEvent {
    pub key_code: KeyCode,
    pub pressed: bool,
}

/// What a pointer motion means at the moment.
#[derive(Clone, Copy, Debug, PartialEq, Eq, Structural)]
pub enum Mode {
    Idle,
    Rotating,
    Panning,
}

/// What a controller holds: its settings and its two flags.
#[derive(Clone, Copy, Debug, PartialEq, Eq, Structural)]
pub struct ControllerState {
    /// Radians of rotation, or world units of pan, per pixel of motion.
    pub rotate_speed: i64,
    /// World units of distance per line of scroll.
    pub zoom_speed: i64,
    /// The button id that counts as the primary button.
    pub primary_button: u32,
    pub is_drag_rotate: bool,
    pub is_pan: bool,
}

/// The input router. Its fields are private: the flags change through
/// events alone, and at most one of them is ever set.
#[derive(Debug)]
pub struct CameraController {
    rotate_speed: i64,
    zoom_speed: i64,
    primary_button: u32,
    is_drag_rotate: bool,
    is_pan: bool,
}

impl View for CameraController {
    type V = ControllerState;

    closed spec fn view(&self) -> ControllerState {
        ControllerState {
            rotate_speed: self.rotate_speed,
            zoom_speed: self.zoom_speed,
            primary_button: self.primary_button,
            is_drag_rotate: self.is_drag_rotate,
            is_pan: self.is_pan,
        }
    }
}

impl ControllerState {
    /// At most one of the two flags is set. This holds of every controller.
    pub open spec fn exclusive(self) -> bool {
        !(self.is_drag_rotate && self.is_pan)
    }

    /// The mode the flags stand for. Of a state with both flags set, which
    /// no controller is in, panning has priority.
    pub open spec fn mode(self) -> Mode {
        if self.is_pan {
            Mode::Panning
        } else if self.is_drag_rotate {
            Mode::Rotating
        } else {
            Mode::Idle
        }
    }

    /// The controller after a device event. Only an event of the primary
    /// button changes it: the button's state goes to `is_pan` while that is
    /// set, and to `is_drag_rotate` otherwise.
    pub open spec fn after_device_event(self, event: DeviceEvent) -> ControllerState {
        match event {
            DeviceEvent::Button { button, pressed } if button == self.primary_button => {
                if self.is_pan {
                    ControllerState { is_pan: pressed, ..self }
                } else {
                    ControllerState { is_drag_rotate: pressed, ..self }
                }
            },
            _ => self,
        }
    }

    /// The controller after a key event: the left shift key sets `is_pan` to
    /// its state and, going down, ends a rotation; any other key changes
    /// nothing.
    pub open spec fn after_key_event(self, event: KeyEvent) -> ControllerState {
        match event.key_code {
            KeyCode::ShiftLeft => ControllerState {
                is_pan: event.pressed,
                is_drag_rotate: self.is_drag_rotate && !event.pressed,
                ..self
            },
            KeyCode::Other => self,
        }
    }

    /// The motion a device event calls for. Scrolling forward zooms in by
    /// the amount times `zoom_speed`. While rotating, a pointer motion to
    /// the right lowers the yaw and one downward raises the pitch, each by
    /// the pixels times `rotate_speed`; while panning, it pans by the same
    /// amounts.
    pub open spec fn motion_for(self, event: DeviceEvent) -> CameraMotion {
        match event {
            DeviceEvent::MouseWheel { delta } => CameraMotion::Zoom {
                delta: saturate(scaled(-(delta.vertical() as int), self.zoom_speed as int)) as i64,
            },
            DeviceEvent::MouseMotion { dx, dy } => match self.mode() {
                Mode::Rotating => CameraMotion::Rotate {
                    yaw: saturate(scaled(-(dx as int), self.rotate_speed as int)) as i64,
                    pitch: saturate(scaled(dy as int, self.rotate_speed as int)) as i64,
                },
                Mode::Panning => CameraMotion::Pan {
                    dx: saturate(scaled(dx as int, self.rotate_speed as int)) as i64,
                    dy: saturate(scaled(dy as int, self.rotate_speed as int)) as i64,
                },
                Mode::Idle => CameraMotion::Still,
            },
            _ => CameraMotion::Still,
        }
    }

}

impl CameraController {
    /// At most one flag is set, in every controller at every moment.
    #[verifier::type_invariant]
    pub open spec fn inv(self) -> bool {
        self@.exclusive()
    }

    /// A controller at rest, for the primary button of most platforms.
    pub fn new(rotate_speed: i64, zoom_speed: i64) -> (c: Self)
        ensures
            c@ == (ControllerState {
                rotate_speed,
                zoom_speed,
                primary_button: PRIMARY_BUTTON,
                is_drag_rotate: false,
                is_pan: false,
            }),
            c@.exclusive(),
    {
        CameraController {
            rotate_speed,
            zoom_speed,
            primary_button: PRIMARY_BUTTON,
            is_drag_rotate: false,
            is_pan: false,
        }
    }

    /// The controller as it stands.
    pub fn state(&self) -> (state: ControllerState)
        ensures
            state == self@,
            state.exclusive(),
    {
        proof {
            use_type_invariant(self);
        }
        ControllerState {
            rotate_speed: self.rotate_speed,
            zoom_speed: self.zoom_speed,
            primary_button: self.primary_button,
            is_drag_rotate: self.is_drag_rotate,
            is_pan: self.is_pan,
        }
    }

    /// Makes another button the primary one, as on macOS, which reports it
    /// as [`PRIMARY_BUTTON_MACOS`].
    pub fn set_primary_button(&mut self, button: u32)
        ensures
            final(self)@ == (ControllerState { primary_button: button, ..old(self)@ }),
            final(self)@.exclusive(),
    {
        proof {
            use_type_invariant(&*self);
        }
        self.primary_button = button;
    }

    /// The mode the controller is in.
    pub fn current_mode(&self) -> (mode: Mode)
        ensures
            mode == self@.mode(),
    {
        if self.is_pan {
            Mode::Panning
        } else if self.is_drag_rotate {
            Mode::Rotating
        } else {
            Mode::Idle
        }
    }

    /// Takes in a device event and says what the camera is to do.
    pub fn interpret(&mut self, event: &DeviceEvent) -> (motion: CameraMotion)
        ensures
            final(self)@ == old(self)@.after_device_event(*event),
            motion == old(self)@.motion_for(*event),
            final(self)@.exclusive(),
    {
        proof {
            use_type_invariant(&*self);
        }
        match event {
            DeviceEvent::Button { button, pressed } => {
                if *button == self.primary_button {
                    if self.is_pan {
                        self.is_pan = *pressed;
                    } else {
                        self.is_drag_rotate = *pressed;
                    }
                }
                CameraMotion::Still
            },
            DeviceEvent::MouseWheel { delta } => {
                let scroll: i64 = match delta {
                    MouseScrollDelta::LineDelta { x: _, y } => *y,
                    MouseScrollDelta::PixelDelta { x: _, y } => *y,
                };
                CameraMotion::Zoom { delta: opposite_scaled(scroll, self.zoom_speed) }
            },
            DeviceEvent::MouseMotion { dx, dy } => {
                if self.is_pan {
                    CameraMotion::Pan {
                        dx: scaled_product(*dx, self.rotate_speed),
                        dy: scaled_product(*dy, self.rotate_speed),
                    }
                } else if self.is_drag_rotate {
                    CameraMotion::Rotate {
                        yaw: opposite_scaled(*dx, self.rotate_speed),
                        pitch: scaled_product(*dy, self.rotate_speed),
                    }
                } else {
                    CameraMotion::Still
                }
            },
            DeviceEvent::Other => CameraMotion::Still,
        }
    }

    /// Takes in a device event and moves the camera as it calls for. Returns
    /// whether the frame needs to be drawn again: after every scroll, and
    /// after a pointer motion that rotated or panned.
    pub fn process_events(&mut self, event: &DeviceEvent, basis: &ViewBasis, camera: &mut OrbitCamera) -> (redraw: bool)
        ensures
            final(self)@ == old(self)@.after_device_event(*event),
            final(camera)@ == moved(old(camera)@, old(self)@.motion_for(*event), *basis),
            final(camera)@.wf(),
            redraw == (old(self)@.motion_for(*event) != CameraMotion::Still),
            final(self)@.exclusive(),
    {
        let motion = self.interpret(event);
        camera.apply(&motion, basis);
        !matches!(motion, CameraMotion::Still)
    }

    /// Takes in a key event: the left shift key switches panning on and
    /// off, and ends a rotation when it switches panning on.
    pub fn process_keyed_events(&mut self, event: &KeyEvent)
        ensures
            final(self)@ == old(self)@.after_key_event(*event),
            final(self)@.exclusive(),
    {
        proof {
            use_type_invariant(&*self);
        }
        match event.key_code {
            KeyCode::ShiftLeft => {
                if event.pressed {
                    self.is_drag_rotate = false;
                }
                self.is_pan = event.pressed;
            },
            KeyCode::Other => {},
        }
    }
}

/// The fixed-point product of the opposite of `amount` and `factor`.
fn opposite_scaled(amount: i64, factor: i64) -> (r: i64)
    ensures
        r as int == saturate(scaled(-(amount as int), factor as int)),
{
    proof {
        lemma_scaled_odd(amount as int, factor as int);
    }
    narrow(-scaled_wide(amount, factor))
}

/// While rotating, a pointer motion along the horizontal turns the camera
/// but leaves its pitch, distance and target as they are.
pub proof fn lemma_horizontal_drag_keeps_pitch(
    controller: ControllerState,
    cam: CameraSnapshot,
    basis: ViewBasis,
    dx: i64,
)
    requires
        cam.wf(),
        controller.mode() == Mode::Rotating,
    ensures
        ({
            let after = moved(cam, controller.motion_for(DeviceEvent::MouseMotion { dx, dy: 0 }), basis);
            &&& after.state.pitch == cam.state.pitch
            &&& after.state.distance == cam.state.distance
            &&& after.state.target == cam.state.target
            &&& after.state.yaw == saturate(
                cam.state.yaw + saturate(-scaled(dx as int, controller.rotate_speed as int)),
            )
        }),
{
    lemma_scaled_zero(controller.rotate_speed as int);
    lemma_scaled_odd(dx as int, controller.rotate_speed as int);
}

/// While panning, a pointer motion by nothing leaves the camera as it is.
pub proof fn lemma_pan_in_place(controller: ControllerState, cam: CameraSnapshot, basis: ViewBasis)
    requires
        controller.mode() == Mode::Panning,
    ensures
        controller.motion_for(DeviceEvent::MouseMotion { dx: 0, dy: 0 }) == (CameraMotion::Pan {
            dx: 0,
            dy: 0,
        }),
        moved(cam, controller.motion_for(DeviceEvent::MouseMotion { dx: 0, dy: 0 }), basis) == cam,
{
    lemma_scaled_zero(controller.rotate_speed as int);
    lemma_pan_zero(cam.state.target, basis);
}

/// With a zoom speed that is not negative, scrolling forward never takes
/// the eye of a well-formed camera farther from the target, and scrolling
/// backward never takes it nearer.
pub proof fn lemma_scroll_direction(
    controller: ControllerState,
    cam: CameraSnapshot,
    basis: ViewBasis,
    delta: MouseScrollDelta,
)
    requires
        cam.wf(),
        controller.zoom_speed >= 0,
    ensures
        ({
            let after = moved(cam, controller.motion_for(DeviceEvent::MouseWheel { delta }), basis);
            &&& delta.vertical() >= 0 ==> after.state.distance <= cam.state.distance
            &&& delta.vertical() <= 0 ==> after.state.distance >= cam.state.distance
        }),
{
    let y = delta.vertical() as int;
    let speed = controller.zoom_speed as int;
    if y >= 0 {
        lemma_scaled_sign(-y, speed);
    }
    if y <= 0 {
        lemma_scaled_odd(y, speed);
        lemma_scaled_sign(y, speed);
    }
}

/// The two flags exclude each other, and no event ends that: a controller
/// with at most one flag set has at most one flag set after any device
/// event and after any key event. After a press of the left shift key the
/// controller pans, whatever it did before.
pub proof fn lemma_flags_stay_exclusive(controller: ControllerState, device: DeviceEvent, key: KeyEvent)
    requires
        controller.exclusive(),
    ensures
        controller.after_device_event(device).exclusive(),
        controller.after_key_event(key).exclusive(),
        key.key_code == KeyCode::ShiftLeft && key.pressed ==> controller.after_key_event(key).mode()
            == Mode::Panning,
{
}

/// No device event but one of the primary button changes the controller,
/// and no event at all changes its speeds or its button.
pub proof fn lemma_only_the_button_changes_flags(controller: ControllerState, event: DeviceEvent)
    ensures
        !(event is Button) ==> controller.after_device_event(event) == controller,
        controller.after_device_event(event).rotate_speed == controller.rotate_speed,
        controller.after_device_event(event).zoom_speed == controller.zoom_speed,
        controller.after_device_event(event).primary_button == controller.primary_button,
{
}

} // verus!
