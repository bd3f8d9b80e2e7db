//! The decisions of the frame loop.
//!
//! The loop itself lives with the window and the renderer. What it decides
//! stands here: which window events the viewer keeps to itself, which reach
//! the input router, when the surface is configured anew, and what follows a
//! frame that could not be presented. Each function takes an event and hands
//! back what the loop is to do.
use crate::camera_controller::{CameraController, KeyCode, KeyEvent};
use crate::orbit_camera::{OrbitCamera, resized};
use vstd::prelude::*;
use vstd::string::*;

verus! {

/// The meaning of a key under the current keyboard layout.
#[derive(Debug, PartialEq, Eq)]
pub enum LogicalKey {
    Escape,
    /// A key that types `text`.
    Character { text: String },
    Other,
}

#[derive(Clone, Copy, Debug, PartialEq, Eq, Structural)]
pub enum MouseButton {
    Left,
    Other,
}

/// An event of the viewer's window.
#[derive(Debug, PartialEq, Eq)]
pub enum WindowEvent {
    CloseRequested,
    KeyboardInput { logical_key: LogicalKey, key_code: KeyCode, repeat: bool, pressed: bool },
    MouseInput { button: MouseButton, pressed: bool },
    Resized { width: u32, height: u32 },
    RedrawRequested,
    Other,
}

/// How an attempt to draw a frame ended.
#[derive(Clone, Copy, Debug, PartialEq, Eq, Structural)]
pub enum RenderOutcome {
    Presented,
    /// The surface was lost and has to be configured again.
    Lost,
    OutOfMemory,
    /// Any other failure; the next frame is expected to succeed.
    Failed,
}

/// What the loop is to do next.
#[derive(Clone, Copy, Debug, PartialEq, Eq, Structural)]
pub enum FrameAction {
    Nothing,
    /// Leave the loop.
    Exit,
    /// Ask the window for a new frame.
    Redraw,
    /// The viewport changed: configure the surface again if `reconfigure`
    /// is set, build the depth buffer anew, and ask for a new frame.
    Resized { reconfigure: bool },
    /// Upload the camera and draw a frame.
    Render,
    /// Report the failure and go on.
    Report,
}

/// What became of an event that was offered to the viewer itself.
#[derive(Clone, Copy, Debug, PartialEq, Eq, Structural)]
pub struct InputOutcome {
    /// The viewer kept the event: nothing else is to see it.
    pub consumed: bool,
    /// A new frame is needed.
    pub redraw: bool,
}

/// The viewer's own state beside the camera.
#[derive(Clone, Copy, Debug, PartialEq, Eq, Structural)]
pub struct FrameState {
    /// Width of the configured surface, in pixels.
    pub width: u32,
    /// Height of the configured surface, in pixels.
    pub height: u32,
    pub mouse_pressed: bool,
    /// Draw outlines instead of filled faces.
    pub debug: bool,
}

/// The text of the key that switches the debug view.
pub open spec fn debug_key() -> Seq<char> {
    seq!['j']
}

impl WindowEvent {
    /// The event is of the key that switches the debug view.
    pub open spec fn is_debug_key(self) -> bool {
        self matches WindowEvent::KeyboardInput { logical_key: LogicalKey::Character { text }, .. }
            && text@ == debug_key()
    }
}

impl FrameState {
    /// The state after the viewer was offered an event. A fresh press of
    /// the debug key flips `debug`; the left mouse button sets
    /// `mouse_pressed`.
    pub open spec fn after_input(self, event: WindowEvent) -> FrameState {
        match event {
            WindowEvent::KeyboardInput { repeat, pressed, .. } => {
                if event.is_debug_key() && !repeat && pressed {
                    FrameState { debug: !self.debug, ..self }
                } else {
                    self
                }
            },
            WindowEvent::MouseInput { button: MouseButton::Left, pressed } => FrameState {
                mouse_pressed: pressed,
                ..self
            },
            _ => self,
        }
    }

    /// What becomes of an event that the viewer is offered: it keeps every
    /// event of the debug key and of the left mouse button, and needs a new
    /// frame when `debug` flipped.
    pub open spec fn input_outcome(self, event: WindowEvent) -> InputOutcome {
        match event {
            WindowEvent::KeyboardInput { repeat, pressed, .. } => InputOutcome {
                consumed: event.is_debug_key(),
                redraw: event.is_debug_key() && !repeat && pressed,
            },
            WindowEvent::MouseInput { button: MouseButton::Left, .. } => InputOutcome {
                consumed: true,
                redraw: false,
            },
            _ => InputOutcome { consumed: false, redraw: false },
        }
    }

    /// The state after the viewport changed: a size with no width or no
    /// height is not taken over.
    pub open spec fn after_resize(self, width: u32, height: u32) -> FrameState {
        if width > 0 && height > 0 {
            FrameState { width, height, ..self }
        } else {
            self
        }
    }

    /// The state after a window event.
    pub open spec fn after_window_event(self, event: WindowEvent) -> FrameState {
        if self.input_outcome(event).consumed {
            self.after_input(event)
        } else {
            match event {
                WindowEvent::Resized { width, height } => self.after_resize(width, height),
                _ => self,
            }
        }
    }

    /// The key event that a window event hands on to the input router, if
    /// any: every keyboard event that the viewer did not keep and that is
    /// not of the escape key.
    pub open spec fn routed_key(self, event: WindowEvent) -> Option<KeyEvent> {
        match event {
            WindowEvent::KeyboardInput { logical_key, key_code, pressed, .. } => {
                if event.is_debug_key() || logical_key is Escape {
                    None
                } else {
                    Some(KeyEvent { key_code, pressed })
                }
            },
            _ => None,
        }
    }

    /// What the loop is to do after a window event.
    pub open spec fn action_for(self, event: WindowEvent) -> FrameAction {
        let outcome = self.input_outcome(event);
        if outcome.consumed {
            if outcome.redraw {
                FrameAction::Redraw
            } else {
                FrameAction::Nothing
            }
        } else {
            match event {
                WindowEvent::CloseRequested => FrameAction::Exit,
                WindowEvent::KeyboardInput { logical_key: LogicalKey::Escape, .. } => FrameAction::Exit,
                WindowEvent::Resized { width, height } => FrameAction::Resized {
                    reconfigure: width > 0 && height > 0,
                },
                WindowEvent::RedrawRequested => FrameAction::Render,
                _ => FrameAction::Nothing,
            }
        }
    }

    /// The state of a viewer whose surface is `width` by `height` pixels.
    pub fn new(width: u32, height: u32) -> (state: Self)
        ensures
            state == (FrameState { width, height, mouse_pressed: false, debug: false }),
    {
        FrameState { width, height, mouse_pressed: false, debug: false }
    }

    /// Offers an event to the viewer itself.
    pub fn input(&mut self, event: &WindowEvent) -> (outcome: InputOutcome)
        ensures
            *final(self) == old(self).after_input(*event),
            outcome == old(self).input_outcome(*event),
    {
        match event {
            WindowEvent::KeyboardInput { logical_key: LogicalKey::Character { text }, key_code: _, repeat, pressed } => {
                if is_debug_text(text) {
                    let fresh: bool = !*repeat && *pressed;
                    if fresh {
                        self.debug = !self.debug;
                    }
                    InputOutcome { consumed: true, redraw: fresh }
                } else {
                    InputOutcome { consumed: false, redraw: false }
                }
            },
            WindowEvent::MouseInput { button: MouseButton::Left, pressed } => {
                self.mouse_pressed = *pressed;
                InputOutcome { consumed: true, redraw: false }
            },
            _ => InputOutcome { consumed: false, redraw: false },
        }
    }

    /// Takes in a new viewport size. The camera's aspect follows it; the
    /// surface is to be configured again only for a size with both width
    /// and height.
    pub fn resize(&mut self, width: u32, height: u32, camera: &mut OrbitCamera) -> (reconfigure: bool)
        ensures
            *final(self) == old(self).after_resize(width, height),
            final(camera)@ == resized(old(camera)@, width, height),
            final(camera)@.wf(),
            reconfigure == (width > 0 && height > 0),
    {
        let reconfigure: bool = width > 0 && height > 0;
        if reconfigure {
            self.width = width;
            self.height = height;
        }
        camera.resize_projection(width, height);
        reconfigure
    }

    /// Takes in a window event: offers it to the viewer, and hands what the
    /// viewer did not keep to the router or the camera.
    pub fn on_window_event(
        &mut self,
        event: &WindowEvent,
        controller: &mut CameraController,
        camera: &mut OrbitCamera,
    ) -> (action: FrameAction)
        ensures
            *final(self) == old(self).after_window_event(*event),
            action == old(self).action_for(*event),
            final(controller)@ == match old(self).routed_key(*event) {
                Some(key) => old(controller)@.after_key_event(key),
                None => old(controller)@,
            },
            final(controller)@.exclusive(),
            final(camera)@ == match *event {
                WindowEvent::Resized { width, height } => resized(old(camera)@, width, height),
                _ => old(camera)@,
            },
            final(camera)@.wf(),
    {
        proof {
            use_type_invariant(&*camera);
            use_type_invariant(&*controller);
        }
        let outcome = self.input(event);
        if outcome.consumed {
            return if outcome.redraw {
                FrameAction::Redraw
            } else {
                FrameAction::Nothing
            };
        }
        match event {
            WindowEvent::CloseRequested => FrameAction::Exit,
            WindowEvent::KeyboardInput { logical_key: LogicalKey::Escape, .. } => FrameAction::Exit,
            WindowEvent::KeyboardInput { logical_key: _, key_code, repeat: _, pressed } => {
                controller.process_keyed_events(&KeyEvent { key_code: *key_code, pressed: *pressed });
                FrameAction::Nothing
            },
            WindowEvent::Resized { width, height } => {
                let reconfigure = self.resize(*width, *height, camera);
                FrameAction::Resized { reconfigure }
            },
            WindowEvent::RedrawRequested => FrameAction::Render,
            _ => FrameAction::Nothing,
        }
    }

    /// Says what follows an attempt to draw a frame. A lost surface is
    /// answered by taking in the current size once more.
    pub fn on_render_outcome(&mut self, outcome: RenderOutcome, camera: &mut OrbitCamera) -> (action: FrameAction)
        ensures
            *final(self) == *old(self),
            final(camera)@ == (if outcome == RenderOutcome::Lost {
                resized(old(camera)@, old(self).width, old(self).height)
            } else {
                old(camera)@
            }),
            final(camera)@.wf(),
            action == match outcome {
                RenderOutcome::Presented => FrameAction::Nothing,
                RenderOutcome::Lost => FrameAction::Resized {
                    reconfigure: old(self).width > 0 && old(self).height > 0,
                },
                RenderOutcome::OutOfMemory => FrameAction::Exit,
                RenderOutcome::Failed => FrameAction::Report,
            },
    {
        proof {
            use_type_invariant(&*camera);
        }
        match outcome {
            RenderOutcome::Presented => FrameAction::Nothing,
            RenderOutcome::Lost => {
                let reconfigure = self.resize(self.width, self.height, camera);
                FrameAction::Resized { reconfigure }
            },
            RenderOutcome::OutOfMemory => FrameAction::Exit,
            RenderOutcome::Failed => FrameAction::Report,
        }
    }
}

/// Whether `text` is the text of the debug key.
fn is_debug_text(text: &String) -> (r: bool)
    ensures
        r == (text@ == debug_key()),
{
    let s = text.as_str();
    let r: bool = s.unicode_len() == 1 && s.get_char(0) == 'j';
    assert(r == (text@ =~= debug_key()));
    r
}

} // verus!
