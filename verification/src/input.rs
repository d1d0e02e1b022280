//! Which input event reaches the camera's controller.

use crate::camera::{Controller, ControllerView, ElementState, Key, MouseScrollDelta};
use crate::scalar::Scalar;
use vstd::prelude::*;

verus! {

/// The number of the left mouse button.
pub const LEFT_MOUSE_BUTTON: u32 = 1;

/// An event of an input device, as far as the scene reacts to it.
#[derive(Clone, Copy, Debug, PartialEq, Eq, Structural)]
pub enum DeviceEvent {
    /// A key went down or came up.
    Key(Key, ElementState),
    /// The wheel was turned.
    MouseWheel(MouseScrollDelta),
    /// A mouse button went down or came up.
    Button { button: u32, state: ElementState },
    /// The mouse was moved, by so much to the right and so much down.
    MouseMotion(Scalar, Scalar),
    /// Anything else.
    Other,
}

/// What a [`State`] holds.
pub struct StateView {
    pub mouse_pressed: bool,
    pub camera_controller: ControllerView,
}

impl StateView {
    /// The state after `event`.
    ///
    /// A key goes to the controller. A turn of the wheel does too. The left
    /// mouse button is remembered as held or not. A move of the mouse
    /// reaches the controller only while that button is held.
    pub open spec fn after(self, event: DeviceEvent) -> StateView {
        match event {
            DeviceEvent::Key(key, state) => StateView {
                camera_controller: self.camera_controller.with_key(key, state),
                ..self
            },
            DeviceEvent::MouseWheel(delta) => StateView {
                camera_controller: self.camera_controller.with_scroll(delta),
                ..self
            },
            DeviceEvent::Button { button, state } => if button == LEFT_MOUSE_BUTTON {
                StateView { mouse_pressed: state == ElementState::Pressed, ..self }
            } else {
                self
            },
            DeviceEvent::MouseMotion(dx, dy) => if self.mouse_pressed {
                StateView {
                    camera_controller: self.camera_controller.with_mouse_move(dx, dy),
                    ..self
                }
            } else {
                self
            },
            DeviceEvent::Other => self,
        }
    }

    /// Whether `event` is one that the scene takes for itself: a key that
    /// pushes the camera, a turn of the wheel, the left mouse button, or a
    /// move of the mouse.
    pub open spec fn captures(event: DeviceEvent) -> bool {
        match event {
            DeviceEvent::Key(key, _) => key.spec_direction().is_some(),
            DeviceEvent::MouseWheel(_) => true,
            DeviceEvent::Button { button, state: _ } => button == LEFT_MOUSE_BUTTON,
            DeviceEvent::MouseMotion(_, _) => true,
            DeviceEvent::Other => false,
        }
    }
}

/// The controller together with what deciding on an event needs to
/// remember: whether the left mouse button is held.
#[derive(Clone, Copy, Debug)]
pub struct State {
    pub mouse_pressed: bool,
    pub camera_controller: Controller,
}

impl View for State {
    type V = StateView;

    open spec fn view(&self) -> StateView {
        StateView { mouse_pressed: self.mouse_pressed, camera_controller: self.camera_controller@ }
    }
}

impl State {
    /// A state in which no mouse button is held.
    pub fn new(camera_controller: Controller) -> (state: State)
        ensures
            state@ == (StateView {
                mouse_pressed: false,
                camera_controller: camera_controller@,
            }),
    {
        State { mouse_pressed: false, camera_controller }
    }

    /// Takes in `event`. Returns whether the scene takes the event for
    /// itself, so that it need not be handled any further.
    pub fn input(&mut self, event: &DeviceEvent) -> (captured: bool)
        ensures
            final(self)@ == old(self)@.after(*event),
            captured == StateView::captures(*event),
    {
        match event {
            DeviceEvent::Key(key, state) => self.camera_controller.process_keyboard(*key, *state),
            DeviceEvent::MouseWheel(delta) => {
                self.camera_controller.process_scroll(delta);
                true
            },
            DeviceEvent::Button { button, state } => {
                if *button == LEFT_MOUSE_BUTTON {
                    self.mouse_pressed = match state {
                        ElementState::Pressed => true,
                        ElementState::Released => false,
                    };
                    true
                } else {
                    false
                }
            },
            DeviceEvent::MouseMotion(dx, dy) => {
                if self.mouse_pressed {
                    self.camera_controller.process_mouse(*dx, *dy);
                }
                true
            },
            DeviceEvent::Other => false,
        }
    }
}

} // verus!
