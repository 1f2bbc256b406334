//! Classification of raw device input, forwarded over a channel of its own.
use std::sync::mpsc::Sender;
use std::time::Instant;
use vstd::prelude::*;

use crate::channel::deliver;
use crate::event::{DeviceEvent, DeviceId, ElementState, Float32, Float64, MouseScrollDelta};

verus! {

#[verifier::external_type_specification]
#[verifier::external_body]
pub struct ExInstant(Instant);

/// Relies on `Instant::now`: the moment of the call. Nothing is promised of it.
#[verifier::external_body]
fn capture_time() -> (r: Instant) {
    Instant::now()
}

/// A scroll amount as a horizontal and a vertical part, in the units the device
/// reported: lines, already scaled, or pixels.
#[derive(Clone, Copy, Debug, PartialEq, Eq)]
pub enum Scroll {
    Lines { horizontal: Float32, vertical: Float32 },
    Pixels { horizontal: Float64, vertical: Float64 },
}

/// The scroll amount of a wheel delta: both parts pass through unchanged.
pub open spec fn scroll_of(delta: MouseScrollDelta) -> Scroll {
    match delta {
        MouseScrollDelta::LineDelta(h, v) => Scroll::Lines { horizontal: h, vertical: v },
        MouseScrollDelta::PixelDelta(p) => Scroll::Pixels { horizontal: p.x, vertical: p.y },
    }
}

impl From<MouseScrollDelta> for Scroll {
    fn from(delta: MouseScrollDelta) -> (r: Scroll)
        ensures
            r == scroll_of(delta),
    {
        match delta {
            MouseScrollDelta::LineDelta(h, v) => Scroll::Lines { horizontal: h, vertical: v },
            MouseScrollDelta::PixelDelta(p) => Scroll::Pixels { horizontal: p.x, vertical: p.y },
        }
    }
}

impl vstd::std_specs::convert::FromSpecImpl<MouseScrollDelta> for Scroll {
    open spec fn obeys_from_spec() -> bool {
        true
    }

    open spec fn from_spec(delta: MouseScrollDelta) -> Scroll {
        scroll_of(delta)
    }
}

/// Which mouse button.
#[derive(Clone, Copy, Debug, PartialEq, Eq)]
pub enum MouseButton {
    Left,
    Right,
    Wheel,
    Additional(u32),
}

/// What a mouse button did. Click and double click are reserved: no device
/// event is classified as either.
#[derive(Clone, Copy, Debug, PartialEq, Eq)]
pub enum ButtonState {
    Pressed,
    Released,
    Click,
    DblClick,
}

/// A mouse button and what it did.
#[derive(Clone, Copy, Debug, PartialEq, Eq)]
pub struct ButtonInput {
    pub button: MouseButton,
    pub state: ButtonState,
}

/// Input from a mouse.
#[derive(Clone, Copy, Debug, PartialEq, Eq)]
pub enum MouseInput {
    Move((Float64, Float64)),
    Button(ButtonInput),
    Scroll(Scroll),
}

/// Input from a keyboard, by virtual key code.
#[derive(Clone, Copy, Debug, PartialEq, Eq)]
pub enum KeyboardInput {
    Pressed(u32),
    Released(u32),
}

/// What kind of input a device gave.
#[derive(Clone, Copy, Debug, PartialEq, Eq)]
pub enum InputType {
    Added,
    Removed,
    Mouse(MouseInput),
    Keyboard(KeyboardInput),
}

/// One classified input: the device, when it was captured, and what it was.
#[derive(Clone, Copy, Debug)]
pub struct Input {
    pub device_id: DeviceId,
    pub captured_at: Instant,
    pub input_type: InputType,
}

/// The button input of a raw button event: the button by its number, and the
/// press or release.
pub open spec fn button_input_of(button: u32, state: ElementState) -> ButtonInput {
    ButtonInput {
        button: MouseButton::Additional(button),
        state: match state {
            ElementState::Pressed => ButtonState::Pressed,
            ElementState::Released => ButtonState::Released,
        },
    }
}

/// The kind of input a raw device event stands for, if it is one that is classified.
pub open spec fn input_type_of(event: DeviceEvent) -> Option<InputType> {
    match event {
        DeviceEvent::Added => Some(InputType::Added),
        DeviceEvent::Removed => Some(InputType::Removed),
        DeviceEvent::MouseMotion { delta } => Some(InputType::Mouse(MouseInput::Move(delta))),
        DeviceEvent::MouseWheel { delta } => Some(InputType::Mouse(MouseInput::Scroll(scroll_of(delta)))),
        DeviceEvent::Button { button, state } => Some(
            InputType::Mouse(MouseInput::Button(button_input_of(button, state))),
        ),
        _ => None,
    }
}

fn button_input(button: u32, state: ElementState) -> (r: ButtonInput)
    ensures
        r == button_input_of(button, state),
{
    ButtonInput {
        button: MouseButton::Additional(button),
        state: match state {
            ElementState::Pressed => ButtonState::Pressed,
            ElementState::Released => ButtonState::Released,
        },
    }
}

/// Classifies a raw device event captured at the given moment. Device arrival and
/// removal, mouse motion, wheel and buttons give an input; other events give none.
pub fn classify(event: DeviceEvent, device_id: DeviceId, captured_at: Instant) -> (r: Option<Input>)
    ensures
        match input_type_of(event) {
            Some(t) => r == Some(Input { device_id, captured_at, input_type: t }),
            None => r is None,
        },
{
    let input_type = match event {
        DeviceEvent::Added => InputType::Added,
        DeviceEvent::Removed => InputType::Removed,
        DeviceEvent::MouseMotion { delta } => InputType::Mouse(MouseInput::Move(delta)),
        DeviceEvent::MouseWheel { delta } => InputType::Mouse(MouseInput::Scroll(Scroll::from(delta))),
        DeviceEvent::Button { button, state } => InputType::Mouse(
            MouseInput::Button(button_input(button, state)),
        ),
        _ => {
            return None;
        },
    };
    Some(Input { device_id, captured_at, input_type })
}

/// Whether an input is worth reporting to a log: everything but mouse motion,
/// which comes too often.
pub fn is_reported(input: &Input) -> (r: bool)
    ensures
        r == !(input.input_type matches InputType::Mouse(MouseInput::Move(_))),
{
    match input.input_type {
        InputType::Mouse(MouseInput::Move(_)) => false,
        _ => true,
    }
}

/// Turns raw device events into classified inputs and forwards them.
pub struct InputController {
    sender: Sender<Input>,
}

impl InputController {
    pub fn new(sender: Sender<Input>) -> Self {
        InputController { sender }
    }

    /// Classifies one raw device event, stamped with the moment of the call, and
    /// sends the input on if there is one. Gives `None` when the event is not
    /// classified, else whether the input was delivered: when the receiver is gone
    /// the input is dropped, and the caller, never held up by a missing consumer,
    /// can report it.
    pub fn process_input(self, event: DeviceEvent, device_id: DeviceId) -> (r: Option<bool>)
        ensures
            (r is None) == (input_type_of(event) is None),
    {
        match classify(event, device_id, capture_time()) {
            Some(input) => Some(deliver(&self.sender, input)),
            None => None,
        }
    }
}

} // verus!
