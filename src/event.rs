//! The normalized event model, and the translation of platform events into it.
//!
//! Every value here is plain data owned by the event: identifiers are integers,
//! floating-point quantities travel as their IEEE 754 bit patterns, and file paths
//! as their encoded bytes, so that an event can outlive the platform callback that
//! produced it and cross to another thread unchanged.
use vstd::prelude::*;

verus! {

/// Key code of the "arrow up" key, in the platform's numbering of virtual keys.
pub const KEY_UP: u32 = 71;

/// Key code of the "arrow down" key, in the platform's numbering of virtual keys.
pub const KEY_DOWN: u32 = 73;

/// Event injected by the application thread into the platform loop.
#[derive(Clone, Copy, Debug, PartialEq, Eq)]
pub enum ApplicationEvent {
    Finished,
}

/// Identifier of a window, as handed out by the platform layer.
#[derive(Clone, Copy, Debug, PartialEq, Eq, Hash)]
pub struct WindowId {
    pub id: u64,
}

/// Identifier of an input device, as handed out by the platform layer.
#[derive(Clone, Copy, Debug, PartialEq, Eq, Hash)]
pub struct DeviceId {
    pub id: u64,
}

/// A 64-bit floating-point value held as its bit pattern.
#[derive(Clone, Copy, Debug, PartialEq, Eq)]
pub struct Float64 {
    pub bits: u64,
}

/// A 32-bit floating-point value held as its bit pattern.
#[derive(Clone, Copy, Debug, PartialEq, Eq)]
pub struct Float32 {
    pub bits: u32,
}

/// Size of a window's client area, in physical pixels.
#[derive(Clone, Copy, Debug, PartialEq, Eq)]
pub struct PhysicalSize {
    pub width: u32,
    pub height: u32,
}

/// Position of a window, in physical pixels.
#[derive(Clone, Copy, Debug, PartialEq, Eq)]
pub struct PhysicalPosition {
    pub x: i32,
    pub y: i32,
}

/// A position with fractional coordinates (cursor, touch point, scroll offset).
#[derive(Clone, Copy, Debug, PartialEq, Eq)]
pub struct FloatPosition {
    pub x: Float64,
    pub y: Float64,
}

/// A file-system path, as the bytes of its platform encoding.
#[derive(Clone, Debug, PartialEq, Eq)]
pub struct FilePath {
    pub encoded: Vec<u8>,
}

/// Whether a key or a button went down or up.
#[derive(Clone, Copy, Debug, PartialEq, Eq)]
pub enum ElementState {
    Pressed,
    Released,
}

/// A mouse button as reported with a window.
#[derive(Clone, Copy, Debug, PartialEq, Eq)]
pub enum MouseButton {
    Left,
    Right,
    Middle,
    Other(u8),
}

/// The set of active keyboard modifiers, as the platform's flag bits.
#[derive(Clone, Copy, Debug, PartialEq, Eq)]
pub struct ModifiersState {
    pub bits: u32,
}

/// A key event.
#[derive(Clone, Copy, Debug, PartialEq, Eq)]
pub struct KeyboardInput {
    pub scancode: u32,
    pub state: ElementState,
    /// The platform's virtual key code, where the key has one.
    pub virtual_keycode: Option<u32>,
    pub modifiers: ModifiersState,
}

/// Amount of a scroll, in lines or in pixels.
#[derive(Clone, Copy, Debug, PartialEq, Eq)]
pub enum MouseScrollDelta {
    LineDelta(Float32, Float32),
    PixelDelta(FloatPosition),
}

/// Stage of a touch or of a scroll gesture.
#[derive(Clone, Copy, Debug, PartialEq, Eq)]
pub enum TouchPhase {
    Started,
    Moved,
    Ended,
    Cancelled,
}

/// Pressure of a touch.
#[derive(Clone, Copy, Debug, PartialEq, Eq)]
pub enum Force {
    Calibrated { force: Float64, max_possible_force: Float64, altitude_angle: Option<Float64> },
    Normalized(Float64),
}

/// One touch point.
#[derive(Clone, Copy, Debug, PartialEq, Eq)]
pub struct Touch {
    pub device_id: DeviceId,
    pub phase: TouchPhase,
    pub location: FloatPosition,
    pub force: Option<Force>,
    pub id: u64,
}

/// The colour theme of a window.
#[derive(Clone, Copy, Debug, PartialEq, Eq)]
pub enum Theme {
    Light,
    Dark,
}

/// Something that happened to a window.
#[derive(Clone, Debug, PartialEq, Eq)]
pub enum Window {
    Resized(PhysicalSize),
    Moved(PhysicalPosition),
    CloseRequested,
    Destroyed,
    DroppedFile(FilePath),
    HoveredFile(FilePath),
    HoveredFileCancelled,
    ReceivedCharacter(char),
    Focused(bool),
    KeyboardInput { device_id: DeviceId, input: KeyboardInput, is_synthetic: bool },
    ModifiersChanged(ModifiersState),
    CursorMoved { device_id: DeviceId, position: FloatPosition },
    CursorEntered { device_id: DeviceId },
    CursorLeft { device_id: DeviceId },
    MouseWheel { device_id: DeviceId, delta: MouseScrollDelta, phase: TouchPhase },
    MouseInput { device_id: DeviceId, state: ElementState, button: MouseButton },
    TouchpadPressure { device_id: DeviceId, pressure: Float32, stage: i64 },
    AxisMotion { device_id: DeviceId, axis: u32, value: Float64 },
    Touch(Touch),
    ScaleFactorChanged { scale_factor: Float64, new_inner_size: PhysicalSize },
    ThemeChanged(Theme),
}

/// Raw input from a device, not bound to a window.
#[derive(Clone, Copy, Debug, PartialEq, Eq)]
pub enum DeviceEvent {
    Added,
    Removed,
    MouseMotion { delta: (Float64, Float64) },
    MouseWheel { delta: MouseScrollDelta },
    Motion { axis: u32, value: Float64 },
    Button { button: u32, state: ElementState },
    Key(KeyboardInput),
    Text { codepoint: char },
}

/// The normalized event that the application thread consumes.
#[derive(Clone, Debug, PartialEq, Eq)]
#[allow(inconsistent_fields)]
pub enum Event {
    Window { window_id: WindowId, event: Window },
    Device { device_id: DeviceId, event: DeviceEvent },
    Suspended,
    Resumed,
}

/// Why the platform loop started a new round of events.
#[derive(Clone, Copy, Debug, PartialEq, Eq)]
pub enum StartCause {
    ResumeTimeReached,
    WaitCancelled,
    Poll,
    Init,
}

/// An event as the platform loop reports it, before translation.
#[derive(Clone, Debug, PartialEq, Eq)]
#[allow(inconsistent_fields)]
pub enum PlatformEvent {
    NewEvents(StartCause),
    WindowEvent { window_id: WindowId, event: Window },
    DeviceEvent { device_id: DeviceId, event: DeviceEvent },
    UserEvent(ApplicationEvent),
    Suspended,
    Resumed,
    MainEventsCleared,
    RedrawRequested(WindowId),
    RedrawEventsCleared,
    LoopDestroyed,
}

/// The event that a platform event stands for, if it belongs to the application stream.
pub open spec fn translated(p: PlatformEvent) -> Option<Event> {
    match p {
        PlatformEvent::WindowEvent { window_id, event } => Some(
            Event::Window { window_id, event },
        ),
        PlatformEvent::DeviceEvent { device_id, event } => Some(
            Event::Device { device_id, event },
        ),
        PlatformEvent::Suspended => Some(Event::Suspended),
        PlatformEvent::Resumed => Some(Event::Resumed),
        _ => None,
    }
}

impl Event {
    /// Translates a platform event into the event model. Scheduling events and
    /// application-originated events are not part of the model: they come back
    /// unchanged as the error, so that the caller can act on them.
    pub fn try_from(event: PlatformEvent) -> (r: Result<Event, PlatformEvent>)
        ensures
            match translated(event) {
                Some(e) => r == Ok::<Event, PlatformEvent>(e),
                None => r == Err::<Event, PlatformEvent>(event),
            },
    {
        match event {
            PlatformEvent::WindowEvent { window_id, event } => Ok(Event::Window { window_id, event }),
            PlatformEvent::DeviceEvent { device_id, event } => Ok(Event::Device { device_id, event }),
            PlatformEvent::Suspended => Ok(Event::Suspended),
            PlatformEvent::Resumed => Ok(Event::Resumed),
            other => Err(other),
        }
    }
}

/// Translation keeps every field: a window event comes out with the same window
/// and the same payload, a device event with the same device and the same payload,
/// and the lifecycle events map to their counterparts.
pub proof fn lemma_translation_keeps_fields(
    window_id: WindowId,
    window: Window,
    device_id: DeviceId,
    device: DeviceEvent,
)
    ensures
        translated(PlatformEvent::WindowEvent { window_id, event: window }) == Some(
            Event::Window { window_id, event: window },
        ),
        translated(PlatformEvent::DeviceEvent { device_id, event: device }) == Some(
            Event::Device { device_id, event: device },
        ),
        translated(PlatformEvent::Suspended) == Some(Event::Suspended),
        translated(PlatformEvent::Resumed) == Some(Event::Resumed),
{
}

/// What the platform loop does with one of its events.
#[derive(Clone, Debug, PartialEq, Eq)]
pub enum Dispatch {
    /// Hand the translated event to the application thread.
    Forward(Event),
    /// The loop has just started: wait for events instead of polling.
    StartWaiting,
    /// The application has finished: leave the loop.
    Exit,
    /// Nothing to do.
    Ignore,
}

/// The action the platform loop takes for a platform event.
pub open spec fn dispatch_of(p: PlatformEvent) -> Dispatch {
    match translated(p) {
        Some(e) => Dispatch::Forward(e),
        None => match p {
            PlatformEvent::NewEvents(StartCause::Init) => Dispatch::StartWaiting,
            PlatformEvent::UserEvent(ApplicationEvent::Finished) => Dispatch::Exit,
            _ => Dispatch::Ignore,
        },
    }
}

/// Decides what the platform loop does with an event: translated events go to the
/// application, the application's own `Finished` ends the loop, and the first
/// event of the loop switches it to waiting.
pub fn dispatch(event: PlatformEvent) -> (r: Dispatch)
    ensures
        r == dispatch_of(event),
{
    match Event::try_from(event) {
        Ok(e) => Dispatch::Forward(e),
        Err(PlatformEvent::NewEvents(StartCause::Init)) => Dispatch::StartWaiting,
        Err(PlatformEvent::UserEvent(ApplicationEvent::Finished)) => Dispatch::Exit,
        Err(_) => Dispatch::Ignore,
    }
}

} // verus!
