use vstd::prelude::*;

use crate::control_flow::StartCause;
use crate::platform::{DeviceId, WindowId};

verus! {

/// A position in physical pixels.
#[derive(Debug, Copy, Clone, PartialEq, Eq, Structural)]
pub struct PhysicalPosition {
    pub x: i64,
    pub y: i64,
}

/// A size in physical pixels.
#[derive(Debug, Copy, Clone, PartialEq, Eq, Structural)]
pub struct PhysicalSize {
    pub width: i64,
    pub height: i64,
}

/// Scales a logical position by an integer scale factor.
pub fn physical_position(x: i32, y: i32, scale: i32) -> (r: PhysicalPosition)
    ensures
        r.x == x * scale,
        r.y == y * scale,
{
    let s = scale as i64;
    assert(-0x8000_0000_0000_0000 <= (x as i64) * s <= 0x7fff_ffff_ffff_ffff) by (nonlinear_arith)
        requires
            -0x8000_0000 <= x < 0x8000_0000,
            -0x8000_0000 <= s < 0x8000_0000,
    ;
    assert(-0x8000_0000_0000_0000 <= (y as i64) * s <= 0x7fff_ffff_ffff_ffff) by (nonlinear_arith)
        requires
            -0x8000_0000 <= y < 0x8000_0000,
            -0x8000_0000 <= s < 0x8000_0000,
    ;
    PhysicalPosition { x: x as i64 * s, y: y as i64 * s }
}

/// Scales a logical size by an integer scale factor.
pub fn physical_size(width: u32, height: u32, scale: i32) -> (r: PhysicalSize)
    ensures
        r.width == width * scale,
        r.height == height * scale,
{
    let s = scale as i64;
    assert(-0x8000_0000_0000_0000 <= (width as i64) * s <= 0x7fff_ffff_ffff_ffff)
        by (nonlinear_arith)
        requires
            0 <= width < 0x1_0000_0000,
            -0x8000_0000 <= s < 0x8000_0000,
    ;
    assert(-0x8000_0000_0000_0000 <= (height as i64) * s <= 0x7fff_ffff_ffff_ffff)
        by (nonlinear_arith)
        requires
            0 <= height < 0x1_0000_0000,
            -0x8000_0000 <= s < 0x8000_0000,
    ;
    PhysicalSize { width: width as i64 * s, height: height as i64 * s }
}

/// The set of held modifier keys, as a bit set.
#[derive(Debug, Copy, Clone, PartialEq, Eq, Structural)]
pub struct ModifiersState(pub u32);

pub const MODIFIER_SHIFT: u32 = 0b100;

pub const MODIFIER_CTRL: u32 = 0b100000;

pub const MODIFIER_ALT: u32 = 0b100000000;

pub const MODIFIER_LOGO: u32 = 0b100000000000;

impl ModifiersState {
    pub fn empty() -> (r: Self)
        ensures
            r.0 == 0,
    {
        ModifiersState(0)
    }

    pub fn bits(self) -> (r: u32)
        ensures
            r == self.0,
    {
        self.0
    }
}

#[derive(Debug, Copy, Clone, PartialEq, Eq, Structural)]
pub enum ElementState {
    Pressed,
    Released,
}

#[derive(Debug, Copy, Clone, PartialEq, Eq, Structural)]
pub enum MouseButton {
    Left,
    Right,
    Middle,
    Other(u16),
}

#[derive(Debug, Copy, Clone, PartialEq, Eq, Structural)]
pub enum TouchPhase {
    Started,
    Moved,
    Ended,
    Cancelled,
}

/// A scroll amount in lines. Each component is the bit pattern of an IEEE-754
/// single-precision number, which the library carries without reading.
#[derive(Debug, Copy, Clone, PartialEq, Eq, Structural)]
pub enum MouseScrollDelta {
    LineDelta { x_bits: u32, y_bits: u32 },
}

/// Keys that the backend can name.
#[derive(Debug, Copy, Clone, PartialEq, Eq, Structural)]
pub enum VirtualKeyCode {
    Escape,
    Backslash,
    Tab,
    Return,
    LControl,
    RControl,
    LAlt,
    RAlt,
    LShift,
    RShift,
    LWin,
    RWin,
    Capital,
    F1,
    F2,
    F3,
    F4,
    F5,
    F6,
    F7,
    F8,
    F9,
    F10,
    F11,
    F12,
    Snapshot,
    Scroll,
    Pause,
    Insert,
    Delete,
    Home,
    End,
    PageUp,
    PageDown,
    Numlock,
    Up,
    Down,
    Left,
    Right,
}

#[derive(Debug, Copy, Clone, PartialEq, Eq, Structural)]
pub struct KeyboardInput {
    pub scancode: u32,
    pub state: ElementState,
    pub virtual_keycode: Option<VirtualKeyCode>,
    pub modifiers: ModifiersState,
}

/// What happened to one window.
#[derive(Debug, Copy, Clone, PartialEq, Eq, Structural)]
pub enum WindowEvent {
    Resized(PhysicalSize),
    Moved(PhysicalPosition),
    CloseRequested,
    Destroyed,
    Focused(bool),
    KeyboardInput { device_id: DeviceId, input: KeyboardInput, is_synthetic: bool },
    ModifiersChanged(ModifiersState),
    CursorMoved { device_id: DeviceId, position: PhysicalPosition, modifiers: ModifiersState },
    CursorEntered { device_id: DeviceId },
    CursorLeft { device_id: DeviceId },
    MouseWheel {
        device_id: DeviceId,
        delta: MouseScrollDelta,
        phase: TouchPhase,
        modifiers: ModifiersState,
    },
    MouseInput {
        device_id: DeviceId,
        state: ElementState,
        button: MouseButton,
        modifiers: ModifiersState,
    },
}

/// An event that native callbacks and proxies put on the event channel for
/// the run loop to deliver.
#[derive(Debug, Clone, PartialEq, Eq)]
pub enum QueuedEvent<T> {
    /// The application was activated.
    Init,
    Window { window_id: WindowId, event: WindowEvent },
    User(T),
    /// A producer asks the loop to end.
    LoopDestroyed,
}

/// An event handed to the application's callback.
#[derive(Debug, Clone, PartialEq, Eq)]
pub enum Event<T> {
    NewEvents(StartCause),
    WindowEvent { window_id: WindowId, event: WindowEvent },
    UserEvent(T),
    MainEventsCleared,
    RedrawRequested(WindowId),
    RedrawEventsCleared,
    LoopDestroyed,
}

/// The event that delivers a queued event other than the end-of-loop request.
pub open spec fn delivered<T>(q: QueuedEvent<T>) -> Event<T> {
    match q {
        QueuedEvent::Init => Event::NewEvents(StartCause::Init),
        QueuedEvent::Window { window_id, event } => Event::WindowEvent { window_id, event },
        QueuedEvent::User(t) => Event::UserEvent(t),
        QueuedEvent::LoopDestroyed => Event::LoopDestroyed,
    }
}

impl<T> QueuedEvent<T> {
    /// Turns a queued event into the event the callback receives.
    pub fn into_event(self) -> (r: Event<T>)
        ensures
            r == delivered(self),
    {
        match self {
            QueuedEvent::Init => Event::NewEvents(StartCause::Init),
            QueuedEvent::Window { window_id, event } => Event::WindowEvent { window_id, event },
            QueuedEvent::User(t) => Event::UserEvent(t),
            QueuedEvent::LoopDestroyed => Event::LoopDestroyed,
        }
    }
}

} // verus!
