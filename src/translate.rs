use vstd::prelude::*;

use crate::event::{
    physical_position, physical_size, ElementState, ModifiersState, MouseButton, MouseScrollDelta,
    PhysicalPosition, PhysicalSize, QueuedEvent, TouchPhase, WindowEvent,
};
use crate::platform::{DeviceId, WindowId};

verus! {

/// GDK's window-state bits that change a window's geometry.
pub const GDK_WINDOW_STATE_ICONIFIED: u32 = 2;

pub const GDK_WINDOW_STATE_MAXIMIZED: u32 = 4;

/// The button that a GDK button number stands for.
pub open spec fn button_of(code: u32) -> MouseButton {
    if code == 1 {
        MouseButton::Left
    } else if code == 2 {
        MouseButton::Middle
    } else if code == 3 {
        MouseButton::Right
    } else {
        MouseButton::Other((code % 65536) as u16)
    }
}

/// Maps a GDK button number: 1, 2 and 3 are the left, middle and right
/// buttons; any other number is carried as it is, cut to 16 bits.
pub fn mouse_button(code: u32) -> (r: MouseButton)
    ensures
        r == button_of(code),
{
    match code {
        1 => MouseButton::Left,
        2 => MouseButton::Middle,
        3 => MouseButton::Right,
        _ => MouseButton::Other((code % 65536) as u16),
    }
}

/// A button press or release on a window.
pub fn mouse_input_event<T>(window_id: WindowId, code: u32, state: ElementState) -> (r:
    QueuedEvent<T>)
    ensures
        r == (QueuedEvent::<T>::Window {
            window_id,
            event: WindowEvent::MouseInput {
                device_id: DeviceId(0),
                state,
                button: button_of(code),
                modifiers: ModifiersState(0),
            },
        }),
{
    QueuedEvent::Window {
        window_id,
        event: WindowEvent::MouseInput {
            device_id: DeviceId::dummy(),
            state,
            button: mouse_button(code),
            modifiers: ModifiersState::empty(),
        },
    }
}

/// A smooth scroll is still going on; a discrete step is complete.
pub fn scroll_phase(smooth: bool) -> (r: TouchPhase)
    ensures
        r == (if smooth {
            TouchPhase::Moved
        } else {
            TouchPhase::Ended
        }),
{
    if smooth {
        TouchPhase::Moved
    } else {
        TouchPhase::Ended
    }
}

/// A scroll on a window; the deltas are the bit patterns of the line counts.
pub fn scroll_event<T>(window_id: WindowId, x_bits: u32, y_bits: u32, smooth: bool) -> (r:
    QueuedEvent<T>)
    ensures
        r == (QueuedEvent::<T>::Window {
            window_id,
            event: WindowEvent::MouseWheel {
                device_id: DeviceId(0),
                delta: MouseScrollDelta::LineDelta { x_bits, y_bits },
                phase: if smooth {
                    TouchPhase::Moved
                } else {
                    TouchPhase::Ended
                },
                modifiers: ModifiersState(0),
            },
        }),
{
    QueuedEvent::Window {
        window_id,
        event: WindowEvent::MouseWheel {
            device_id: DeviceId::dummy(),
            delta: MouseScrollDelta::LineDelta { x_bits, y_bits },
            phase: scroll_phase(smooth),
            modifiers: ModifiersState::empty(),
        },
    }
}

/// The `Moved` and `Resized` pair that reports a window's geometry, scaled
/// from logical to physical pixels.
pub open spec fn geometry_pair<T>(
    window_id: WindowId,
    x: i32,
    y: i32,
    width: u32,
    height: u32,
    scale: i32,
) -> Seq<QueuedEvent<T>> {
    seq![
        QueuedEvent::Window {
            window_id,
            event: WindowEvent::Moved(
                PhysicalPosition { x: (x * scale) as i64, y: (y * scale) as i64 },
            ),
        },
        QueuedEvent::Window {
            window_id,
            event: WindowEvent::Resized(
                PhysicalSize { width: (width * scale) as i64, height: (height * scale) as i64 },
            ),
        },
    ]
}

/// The events of a configure signal: position and size are always reported
/// together.
pub fn geometry_events<T>(
    window_id: WindowId,
    x: i32,
    y: i32,
    width: u32,
    height: u32,
    scale: i32,
) -> (r: Vec<QueuedEvent<T>>)
    ensures
        r@ == geometry_pair::<T>(window_id, x, y, width, height, scale),
{
    let moved = physical_position(x, y, scale);
    let resized = physical_size(width, height, scale);
    let mut out: Vec<QueuedEvent<T>> = Vec::new();
    out.push(QueuedEvent::Window { window_id, event: WindowEvent::Moved(moved) });
    out.push(QueuedEvent::Window { window_id, event: WindowEvent::Resized(resized) });
    assert(out@ =~= geometry_pair::<T>(window_id, x, y, width, height, scale));
    out
}

/// Whether a window-state change touches the window's geometry.
pub open spec fn changes_geometry(changed: u32) -> bool {
    changed & GDK_WINDOW_STATE_ICONIFIED != 0 || changed & GDK_WINDOW_STATE_MAXIMIZED != 0
}

/// The events of a window-state signal: when the window was iconified,
/// restored, maximized or unmaximized, its geometry, as a pair; else none.
pub fn window_state_events<T>(
    window_id: WindowId,
    changed: u32,
    x: i32,
    y: i32,
    width: u32,
    height: u32,
    scale: i32,
) -> (r: Vec<QueuedEvent<T>>)
    ensures
        changes_geometry(changed) ==> r@ == geometry_pair::<T>(
            window_id,
            x,
            y,
            width,
            height,
            scale,
        ),
        !changes_geometry(changed) ==> r@.len() == 0,
{
    if changed & GDK_WINDOW_STATE_ICONIFIED != 0 || changed & GDK_WINDOW_STATE_MAXIMIZED != 0 {
        geometry_events(window_id, x, y, width, height, scale)
    } else {
        Vec::new()
    }
}

/// The close button of a window was pressed; the window still exists.
pub fn close_requested_event<T>(window_id: WindowId) -> (r: QueuedEvent<T>)
    ensures
        r == (QueuedEvent::<T>::Window { window_id, event: WindowEvent::CloseRequested }),
{
    QueuedEvent::Window { window_id, event: WindowEvent::CloseRequested }
}

/// A window was destroyed.
pub fn destroyed_event<T>(window_id: WindowId) -> (r: QueuedEvent<T>)
    ensures
        r == (QueuedEvent::<T>::Window { window_id, event: WindowEvent::Destroyed }),
{
    QueuedEvent::Window { window_id, event: WindowEvent::Destroyed }
}

/// A window gained or lost the keyboard focus.
pub fn focus_event<T>(window_id: WindowId, focused: bool) -> (r: QueuedEvent<T>)
    ensures
        r == (QueuedEvent::<T>::Window { window_id, event: WindowEvent::Focused(focused) }),
{
    QueuedEvent::Window { window_id, event: WindowEvent::Focused(focused) }
}

/// The pointer entered (`entered`) or left a window.
pub fn crossing_event<T>(window_id: WindowId, entered: bool) -> (r: QueuedEvent<T>)
    ensures
        r == (if entered {
            QueuedEvent::<T>::Window {
                window_id,
                event: WindowEvent::CursorEntered { device_id: DeviceId(0) },
            }
        } else {
            QueuedEvent::<T>::Window {
                window_id,
                event: WindowEvent::CursorLeft { device_id: DeviceId(0) },
            }
        }),
{
    if entered {
        QueuedEvent::Window {
            window_id,
            event: WindowEvent::CursorEntered { device_id: DeviceId::dummy() },
        }
    } else {
        QueuedEvent::Window {
            window_id,
            event: WindowEvent::CursorLeft { device_id: DeviceId::dummy() },
        }
    }
}

/// The pointer moved over a window, to the given logical position.
pub fn cursor_moved_event<T>(window_id: WindowId, x: i32, y: i32, scale: i32) -> (r: QueuedEvent<
    T,
>)
    ensures
        r == (QueuedEvent::<T>::Window {
            window_id,
            event: WindowEvent::CursorMoved {
                device_id: DeviceId(0),
                position: PhysicalPosition { x: (x * scale) as i64, y: (y * scale) as i64 },
                modifiers: ModifiersState(0),
            },
        }),
{
    QueuedEvent::Window {
        window_id,
        event: WindowEvent::CursorMoved {
            device_id: DeviceId::dummy(),
            position: physical_position(x, y, scale),
            modifiers: ModifiersState::empty(),
        },
    }
}

} // verus!
