use winit_gtk::event::{
    ElementState, KeyboardInput, ModifiersState, MouseButton, MouseScrollDelta, PhysicalPosition,
    PhysicalSize, TouchPhase, VirtualKeyCode, MODIFIER_ALT, MODIFIER_CTRL, MODIFIER_LOGO,
    MODIFIER_SHIFT,
};
use winit_gtk::keyboard::{
    gdk_key_to_virtual_key, get_modifiers, KeyTranslator, GDK_CONTROL_MASK, GDK_MOD1_MASK,
    GDK_SHIFT_MASK, GDK_SUPER_MASK,
};
use winit_gtk::translate::{
    close_requested_event, crossing_event, cursor_moved_event, destroyed_event, focus_event,
    geometry_events, mouse_button, mouse_input_event, scroll_event, scroll_phase,
    window_state_events,
};
use winit_gtk::{DeviceId, QueuedEvent, WindowEvent, WindowId};

fn window(id: u64, event: WindowEvent) -> QueuedEvent<()> {
    QueuedEvent::Window { window_id: WindowId(id), event }
}

#[test]
fn gdk_buttons_map_to_mouse_buttons() {
    assert_eq!(mouse_button(1), MouseButton::Left);
    assert_eq!(mouse_button(2), MouseButton::Middle);
    assert_eq!(mouse_button(3), MouseButton::Right);
    assert_eq!(mouse_button(8), MouseButton::Other(8));
    assert_eq!(mouse_button(65537), MouseButton::Other(1));
}

#[test]
fn mouse_input_carries_button_and_state() {
    let e: QueuedEvent<()> = mouse_input_event(WindowId(2), 3, ElementState::Released);
    assert_eq!(
        e,
        window(
            2,
            WindowEvent::MouseInput {
                device_id: DeviceId(0),
                state: ElementState::Released,
                button: MouseButton::Right,
                modifiers: ModifiersState(0),
            }
        )
    );
}

#[test]
fn smooth_scroll_is_in_progress_and_discrete_is_ended() {
    assert_eq!(scroll_phase(true), TouchPhase::Moved);
    assert_eq!(scroll_phase(false), TouchPhase::Ended);
    let bits = (-1.5f32).to_bits();
    let e: QueuedEvent<()> = scroll_event(WindowId(1), 0, bits, false);
    assert_eq!(
        e,
        window(
            1,
            WindowEvent::MouseWheel {
                device_id: DeviceId(0),
                delta: MouseScrollDelta::LineDelta { x_bits: 0, y_bits: bits },
                phase: TouchPhase::Ended,
                modifiers: ModifiersState(0),
            }
        )
    );
}

#[test]
fn configure_reports_moved_and_resized_together() {
    let v: Vec<QueuedEvent<()>> = geometry_events(WindowId(5), 10, -20, 300, 200, 2);
    assert_eq!(
        v,
        vec![
            window(5, WindowEvent::Moved(PhysicalPosition { x: 20, y: -40 })),
            window(5, WindowEvent::Resized(PhysicalSize { width: 600, height: 400 })),
        ]
    );
}

#[test]
fn geometry_scaling_does_not_overflow_at_the_limits() {
    let v: Vec<QueuedEvent<()>> =
        geometry_events(WindowId(1), i32::MIN, i32::MAX, u32::MAX, 0, i32::MIN);
    assert_eq!(
        v[0],
        window(
            1,
            WindowEvent::Moved(PhysicalPosition {
                x: (i32::MIN as i64) * (i32::MIN as i64),
                y: (i32::MAX as i64) * (i32::MIN as i64),
            })
        )
    );
    assert_eq!(
        v[1],
        window(
            1,
            WindowEvent::Resized(PhysicalSize {
                width: (u32::MAX as i64) * (i32::MIN as i64),
                height: 0,
            })
        )
    );
}

#[test]
fn window_state_change_reports_geometry_only_for_iconify_or_maximize() {
    let iconified: Vec<QueuedEvent<()>> = window_state_events(WindowId(1), 2, 1, 2, 3, 4, 1);
    assert_eq!(iconified, geometry_events(WindowId(1), 1, 2, 3, 4, 1));
    let maximized: Vec<QueuedEvent<()>> = window_state_events(WindowId(1), 4 | 16, 1, 2, 3, 4, 1);
    assert_eq!(maximized.len(), 2);
    let other: Vec<QueuedEvent<()>> = window_state_events(WindowId(1), 1 | 8, 1, 2, 3, 4, 1);
    assert!(other.is_empty());
}

#[test]
fn simple_window_signals() {
    assert_eq!(close_requested_event::<()>(WindowId(3)), window(3, WindowEvent::CloseRequested));
    assert_eq!(destroyed_event::<()>(WindowId(3)), window(3, WindowEvent::Destroyed));
    assert_eq!(focus_event::<()>(WindowId(3), false), window(3, WindowEvent::Focused(false)));
    assert_eq!(
        crossing_event::<()>(WindowId(3), true),
        window(3, WindowEvent::CursorEntered { device_id: DeviceId(0) })
    );
    assert_eq!(
        crossing_event::<()>(WindowId(3), false),
        window(3, WindowEvent::CursorLeft { device_id: DeviceId(0) })
    );
    assert_eq!(
        cursor_moved_event::<()>(WindowId(3), 7, 8, 3),
        window(
            3,
            WindowEvent::CursorMoved {
                device_id: DeviceId(0),
                position: PhysicalPosition { x: 21, y: 24 },
                modifiers: ModifiersState(0),
            }
        )
    );
}

#[test]
fn gdk_modifiers_map_to_modifier_bits() {
    assert_eq!(get_modifiers(GDK_SHIFT_MASK), ModifiersState(MODIFIER_SHIFT));
    assert_eq!(get_modifiers(GDK_CONTROL_MASK), ModifiersState(MODIFIER_CTRL));
    assert_eq!(get_modifiers(GDK_MOD1_MASK), ModifiersState(MODIFIER_ALT));
    assert_eq!(get_modifiers(GDK_SUPER_MASK), ModifiersState(MODIFIER_LOGO));
    assert_eq!(get_modifiers(0), ModifiersState(0));
    assert_eq!(
        get_modifiers(GDK_SHIFT_MASK | GDK_CONTROL_MASK),
        ModifiersState(MODIFIER_SHIFT | MODIFIER_CTRL)
    );
    assert_eq!(
        get_modifiers(GDK_SHIFT_MASK | GDK_MOD1_MASK | GDK_CONTROL_MASK | GDK_SUPER_MASK),
        ModifiersState(MODIFIER_SHIFT | MODIFIER_ALT | MODIFIER_CTRL | MODIFIER_LOGO)
    );
    // Caps Lock (bit 1) and the mouse-button bits are not modifiers.
    assert_eq!(get_modifiers(GDK_SHIFT_MASK | 2 | 256), ModifiersState(MODIFIER_SHIFT));
    assert_eq!(MODIFIER_SHIFT, 4);
    assert_eq!(MODIFIER_CTRL, 32);
    assert_eq!(MODIFIER_ALT, 256);
    assert_eq!(MODIFIER_LOGO, 2048);
}

#[test]
fn gdk_keys_map_to_virtual_keys() {
    assert_eq!(gdk_key_to_virtual_key(0xff1b), Some(VirtualKeyCode::Escape));
    assert_eq!(gdk_key_to_virtual_key(0xff08), Some(VirtualKeyCode::Backslash));
    assert_eq!(gdk_key_to_virtual_key(0xfe20), Some(VirtualKeyCode::Tab));
    assert_eq!(gdk_key_to_virtual_key(0xff09), Some(VirtualKeyCode::Tab));
    assert_eq!(gdk_key_to_virtual_key(0xffbe), Some(VirtualKeyCode::F1));
    assert_eq!(gdk_key_to_virtual_key(0xffc9), Some(VirtualKeyCode::F12));
    assert_eq!(gdk_key_to_virtual_key(0xffff), Some(VirtualKeyCode::Delete));
    assert_eq!(gdk_key_to_virtual_key(0xff53), Some(VirtualKeyCode::Right));
    assert_eq!(gdk_key_to_virtual_key(0x61), None);
}

fn key(id: u64, scancode: u32, state: ElementState, vk: Option<VirtualKeyCode>, mods: u32) -> QueuedEvent<()> {
    window(
        id,
        WindowEvent::KeyboardInput {
            device_id: DeviceId(0),
            input: KeyboardInput {
                scancode,
                state,
                virtual_keycode: vk,
                modifiers: ModifiersState(mods),
            },
            is_synthetic: false,
        },
    )
}

#[test]
fn modifiers_changed_comes_before_its_key_event() {
    let mut k = KeyTranslator::new();
    let first: Vec<QueuedEvent<()>> =
        k.key_events(WindowId(1), GDK_SHIFT_MASK, 0xffe1, 50, ElementState::Pressed);
    assert_eq!(
        first,
        vec![
            window(1, WindowEvent::ModifiersChanged(ModifiersState(MODIFIER_SHIFT))),
            key(1, 50, ElementState::Pressed, Some(VirtualKeyCode::LShift), MODIFIER_SHIFT),
        ]
    );
    let same: Vec<QueuedEvent<()>> =
        k.key_events(WindowId(1), GDK_SHIFT_MASK, 0xff1b, 9, ElementState::Released);
    assert_eq!(
        same,
        vec![key(1, 9, ElementState::Released, Some(VirtualKeyCode::Escape), MODIFIER_SHIFT)]
    );
    let cleared: Vec<QueuedEvent<()>> = k.key_events(WindowId(1), 0, 0x61, 38, ElementState::Pressed);
    assert_eq!(
        cleared,
        vec![
            window(1, WindowEvent::ModifiersChanged(ModifiersState(0))),
            key(1, 38, ElementState::Pressed, None, 0),
        ]
    );
}

#[test]
fn no_modifiers_changed_for_an_unmodified_first_key() {
    let mut k = KeyTranslator::new();
    let v: Vec<QueuedEvent<()>> = k.key_events(WindowId(2), 0, 0xff0d, 36, ElementState::Pressed);
    assert_eq!(v, vec![key(2, 36, ElementState::Pressed, Some(VirtualKeyCode::Return), 0)]);
}

#[test]
fn key_events_report_combined_modifiers() {
    let mut k = KeyTranslator::new();
    let v: Vec<QueuedEvent<()>> =
        k.key_events(WindowId(1), GDK_SHIFT_MASK | GDK_CONTROL_MASK, 0xff09, 23, ElementState::Pressed);
    let both = MODIFIER_SHIFT | MODIFIER_CTRL;
    assert_eq!(
        v,
        vec![
            window(1, WindowEvent::ModifiersChanged(ModifiersState(both))),
            key(1, 23, ElementState::Pressed, Some(VirtualKeyCode::Tab), both),
        ]
    );
}
