use vstd::prelude::*;

use crate::event::{
    ElementState, KeyboardInput, ModifiersState, QueuedEvent, VirtualKeyCode, WindowEvent,
    MODIFIER_ALT, MODIFIER_CTRL, MODIFIER_LOGO, MODIFIER_SHIFT,
};
use crate::platform::{DeviceId, WindowId};

verus! {

/// GDK's modifier bits.
pub const GDK_SHIFT_MASK: u32 = 1;

pub const GDK_CONTROL_MASK: u32 = 4;

pub const GDK_MOD1_MASK: u32 = 8;

pub const GDK_SUPER_MASK: u32 = 67108864;

/// The modifier bit that stands for a GDK modifier, when `state` holds it.
pub open spec fn bit_if(state: u32, gdk_mask: u32, modifier: u32) -> u32 {
    if state & gdk_mask != 0 {
        modifier
    } else {
        0
    }
}

/// The modifiers that a GDK modifier state stands for: one bit for each of
/// Shift, Alt, Control and Super that the state holds.
pub open spec fn modifiers_of(state: u32) -> u32 {
    (bit_if(state, GDK_SHIFT_MASK, MODIFIER_SHIFT) + bit_if(state, GDK_MOD1_MASK, MODIFIER_ALT)
        + bit_if(state, GDK_CONTROL_MASK, MODIFIER_CTRL) + bit_if(
        state,
        GDK_SUPER_MASK,
        MODIFIER_LOGO,
    )) as u32
}

/// Reads the modifier state of a key event from its GDK modifier bits.
pub fn get_modifiers(state: u32) -> (r: ModifiersState)
    ensures
        r.0 == modifiers_of(state),
        (r.0 & MODIFIER_SHIFT != 0) == (state & GDK_SHIFT_MASK != 0),
        (r.0 & MODIFIER_ALT != 0) == (state & GDK_MOD1_MASK != 0),
        (r.0 & MODIFIER_CTRL != 0) == (state & GDK_CONTROL_MASK != 0),
        (r.0 & MODIFIER_LOGO != 0) == (state & GDK_SUPER_MASK != 0),
        r.0 & !(MODIFIER_SHIFT | MODIFIER_ALT | MODIFIER_CTRL | MODIFIER_LOGO) == 0,
{
    let shift: u32 = if state & GDK_SHIFT_MASK != 0 {
        MODIFIER_SHIFT
    } else {
        0
    };
    let alt: u32 = if state & GDK_MOD1_MASK != 0 {
        MODIFIER_ALT
    } else {
        0
    };
    let ctrl: u32 = if state & GDK_CONTROL_MASK != 0 {
        MODIFIER_CTRL
    } else {
        0
    };
    let logo: u32 = if state & GDK_SUPER_MASK != 0 {
        MODIFIER_LOGO
    } else {
        0
    };
    let result = shift | alt | ctrl | logo;
    assert({
        &&& result == shift + alt + ctrl + logo
        &&& (result & 0b100 != 0) == (shift != 0)
        &&& (result & 0b100000 != 0) == (ctrl != 0)
        &&& (result & 0b100000000 != 0) == (alt != 0)
        &&& (result & 0b100000000000 != 0) == (logo != 0)
        &&& result & !(0b100u32 | 0b100000000u32 | 0b100000u32 | 0b100000000000u32) == 0
    }) by (bit_vector)
        requires
            shift == 0 || shift == 0b100,
            ctrl == 0 || ctrl == 0b100000,
            alt == 0 || alt == 0b100000000,
            logo == 0 || logo == 0b100000000000,
            result == shift | alt | ctrl | logo,
    ;
    ModifiersState(result)
}

/// GDK key values of the keys that have a virtual key code.
pub const KEY_ESCAPE: u32 = 65307;

pub const KEY_BACKSPACE: u32 = 65288;

pub const KEY_TAB: u32 = 65289;

pub const KEY_ISO_LEFT_TAB: u32 = 65056;

pub const KEY_RETURN: u32 = 65293;

pub const KEY_CONTROL_L: u32 = 65507;

pub const KEY_CONTROL_R: u32 = 65508;

pub const KEY_ALT_L: u32 = 65513;

pub const KEY_ALT_R: u32 = 65514;

pub const KEY_SHIFT_L: u32 = 65505;

pub const KEY_SHIFT_R: u32 = 65506;

pub const KEY_SUPER_L: u32 = 65515;

pub const KEY_SUPER_R: u32 = 65516;

pub const KEY_CAPS_LOCK: u32 = 65509;

pub const KEY_F1: u32 = 65470;

pub const KEY_F2: u32 = 65471;

pub const KEY_F3: u32 = 65472;

pub const KEY_F4: u32 = 65473;

pub const KEY_F5: u32 = 65474;

pub const KEY_F6: u32 = 65475;

pub const KEY_F7: u32 = 65476;

pub const KEY_F8: u32 = 65477;

pub const KEY_F9: u32 = 65478;

pub const KEY_F10: u32 = 65479;

pub const KEY_F11: u32 = 65480;

pub const KEY_F12: u32 = 65481;

pub const KEY_PRINT: u32 = 65377;

pub const KEY_SCROLL_LOCK: u32 = 65300;

pub const KEY_PAUSE: u32 = 65299;

pub const KEY_INSERT: u32 = 65379;

pub const KEY_DELETE: u32 = 65535;

pub const KEY_HOME: u32 = 65360;

pub const KEY_END: u32 = 65367;

pub const KEY_PAGE_UP: u32 = 65365;

pub const KEY_PAGE_DOWN: u32 = 65366;

pub const KEY_NUM_LOCK: u32 = 65407;

pub const KEY_UP: u32 = 65362;

pub const KEY_DOWN: u32 = 65364;

pub const KEY_LEFT: u32 = 65361;

pub const KEY_RIGHT: u32 = 65363;

/// The virtual key code of a GDK key value, if it has one.
pub open spec fn virtual_key_of(keyval: u32) -> Option<VirtualKeyCode> {
    match keyval {
        KEY_ESCAPE => Some(VirtualKeyCode::Escape),
        KEY_BACKSPACE => Some(VirtualKeyCode::Backslash),
        KEY_TAB => Some(VirtualKeyCode::Tab),
        KEY_ISO_LEFT_TAB => Some(VirtualKeyCode::Tab),
        KEY_RETURN => Some(VirtualKeyCode::Return),
        KEY_CONTROL_L => Some(VirtualKeyCode::LControl),
        KEY_CONTROL_R => Some(VirtualKeyCode::RControl),
        KEY_ALT_L => Some(VirtualKeyCode::LAlt),
        KEY_ALT_R => Some(VirtualKeyCode::RAlt),
        KEY_SHIFT_L => Some(VirtualKeyCode::LShift),
        KEY_SHIFT_R => Some(VirtualKeyCode::RShift),
        KEY_SUPER_L => Some(VirtualKeyCode::LWin),
        KEY_SUPER_R => Some(VirtualKeyCode::RWin),
        KEY_CAPS_LOCK => Some(VirtualKeyCode::Capital),
        KEY_F1 => Some(VirtualKeyCode::F1),
        KEY_F2 => Some(VirtualKeyCode::F2),
        KEY_F3 => Some(VirtualKeyCode::F3),
        KEY_F4 => Some(VirtualKeyCode::F4),
        KEY_F5 => Some(VirtualKeyCode::F5),
        KEY_F6 => Some(VirtualKeyCode::F6),
        KEY_F7 => Some(VirtualKeyCode::F7),
        KEY_F8 => Some(VirtualKeyCode::F8),
        KEY_F9 => Some(VirtualKeyCode::F9),
        KEY_F10 => Some(VirtualKeyCode::F10),
        KEY_F11 => Some(VirtualKeyCode::F11),
        KEY_F12 => Some(VirtualKeyCode::F12),
        KEY_PRINT => Some(VirtualKeyCode::Snapshot),
        KEY_SCROLL_LOCK => Some(VirtualKeyCode::Scroll),
        KEY_PAUSE => Some(VirtualKeyCode::Pause),
        KEY_INSERT => Some(VirtualKeyCode::Insert),
        KEY_DELETE => Some(VirtualKeyCode::Delete),
        KEY_HOME => Some(VirtualKeyCode::Home),
        KEY_END => Some(VirtualKeyCode::End),
        KEY_PAGE_UP => Some(VirtualKeyCode::PageUp),
        KEY_PAGE_DOWN => Some(VirtualKeyCode::PageDown),
        KEY_NUM_LOCK => Some(VirtualKeyCode::Numlock),
        KEY_UP => Some(VirtualKeyCode::Up),
        KEY_DOWN => Some(VirtualKeyCode::Down),
        KEY_LEFT => Some(VirtualKeyCode::Left),
        KEY_RIGHT => Some(VirtualKeyCode::Right),
        _ => None,
    }
}

/// Maps a GDK key value to the virtual key code the application sees.
pub fn gdk_key_to_virtual_key(keyval: u32) -> (r: Option<VirtualKeyCode>)
    ensures
        r == virtual_key_of(keyval),
{
    match keyval {
        KEY_ESCAPE => Some(VirtualKeyCode::Escape),
        KEY_BACKSPACE => Some(VirtualKeyCode::Backslash),
        KEY_TAB => Some(VirtualKeyCode::Tab),
        KEY_ISO_LEFT_TAB => Some(VirtualKeyCode::Tab),
        KEY_RETURN => Some(VirtualKeyCode::Return),
        KEY_CONTROL_L => Some(VirtualKeyCode::LControl),
        KEY_CONTROL_R => Some(VirtualKeyCode::RControl),
        KEY_ALT_L => Some(VirtualKeyCode::LAlt),
        KEY_ALT_R => Some(VirtualKeyCode::RAlt),
        KEY_SHIFT_L => Some(VirtualKeyCode::LShift),
        KEY_SHIFT_R => Some(VirtualKeyCode::RShift),
        KEY_SUPER_L => Some(VirtualKeyCode::LWin),
        KEY_SUPER_R => Some(VirtualKeyCode::RWin),
        KEY_CAPS_LOCK => Some(VirtualKeyCode::Capital),
        KEY_F1 => Some(VirtualKeyCode::F1),
        KEY_F2 => Some(VirtualKeyCode::F2),
        KEY_F3 => Some(VirtualKeyCode::F3),
        KEY_F4 => Some(VirtualKeyCode::F4),
        KEY_F5 => Some(VirtualKeyCode::F5),
        KEY_F6 => Some(VirtualKeyCode::F6),
        KEY_F7 => Some(VirtualKeyCode::F7),
        KEY_F8 => Some(VirtualKeyCode::F8),
        KEY_F9 => Some(VirtualKeyCode::F9),
        KEY_F10 => Some(VirtualKeyCode::F10),
        KEY_F11 => Some(VirtualKeyCode::F11),
        KEY_F12 => Some(VirtualKeyCode::F12),
        KEY_PRINT => Some(VirtualKeyCode::Snapshot),
        KEY_SCROLL_LOCK => Some(VirtualKeyCode::Scroll),
        KEY_PAUSE => Some(VirtualKeyCode::Pause),
        KEY_INSERT => Some(VirtualKeyCode::Insert),
        KEY_DELETE => Some(VirtualKeyCode::Delete),
        KEY_HOME => Some(VirtualKeyCode::Home),
        KEY_END => Some(VirtualKeyCode::End),
        KEY_PAGE_UP => Some(VirtualKeyCode::PageUp),
        KEY_PAGE_DOWN => Some(VirtualKeyCode::PageDown),
        KEY_NUM_LOCK => Some(VirtualKeyCode::Numlock),
        KEY_UP => Some(VirtualKeyCode::Up),
        KEY_DOWN => Some(VirtualKeyCode::Down),
        KEY_LEFT => Some(VirtualKeyCode::Left),
        KEY_RIGHT => Some(VirtualKeyCode::Right),
        _ => None,
    }
}

/// The key event that a key press or release delivers.
pub open spec fn key_input_event<T>(
    window_id: WindowId,
    scancode: u32,
    state: ElementState,
    keyval: u32,
    modifiers: u32,
) -> QueuedEvent<T> {
    QueuedEvent::Window {
        window_id,
        event: WindowEvent::KeyboardInput {
            device_id: DeviceId(0),
            input: KeyboardInput {
                scancode,
                state,
                virtual_keycode: virtual_key_of(keyval),
                modifiers: ModifiersState(modifiers),
            },
            is_synthetic: false,
        },
    }
}

/// Turns the key events of one window into application events, reporting
/// changes of the modifier state as they happen.
pub struct KeyTranslator {
    modifiers: u32,
}

impl KeyTranslator {
    /// The modifier state last reported.
    pub closed spec fn last_modifiers(&self) -> u32 {
        self.modifiers
    }

    pub fn new() -> (r: Self)
        ensures
            r.last_modifiers() == 0,
    {
        KeyTranslator { modifiers: 0 }
    }

    /// The events for one key press or release: a `ModifiersChanged` first
    /// when the modifier state differs from the last one reported, then the
    /// key event itself.
    pub fn key_events<T>(
        &mut self,
        window_id: WindowId,
        gdk_state: u32,
        keyval: u32,
        scancode: u32,
        state: ElementState,
    ) -> (r: Vec<QueuedEvent<T>>)
        ensures
            ({
                let m = modifiers_of(gdk_state);
                let key = key_input_event::<T>(window_id, scancode, state, keyval, m);
                &&& final(self).last_modifiers() == m
                &&& m != old(self).last_modifiers() ==> r@ == seq![
                    QueuedEvent::<T>::Window {
                        window_id,
                        event: WindowEvent::ModifiersChanged(ModifiersState(m)),
                    },
                    key,
                ]
                &&& m == old(self).last_modifiers() ==> r@ == seq![key]
            }),
    {
        let mut out: Vec<QueuedEvent<T>> = Vec::new();
        let new_mods = get_modifiers(gdk_state);
        if new_mods.bits() != self.modifiers {
            self.modifiers = new_mods.bits();
            out.push(
                QueuedEvent::Window { window_id, event: WindowEvent::ModifiersChanged(new_mods) },
            );
        }
        let virtual_keycode = gdk_key_to_virtual_key(keyval);
        out.push(
            QueuedEvent::Window {
                window_id,
                event: WindowEvent::KeyboardInput {
                    device_id: DeviceId::dummy(),
                    input: KeyboardInput { scancode, state, virtual_keycode, modifiers: new_mods },
                    is_synthetic: false,
                },
            },
        );
        out
    }
}

} // verus!
