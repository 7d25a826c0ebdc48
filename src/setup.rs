use vstd::prelude::*;

use crate::platform::PlatformSpecificWindowBuilderAttributes;

verus! {

/// GDK's geometry-hint bits for a minimum and a maximum size.
pub const GDK_HINT_MIN_SIZE: u32 = 2;

pub const GDK_HINT_MAX_SIZE: u32 = 4;

/// The size a window gets when the application asks for none, in logical
/// pixels.
pub const DEFAULT_WIDTH: i32 = 800;

pub const DEFAULT_HEIGHT: i32 = 600;

/// Geometry hints for the toolkit, in logical pixels. Only the bounds whose
/// bit is in `mask` are in force.
#[derive(Debug, Copy, Clone, PartialEq, Eq, Structural)]
pub struct SizeHints {
    pub mask: u32,
    pub min_width: i32,
    pub min_height: i32,
    pub max_width: i32,
    pub max_height: i32,
}

/// The geometry hints for optional minimum and maximum logical sizes: a
/// missing minimum is zero, a missing maximum is unbounded.
pub fn size_hints(min: Option<(i32, i32)>, max: Option<(i32, i32)>) -> (r: SizeHints)
    ensures
        r.mask == (if min is Some {
            GDK_HINT_MIN_SIZE
        } else {
            0
        }) + (if max is Some {
            GDK_HINT_MAX_SIZE
        } else {
            0
        }),
        (r.min_width, r.min_height) == (match min {
            Some(m) => m,
            None => (0i32, 0i32),
        }),
        (r.max_width, r.max_height) == (match max {
            Some(m) => m,
            None => (i32::MAX, i32::MAX),
        }),
{
    let min_bit: u32 = if min.is_some() {
        GDK_HINT_MIN_SIZE
    } else {
        0
    };
    let max_bit: u32 = if max.is_some() {
        GDK_HINT_MAX_SIZE
    } else {
        0
    };
    let mask = min_bit | max_bit;
    assert(mask == min_bit + max_bit) by (bit_vector)
        requires
            min_bit == 0 || min_bit == 2,
            max_bit == 0 || max_bit == 4,
            mask == min_bit | max_bit,
    ;
    let (min_width, min_height) = match min {
        Some(m) => m,
        None => (0, 0),
    };
    let (max_width, max_height) = match max {
        Some(m) => m,
        None => (i32::MAX, i32::MAX),
    };
    SizeHints { mask, min_width, min_height, max_width, max_height }
}

/// How a new native window is to be configured, decided from the
/// application's attributes before any toolkit call.
#[derive(Debug, Copy, Clone, PartialEq, Eq, Structural)]
pub struct WindowSetup {
    /// Initial size in logical pixels.
    pub width: i32,
    pub height: i32,
    /// Use a visual with an alpha channel.
    pub rgba_visual: bool,
    /// Let the application paint the background.
    pub app_paintable: bool,
    /// Turn off the toolkit's double buffering.
    pub disable_double_buffering: bool,
    /// Clear the background to transparent on every draw.
    pub clear_transparent: bool,
    /// Add a vertical box as the window's sole child.
    pub default_vbox: bool,
}

/// Decides the configuration of a new window. `inner_size` is the requested
/// size in logical pixels; a transparent window always gets an alpha visual
/// and application painting; double buffering can only be turned off outside
/// Wayland.
pub fn window_setup(
    inner_size: Option<(i32, i32)>,
    transparent: bool,
    attributes: &PlatformSpecificWindowBuilderAttributes,
    is_wayland: bool,
) -> (r: WindowSetup)
    ensures
        (r.width, r.height) == (match inner_size {
            Some(s) => s,
            None => (DEFAULT_WIDTH, DEFAULT_HEIGHT),
        }),
        r.rgba_visual == (attributes.rgba_visual || transparent),
        r.app_paintable == (attributes.app_paintable || transparent),
        r.disable_double_buffering == (!attributes.double_buffered && !is_wayland),
        r.clear_transparent == (transparent && attributes.auto_transparent),
        r.default_vbox == attributes.default_vbox,
{
    let (width, height) = match inner_size {
        Some(s) => s,
        None => (DEFAULT_WIDTH, DEFAULT_HEIGHT),
    };
    WindowSetup {
        width,
        height,
        rgba_visual: attributes.rgba_visual || transparent,
        app_paintable: attributes.app_paintable || transparent,
        disable_double_buffering: !attributes.double_buffered && !is_wayland,
        clear_transparent: transparent && attributes.auto_transparent,
        default_vbox: attributes.default_vbox,
    }
}

} // verus!
