use vstd::prelude::*;

use crate::event::{physical_position, physical_size, PhysicalPosition, PhysicalSize};
use crate::translate::{GDK_WINDOW_STATE_ICONIFIED, GDK_WINDOW_STATE_MAXIMIZED};

verus! {

/// The last geometry and state that the toolkit reported for a window, in
/// logical pixels. Native callbacks update it; getters read it.
#[derive(Debug, Copy, Clone, PartialEq, Eq, Structural)]
pub struct WindowCache {
    pub x: i32,
    pub y: i32,
    pub width: u32,
    pub height: u32,
    pub scale_factor: i32,
    pub maximized: bool,
    pub minimized: bool,
}

impl WindowCache {
    /// The state of a window that was just created.
    pub fn new(x: i32, y: i32, width: u32, height: u32, scale_factor: i32, maximized: bool) -> (r:
        Self)
        ensures
            r == (WindowCache { x, y, width, height, scale_factor, maximized, minimized: false }),
    {
        WindowCache { x, y, width, height, scale_factor, maximized, minimized: false }
    }

    /// Records the position and size of a configure signal.
    pub fn on_configure(&mut self, x: i32, y: i32, width: u32, height: u32)
        ensures
            *final(self) == (WindowCache { x, y, width, height, ..*old(self) }),
    {
        self.x = x;
        self.y = y;
        self.width = width;
        self.height = height;
    }

    /// Records the new GDK window-state bits of a window-state signal.
    pub fn on_window_state(&mut self, new_state: u32)
        ensures
            *final(self) == (WindowCache {
                maximized: new_state & GDK_WINDOW_STATE_MAXIMIZED != 0,
                minimized: new_state & GDK_WINDOW_STATE_ICONIFIED != 0,
                ..*old(self)
            }),
    {
        self.maximized = new_state & GDK_WINDOW_STATE_MAXIMIZED != 0;
        self.minimized = new_state & GDK_WINDOW_STATE_ICONIFIED != 0;
    }

    /// Records a new scale factor.
    pub fn on_scale_factor(&mut self, scale_factor: i32)
        ensures
            *final(self) == (WindowCache { scale_factor, ..*old(self) }),
    {
        self.scale_factor = scale_factor;
    }

    /// The window's position in physical pixels.
    pub fn outer_position(&self) -> (r: PhysicalPosition)
        ensures
            r.x == self.x * self.scale_factor,
            r.y == self.y * self.scale_factor,
    {
        physical_position(self.x, self.y, self.scale_factor)
    }

    /// The position of the client area; the toolkit reports no frame, so it
    /// is the window's position.
    pub fn inner_position(&self) -> (r: PhysicalPosition)
        ensures
            r.x == self.x * self.scale_factor,
            r.y == self.y * self.scale_factor,
    {
        self.outer_position()
    }

    /// The window's size in physical pixels.
    pub fn inner_size(&self) -> (r: PhysicalSize)
        ensures
            r.width == self.width * self.scale_factor,
            r.height == self.height * self.scale_factor,
    {
        physical_size(self.width, self.height, self.scale_factor)
    }

    /// The size with the frame; the toolkit reports none, so it is the
    /// client area's size.
    pub fn outer_size(&self) -> (r: PhysicalSize)
        ensures
            r.width == self.width * self.scale_factor,
            r.height == self.height * self.scale_factor,
    {
        self.inner_size()
    }

    pub fn is_maximized(&self) -> (r: bool)
        ensures
            r == self.maximized,
    {
        self.maximized
    }

    pub fn is_minimized(&self) -> (r: Option<bool>)
        ensures
            r == Some(self.minimized),
    {
        Some(self.minimized)
    }

    /// Whether a focus request is worth sending: a minimized or hidden window
    /// is left alone.
    pub fn should_focus(&self, visible: bool) -> (r: bool)
        ensures
            r == (!self.minimized && visible),
    {
        !self.minimized && visible
    }
}

/// The stacking levels an application can ask for.
#[derive(Debug, Copy, Clone, PartialEq, Eq, Structural)]
pub enum WindowLevel {
    AlwaysOnBottom,
    Normal,
    AlwaysOnTop,
}

/// A stacking request for the toolkit.
#[derive(Debug, Copy, Clone, PartialEq, Eq, Structural)]
pub enum LevelRequest {
    AlwaysOnTop(bool),
    AlwaysOnBottom(bool),
}

/// The stacking request that a level asks for; `Normal` asks for none.
pub fn level_request(level: WindowLevel) -> (r: Option<LevelRequest>)
    ensures
        r == (match level {
            WindowLevel::AlwaysOnBottom => Some(LevelRequest::AlwaysOnBottom(true)),
            WindowLevel::Normal => None,
            WindowLevel::AlwaysOnTop => Some(LevelRequest::AlwaysOnTop(true)),
        }),
{
    match level {
        WindowLevel::AlwaysOnBottom => Some(LevelRequest::AlwaysOnBottom(true)),
        WindowLevel::Normal => None,
        WindowLevel::AlwaysOnTop => Some(LevelRequest::AlwaysOnTop(true)),
    }
}

} // verus!
