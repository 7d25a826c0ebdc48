use vstd::prelude::*;

verus! {

/// Identifier of a window, backed by the toolkit's own window id.
#[derive(Debug, Copy, Clone, PartialEq, Eq, Structural, Hash)]
pub struct WindowId(pub u64);

impl WindowId {
    /// An identifier that no realized window carries.
    pub fn dummy() -> (r: Self)
        ensures
            r.0 == 0,
    {
        WindowId(0)
    }

    /// The raw toolkit id.
    pub fn raw(self) -> (r: u64)
        ensures
            r == self.0,
    {
        self.0
    }
}

impl From<u64> for WindowId {
    fn from(raw_id: u64) -> (r: Self) {
        WindowId(raw_id)
    }
}

impl vstd::std_specs::convert::FromSpecImpl<u64> for WindowId {
    open spec fn obeys_from_spec() -> bool {
        true
    }

    open spec fn from_spec(raw_id: u64) -> WindowId {
        WindowId(raw_id)
    }
}

impl From<WindowId> for u64 {
    fn from(window_id: WindowId) -> (r: Self) {
        window_id.0
    }
}

impl vstd::std_specs::convert::FromSpecImpl<WindowId> for u64 {
    open spec fn obeys_from_spec() -> bool {
        true
    }

    open spec fn from_spec(window_id: WindowId) -> u64 {
        window_id.0
    }
}

/// Identifier of an input device. The toolkit does not expose one, so every
/// event carries the same value.
#[derive(Debug, Copy, Clone, PartialEq, Eq, Structural, Hash)]
pub struct DeviceId(pub usize);

impl DeviceId {
    pub fn dummy() -> (r: Self)
        ensures
            r.0 == 0,
    {
        DeviceId(0)
    }
}

/// The two parts of the `WM_CLASS` property of a window.
#[derive(Debug, Clone, PartialEq, Eq)]
pub struct ApplicationName {
    pub general: String,
    pub instance: String,
}

impl ApplicationName {
    pub fn new(general: String, instance: String) -> (r: Self)
        ensures
            r.general@ == general@,
            r.instance@ == instance@,
    {
        ApplicationName { general, instance }
    }
}

/// Errors that the backend reports when the toolkit refuses an operation.
/// Every failure the backend meets today is either dropped or fatal at
/// start-up, so only a free-form message exists.
#[derive(Debug, Clone)]
pub enum OsError {
    Misc(String),
}

/// Options of a window that only this backend knows of.
#[derive(Debug, Clone)]
pub struct PlatformSpecificWindowBuilderAttributes {
    pub name: Option<ApplicationName>,
    pub skip_taskbar: bool,
    /// Clear the background to transparent on every draw when the window is
    /// transparent.
    pub auto_transparent: bool,
    pub double_buffered: bool,
    pub app_paintable: bool,
    pub rgba_visual: bool,
    /// Add a vertical box as the window's sole child.
    pub default_vbox: bool,
}

impl Default for PlatformSpecificWindowBuilderAttributes {
    fn default() -> (r: Self)
        ensures
            r.name.is_none(),
            !r.skip_taskbar,
            r.auto_transparent,
            r.double_buffered,
            !r.app_paintable,
            !r.rgba_visual,
            r.default_vbox,
    {
        PlatformSpecificWindowBuilderAttributes {
            name: None,
            skip_taskbar: false,
            auto_transparent: true,
            double_buffered: true,
            app_paintable: false,
            rgba_visual: false,
            default_vbox: true,
        }
    }
}

/// The options of a window to be built that concern this backend.
#[derive(Debug, Clone)]
pub struct WindowBuilder {
    pub platform_specific: PlatformSpecificWindowBuilderAttributes,
}

impl WindowBuilder {
    pub fn new() -> (r: Self)
        ensures
            r.platform_specific.name.is_none(),
            !r.platform_specific.skip_taskbar,
            r.platform_specific.auto_transparent,
            r.platform_specific.double_buffered,
            !r.platform_specific.app_paintable,
            !r.platform_specific.rgba_visual,
            r.platform_specific.default_vbox,
    {
        WindowBuilder { platform_specific: PlatformSpecificWindowBuilderAttributes::default() }
    }
}

/// Builder options that only this backend offers.
pub trait WindowBuilderExtUnix: Sized {
    /// The general and instance parts of `WM_CLASS`.
    fn with_name(self, general: String, instance: String) -> Self;

    /// Whether the window stays out of the taskbar.
    fn with_skip_taskbar(self, skip: bool) -> Self;

    /// Whether a transparent window gets its background cleared on each draw.
    fn with_transparent_draw(self, draw: bool) -> Self;

    fn with_double_buffered(self, double_buffered: bool) -> Self;

    fn with_rgba_visual(self, rgba_visual: bool) -> Self;

    fn with_app_paintable(self, app_paintable: bool) -> Self;

    /// Whether a vertical box is added as the window's sole child.
    fn with_default_vbox(self, add: bool) -> Self;
}

impl WindowBuilderExtUnix for WindowBuilder {
    fn with_name(self, general: String, instance: String) -> (r: Self)
        ensures
            r.platform_specific.name matches Some(n) && n.general@ == general@ && n.instance@
                == instance@,
            r.platform_specific.skip_taskbar == self.platform_specific.skip_taskbar,
            r.platform_specific.auto_transparent == self.platform_specific.auto_transparent,
            r.platform_specific.double_buffered == self.platform_specific.double_buffered,
            r.platform_specific.app_paintable == self.platform_specific.app_paintable,
            r.platform_specific.rgba_visual == self.platform_specific.rgba_visual,
            r.platform_specific.default_vbox == self.platform_specific.default_vbox,
    {
        let mut b = self;
        b.platform_specific.name = Some(ApplicationName::new(general, instance));
        b
    }

    fn with_skip_taskbar(self, skip: bool) -> (r: Self)
        ensures
            r.platform_specific == (PlatformSpecificWindowBuilderAttributes {
                skip_taskbar: skip,
                ..self.platform_specific
            }),
    {
        let mut b = self;
        b.platform_specific.skip_taskbar = skip;
        b
    }

    fn with_transparent_draw(self, draw: bool) -> (r: Self)
        ensures
            r.platform_specific == (PlatformSpecificWindowBuilderAttributes {
                auto_transparent: draw,
                ..self.platform_specific
            }),
    {
        let mut b = self;
        b.platform_specific.auto_transparent = draw;
        b
    }

    fn with_double_buffered(self, double_buffered: bool) -> (r: Self)
        ensures
            r.platform_specific == (PlatformSpecificWindowBuilderAttributes {
                double_buffered,
                ..self.platform_specific
            }),
    {
        let mut b = self;
        b.platform_specific.double_buffered = double_buffered;
        b
    }

    fn with_rgba_visual(self, rgba_visual: bool) -> (r: Self)
        ensures
            r.platform_specific == (PlatformSpecificWindowBuilderAttributes {
                rgba_visual,
                ..self.platform_specific
            }),
    {
        let mut b = self;
        b.platform_specific.rgba_visual = rgba_visual;
        b
    }

    fn with_app_paintable(self, app_paintable: bool) -> (r: Self)
        ensures
            r.platform_specific == (PlatformSpecificWindowBuilderAttributes {
                app_paintable,
                ..self.platform_specific
            }),
    {
        let mut b = self;
        b.platform_specific.app_paintable = app_paintable;
        b
    }

    fn with_default_vbox(self, add: bool) -> (r: Self)
        ensures
            r.platform_specific == (PlatformSpecificWindowBuilderAttributes {
                default_vbox: add,
                ..self.platform_specific
            }),
    {
        let mut b = self;
        b.platform_specific.default_vbox = add;
        b
    }
}

} // verus!
