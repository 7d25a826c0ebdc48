//! Core of a GTK windowing backend: the run-loop state machine, the
//! translation of native window signals into application events, borderless
//! resize hit-testing and the per-window cached state.

pub mod channel;
pub mod control_flow;
pub mod cursor;
pub mod event;
pub mod keyboard;
pub mod platform;
pub mod run_loop;
pub mod setup;
pub mod theme;
pub mod translate;
pub mod window_set;
pub mod window_state;

pub use channel::{EventLoopClosed, EventLoopProxy};
pub use control_flow::{ControlFlow, ControlFlowHandle, StartCause};
pub use cursor::CursorIcon;
pub use event::{Event, QueuedEvent, WindowEvent};
pub use hit_test::{hit_test, WindowEdge, BORDERLESS_RESIZE_INSET};
pub use platform::{
    ApplicationName, DeviceId, OsError, PlatformSpecificWindowBuilderAttributes, WindowBuilder,
    WindowBuilderExtUnix, WindowId,
};
pub use run_loop::{LoopState, RunLoop, Step};
pub use theme::Theme;
pub use window_set::LiveWindows;
pub use window_state::WindowCache;
