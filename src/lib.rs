//! An event-dispatch and UI-state core for terminal applications: focus
//! order, tab selection, a named message bus and the decisions of the
//! event loop, each with its contract.

pub mod focus;
pub mod context;
pub mod tabs;
pub mod bus;
pub mod event_loop;
pub mod task;
pub mod terminal;
pub mod builder;
pub mod event;

pub use builder::{AppBuilder, AppError, AppParts, BuildError, PendingTask};
pub use bus::{MessageBus, SendError, TaskMessage, TaskSender, TrySendError};
pub use context::{FocusDrawContext, FocusEventContext};
pub use event::{Event, Key, KeyKind, KeyPress, MouseAction, MouseButton, MouseInput};
pub use event_loop::{Action, EventLoop, Next, Phase, Wake};
pub use focus::{EventResult, FocusManager};
pub use tabs::{Appearance, Selection, TabInfo, TabManager};
pub use task::{CancelSignal, TaskContext};
pub use terminal::{TerminalConfig, TerminalError};
