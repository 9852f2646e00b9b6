//! A status-line-aware log writer engine.
//!
//! The crate keeps a transient status line pinned below scrolling log output.
//! On every log write the engine erases the previously drawn status lines,
//! emits the new log payload, re-invokes a status-rendering callback and
//! records how many extra lines that callback produced, so that the next
//! write can erase exactly that many.
//!
//! The engine does not encode terminal escape sequences itself: it issues
//! abstract control commands (move to a column, clear the current line, move
//! the cursor up, reset attributes, toggle raw mode) into a [`console::Console`],
//! an ordered record of commands, payload bytes and flushes. The surrounding
//! application maps that record onto a real terminal.

pub mod builder;
pub mod console;
pub mod log_bridge;
pub mod threaded;
pub mod unthreaded;
pub mod utils;

pub use builder::{BuildError, Builder, Engine, FixedStatus, MakeCallback, StatusRender, WriteError};
pub use console::{Command, Console, Item, ItemModel};
pub use log_bridge::{LogEntry, LogReceiver, LogSender, SendOutcome, TryRecvError};
pub use threaded::{DrainOutcome, ThreadedEngine};
pub use unthreaded::{LogWriter, UnthreadedHandler, WriteState};
pub use utils::RawModeGuard;
