//! The core of a terminal viewer for a growing log file: the captured lines,
//! the window that shows a slice of them, the search over them, the
//! inspection of one of them, and the rules by which keys change all that.
//!
//! Every state type has a mathematical view, and every operation is
//! stated as a function on views.

pub mod app;
pub mod capture;
pub mod json;
pub mod line;
pub mod state;
pub mod text;

pub use app::{App, AppView, Config, Control, Event, Key, TopPanel};
pub use capture::{CaptureStore, CapturedView};
pub use line::{Line, LineView, Style};
