//! The four pieces of state that keys change: which tab is shown, which
//! lines the window shows, what is searched for, and what is inspected.

pub mod inspection;
pub mod search;
pub mod tabs;
pub mod window;

pub use self::inspection::{InspectionState, InspectionView};
pub use self::search::{SearchState, SearchView};
pub use self::tabs::{TabsState, TabsView};
pub use self::window::{WindowState, WindowView};
