//! A single-line fuzzy launcher for workspace layouts: a query editor, a
//! matcher that picks the best layout for the query, and the plan of host
//! commands that opens the chosen layout.

pub mod editor;
pub mod launcher;
pub mod layouts;
pub mod matcher;
pub mod session;

pub use editor::{EditOp, QueryBuffer};
pub use launcher::{HostCommand, Key, KeyResponse, Launcher};
pub use layouts::{filter_layout_lines, layout_path};
pub use matcher::{best_match, matching_candidates, select_best};
pub use session::{find_current, SessionEntry};
