//! Terminal viewer core for captured HTTP transaction logs: the data model
//! built from parsed log entries, the selectable-list and scroll state that
//! track where the user is looking, and the pure formatting that turns the
//! selected entry into display lines.

pub mod app;
pub mod model;
pub mod text;
pub mod ui;
pub mod util;
