//! What the panels and overlays show, as styled text; drawing it on the
//! terminal is left to the application.

pub mod style;
pub mod status_bar;
pub mod graph;
pub mod hunk_picker;
pub mod diff_view;
pub mod help;
pub mod file_list;
pub mod op_log;
pub mod bookmark_picker;
pub mod bookmark_input;
pub mod fuzzy_find;
pub mod omnibar;
pub mod conflict_view;
