//! Terminal HTTP client library: a two-level nested list engine with a
//! navigable cursor, traversal that honours collapsed groups, and a paging
//! windower that keeps the selection visible.

pub mod app_tui;
pub mod cli;
pub mod collections;
pub mod cursor;
pub mod element;
pub mod entity;
pub mod headers;
pub mod index;
pub mod item;
pub mod layout;
pub mod list;
pub mod method_selector;
pub mod node;
pub mod project;
pub mod request_line;
pub mod sidebar;
pub mod traversal;
pub mod url_input;
pub mod window;
