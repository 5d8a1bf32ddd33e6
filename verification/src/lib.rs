//! Core of a terminal text viewer: a logical text buffer, a movable cursor in
//! unbounded buffer coordinates, and a scrollable viewport that maps the
//! cursor onto a terminal window and decides what each visible row shows.
//!
//! All state transitions (cursor movement, scroll reconciliation, resizing,
//! row rendering, line splitting) are verified here; terminal and file I/O
//! live outside the library and exchange plain values with it.

pub mod buffer;
pub mod command;
pub mod editor;
pub mod line;
pub mod location;
pub mod size;
pub mod view;
