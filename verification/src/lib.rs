//! Desktop-shell logic of a teleprompter: where its two auxiliary windows
//! go, when they are shown, and what a global shortcut or a front-end
//! command makes the windowing host do.
//!
//! The shell owns two windows, the overlay that shows the text and a
//! small floating button, and shows, hides and focuses the editor's main
//! window. It never touches a window itself. Every piece of work is a
//! routine that asks the host for one thing at a time ([`host::Request`])
//! and decides from the answer ([`host::Reply`]) what to ask next; the
//! program around this library carries the requests to the window system.
//!
//! - [`geometry`] places the windows on a monitor.
//! - [`window`] names the windows and says how the shell's own are made.
//! - [`shortcuts`] holds the table of global shortcuts.
//! - [`overlay`] and [`editor_fab`] create, toggle and hide the two windows.
//! - [`commands`] are the routines the front end invokes.
//! - [`startup`] is the work at application start and on a shortcut event.
//! - [`shell`] gathers all routines under one type for one driving loop.
//! - [`desktop`] is a host in memory, and [`laws`] proves on it what the
//!   windows look like after each piece of work.

pub mod commands;
pub mod desktop;
pub mod editor_fab;
pub mod geometry;
pub mod host;
pub mod laws;
pub mod overlay;
pub mod shell;
pub mod shortcuts;
pub mod startup;
pub mod window;

pub use crate::startup::run;
