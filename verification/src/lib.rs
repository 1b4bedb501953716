//! Navigation and viewport state engine for a terminal file browser.
//!
//! The library models a catalog of directory entries, a wraparound
//! selection cursor over it, a two-screen state machine (browsing the
//! list vs. viewing one entry's text content), and the scroll-window
//! arithmetic that maps a text buffer onto a fixed-height viewport.
//! All I/O (directory listing, file reads, terminal drawing) is left to
//! the caller, which feeds plain values in and carries actions out.

pub mod laws;
pub mod state;
pub mod viewport;
