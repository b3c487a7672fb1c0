//! Reads key events from a terminal in raw mode.
//!
//! A read fills a window of three bytes; the window is decoded against an
//! ordered table of byte patterns, assembled from the classes of keys that a
//! configuration enables. Where several patterns match, the one scanned last
//! wins. A keyboard interrupt that arrives during a read is reported as Ctrl
//! with `c` instead of ending the process.

/// Keyboard: a key table and its interrupt flag.
pub mod keyboard;
/// Key events and byte windows.
pub mod keys;
/// The byte patterns of each class of keys.
pub mod patterns;
/// The key table and the decoder.
pub mod table;
/// Terminal attributes, raw mode, and the interrupt flag.
pub mod termio;
