//! Core logic of a two-column mod manager: an `available` column and an
//! `installed` column of mod file names, synchronized from directory
//! listings and rearranged by drag-and-drop moves.
//!
//! The surrounding shell performs the actual directory listing, file
//! copying and deletion; this crate owns the column state and proves the
//! list manipulation correct.

pub mod defines;
pub mod drag;
pub mod laws;
pub mod manager;
