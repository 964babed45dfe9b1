//! A library for safely exposing a directory tree: sandboxed path
//! resolution, directory listing, bounded windowed file reads with UTF-8
//! boundary correction, and recursive text search under size limits.
//!
//! All file and network I/O lives outside this crate; the functions here
//! work on plain values (strings, byte slices, entry records) that the
//! surrounding program reads from the filesystem and hands in.

pub mod auth;
pub mod gate;
pub mod listing;
pub mod numeric;
pub mod sandbox;
pub mod search;
pub mod window;
