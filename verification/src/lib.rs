//! Core of a "now playing" display driver: turns a stream of possibly-absent
//! media metadata snapshots into per-frame draw commands for a small OLED
//! screen, with circular text scrolling and local recovery from artwork
//! failures. Device I/O, the media bus, and the network live outside this
//! crate; the logic here is pure and fully specified.

pub mod artwork;
pub mod metadata;
pub mod render;
pub mod scroll;
