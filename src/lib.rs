//! Safe bridges for two pieces of the FFmpeg utility library: the color-space
//! enumeration and the diagnostic log callback.
//!
//! Everything here works on plain values. The native calls themselves (the
//! name table, the callback slot, the level setter, rendering of C format
//! strings) are made by the application around this library, which hands the
//! results in and takes the decisions back out.

pub mod space;
pub mod log;
pub mod lines;
