//! A verified core for rendering a raster image inside a terminal.
//!
//! The library models the asynchronous image-preparation pipeline of a
//! terminal image viewer: a decode task turns a source into a pixel buffer,
//! a resize worker turns resize requests into encoded frames, a protocol
//! state holder owns the frame currently on display, and a cooperative
//! render loop drains completion channels, draws, and exits on input.
//! Everything here is plain data and decisions; the terminal, the codecs
//! and the threads that drive the pipeline live outside the library and
//! hand it plain values.

pub mod errors;
pub mod frame;
pub mod geometry;
pub mod holder;
pub mod pixels;
pub mod session;
