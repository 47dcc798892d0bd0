//! Precomputed animations for the lid-mounted LED matrix, together with the small
//! decisions of the platform daemon that do not touch hardware.
//!
//! An animation is built in four steps: a GIF is decoded into raw RGBA frames
//! ([`decode`]), each frame is composited onto the logical grid of the display
//! ([`grid`], [`geometry`]), every grid is packed into the byte buffer that the
//! device takes ([`data`], [`layout`]), and the buffers are put in sequence with
//! their delays and a playback policy ([`gif`], [`playback`]).
pub mod config_old;
pub mod data;
pub mod decode;
pub mod error;
pub mod frame;
pub mod geometry;
pub mod gif;
pub mod grid;
pub mod layout;
pub mod platform;
pub mod playback;
pub mod time;
