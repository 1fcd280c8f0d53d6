//! The rules of a media player: its clock, its queues, its decode loop and
//! the packing of decoded pictures and samples.
//!
//! Nothing here opens a file, talks to a device or reads the time. Times are
//! nanoseconds, stream times are ticks of a [`time::Rational`] unit, and whoever
//! drives the library hands in what the demuxer, the decoders and the sound
//! device reported.
pub mod decode;
pub mod error;
pub mod image;
pub mod info;
pub mod player;
pub mod sample;
pub mod search;
pub mod shared;
pub mod time;
