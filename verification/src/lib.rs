//! Plays a sequence of raster frames inside a text terminal, one colored
//! block character per pixel, redrawing only the pixels that changed
//! between consecutive frames and pacing playback to a target frame rate.

pub mod cli;
pub mod diff;
pub mod frame;
pub mod pacer;
pub mod term;
