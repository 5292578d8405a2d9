//! Terminal image rendering with half-block cells, and animation playback
//! driven as a state machine.

pub mod ansi;
pub mod cancel;
pub mod cell;
pub mod config;
pub mod grid;
pub mod image_formats;
pub mod painter;
pub mod playback;
pub mod printer;
pub mod size;
pub mod term;
pub mod trace;
pub mod viewer;
