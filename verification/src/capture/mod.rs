//! Media capture: frame differencing and audio chunk preparation.

pub mod audio;
pub mod imaging;
pub mod screen;
