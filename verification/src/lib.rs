//! Pattern and palette logic of a procedural "gold lace" screensaver: the
//! xorshift generator that drives every pattern, the integer part of the
//! pattern builder, palette rings and their dense tables, and the pattern /
//! palette history that the viewer walks through.

pub mod rng;
pub mod color;
pub mod palette;
pub mod state;
pub mod clock;
pub mod session;
