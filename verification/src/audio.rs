//! Music: which tracks there are, where each comes from, and how decoded
//! sound is laid out for playing.

pub mod context;
pub mod frames;
pub mod music;
