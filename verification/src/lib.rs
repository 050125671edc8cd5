//! Integer core of a vintage-audio effect: the noise generator that drives
//! the hiss and crackle stages of the processing pipeline.

pub mod noise;
