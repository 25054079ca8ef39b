//! The parts of the render boundary that the core reasons about: shader
//! description building and the taxonomy of render outcomes.

pub mod shaders;
