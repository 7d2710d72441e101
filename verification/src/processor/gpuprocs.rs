//! What a Gaussian blur on a graphics device is made of.

pub mod blur;
pub mod rows;
