//! The stages.

pub mod blur;
pub mod crop;
pub mod flip;
pub mod monochrome;
pub mod resize;
pub mod rotate;
