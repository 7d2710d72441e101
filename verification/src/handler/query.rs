//! The request parameters and the rules by which their values are read.

pub mod auto;
pub mod crop;
pub mod error;
pub mod fit;
pub mod flip;
pub mod monochrome;
pub mod params;
pub mod rotate;
pub mod text;
pub mod vec;

pub use auto::AutoFeature;
pub use crop::Crop;
pub use error::Error;
pub use fit::Fit;
pub use flip::Flip;
pub use monochrome::MonoChrome;
pub use params::ProcessParams;
pub use rotate::Rotate;
pub use vec::CommaSeparatedVec;
