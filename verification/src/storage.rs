//! The origin that pictures are fetched from.

pub mod errors;
pub mod webfolder;
