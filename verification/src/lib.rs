//! On-the-fly image transformation: request parameters become an ordered chain
//! of transform stages, and the chain runs over a decoded image.

pub mod config;
pub mod handler;
pub mod processor;
pub mod storage;
