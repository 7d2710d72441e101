//! What a request asks for, and what goes back.

pub mod picture;
pub mod query;
pub mod response;
