//! What the service is configured with.

pub mod weburl;

pub use weburl::WebUrl;
