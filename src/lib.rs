//! Request construction and response decoding for hosted foundation models.
pub mod decode;
pub mod dispatch;
pub mod error;
pub mod json;
pub mod laws;
pub mod models;
pub mod request;
