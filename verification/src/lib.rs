//! Client-side logic for uploading an image to the imgur API.

pub mod error;
pub mod handle;
pub mod info;
pub mod json;
pub mod text;

pub use error::{UploadError, UploadErrorKind};
pub use handle::{Exchange, Handle, Request};
pub use info::UploadInfo;
pub use json::Json;
