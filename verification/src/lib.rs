//! An image-resizing proxy's request pipeline: validation of the request,
//! the decision whether an image is shrunk, and the response that goes out.

pub mod config;
pub mod text;
pub mod validate;
pub mod codec;
pub mod transcode;
pub mod response;
pub mod resize;
