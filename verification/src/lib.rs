//! Upload-and-caption pipeline: verified orchestration of a single-file
//! multipart upload to an object store, followed by caption resolution
//! against an ordered list of inference models.

pub mod caption;
pub mod upload;
