//! Rule-based detection of short-video-app media files, with a result cache
//! and the decisions that drive a scan.

pub mod cache;
pub mod files;
pub mod metadata;
pub mod scan;
pub mod scoring;
pub mod text;
