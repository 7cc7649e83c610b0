//! Filesystem helpers for a media browser: path classification, collision-free
//! naming, file metadata records and placeholder video thumbnails.

pub mod error;
pub mod file_info;
pub mod naming;
pub mod path_facts;
pub mod text;
pub mod thumbnail;
