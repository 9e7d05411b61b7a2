//! Favicon discovery and image-format detection for web pages.
//!
//! The library decides where a page's favicon lives, resolves the reference
//! found in the page, and classifies downloaded bytes into a canonical file
//! extension. Network and file access are left to the caller.
pub mod text;
pub mod resolve;
pub mod classify;
pub mod html;
pub mod pipeline;
