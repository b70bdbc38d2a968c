//! Content discovery and rendering for a small article site: metadata
//! records, markdown conversion, article lookup and listing, and the pages
//! that the two read paths answer with.

pub mod metadata;
pub mod markdown;
pub mod repository;
pub mod pages;
