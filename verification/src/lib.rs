//! Acquisition pipeline for a paginated web comic: catalog discovery,
//! chapter scanning with a pagination-forcing loop, flattening of chapter
//! batches into numbered image jobs, fetch-outcome handling, and
//! materialization of fetched bytes as PNG files.
//!
//! The browser session, HTTP client, filesystem and channels live outside
//! this library; the decisions and transformations between them are
//! specified and verified here.

pub mod catalog;
pub mod codec;
pub mod error;
pub mod fetch;
pub mod settings;
pub mod flatten;
pub mod paths;
pub mod scan;
pub mod text;
