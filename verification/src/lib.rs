//! Verified core of a cadastral address indexer.
//!
//! The library scans a fixed-width, multi-record-type extract file, decodes
//! its legacy single-byte text fields, builds the reference tables for the
//! administrative hierarchy, and joins every street record against them,
//! producing output documents in fixed-size batches. Reading the file and
//! delivering the batches to the search engine stay outside the library.

pub mod decode;
pub mod join;
pub mod pipeline;
pub mod records;
pub mod scan;
pub mod table;
pub mod text;
