//! A small preferences store: one record of three text fields, kept as a
//! JSON file in the application's data directory.
//!
//! The store decides and the host acts. The host says which data directory
//! it has, looks at the file, creates directories, reads and writes; the
//! store says where the file lies, what a found file means, and which text
//! is to be written.
//!
//! - [`path`]: where the file lies;
//! - [`store`]: loading and saving, step by step;
//! - [`codec`]: the file's text, written and read;
//! - [`json`]: what is asked of `serde_json`, and taken on trust;
//! - [`unique`]: the written text determines the record;
//! - [`disk`]: what holds of loads and saves on a model of the disk;
//! - [`error`], [`record`]: the failures and the record.

pub mod codec;
pub mod disk;
pub mod error;
pub mod json;
pub mod path;
pub mod record;
pub mod store;
pub mod unique;
