//! Keeps a messaging profile in step with the book a user is reading.
//!
//! The library holds the decisions: what a reading page shows, where a cover
//! is kept, which profile fields are written, and in which order the outside
//! requests of one synchronisation follow each other. Performing the requests
//! is left to the caller.

pub mod batch;
pub mod book;
pub mod cover;
pub mod error;
pub mod isolation;
pub mod profile;
pub mod settings;
pub mod structs;
pub mod sync;
pub mod templates;
pub mod trace;
