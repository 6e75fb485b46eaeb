//! Staleness rules for templated file generation.
//!
//! A [`TemplateSpec`] names a data file, a template file and, optionally, the
//! output that is generated from the two. Given what the file system holds at
//! one moment (which paths exist, and when each was last modified), the library
//! decides whether the required inputs are present and whether the output has
//! to be generated again. Looking at the file system is left to the caller:
//! every decision here is a function of the facts that the caller hands in.

pub mod error;
pub mod status;
pub mod template;

pub use crate::error::{Missing, TTGenError};
pub use crate::status::{OutputStatus, Snapshot, Timestamp};
pub use crate::template::TemplateSpec;
