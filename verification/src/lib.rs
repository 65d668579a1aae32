//! Secure erasure of files: the rules that decide what is written over a file,
//! pass by pass, how its name is destroyed before it is unlinked, and which
//! paths a directory walk hands on for erasure.
//!
//! The library holds the decisions and proves them; reading metadata, writing
//! the passes to disk, renaming and unlinking are left to the caller.

pub mod explore;
pub mod files;
pub mod job;
pub mod overwrite;
pub mod remove;
pub mod report;
pub mod utils;
