//! A verified core for a file-organizing tool.
//!
//! The library plans a one-shot reorganization of a directory: it classifies
//! file names into categories, buckets byte counts into size classes, filters
//! candidates by extension, computes destination paths for a chosen
//! organization mode, groups the plan for preview, summarizes it, and accounts
//! for the outcomes of the moves. All filesystem access (directory walking,
//! metadata reads, directory creation, renames) is left to the caller, which
//! hands the library plain values and takes plain values back.

pub mod strings;
pub mod file_types;
pub mod organizer;
pub mod report;
