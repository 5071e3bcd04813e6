//! Timestamped single-file backup of a local database file.
//!
//! The library owns the logic of the backup operation: deriving the source
//! and destination paths, rendering the timestamped backup filename and the
//! short display time, classifying failures, and deciding what happens next
//! after each filesystem step. The filesystem work itself (directory
//! creation, existence checks, the byte copy) is performed by the embedding
//! application, which drives [`backup::backup_step`] with the outcome of
//! each step.

pub mod backup;
pub mod time;
