//! A student's achievement catalog and the progress projection over the course's checkpoints:
//! how many lab achievements should be done, or are left, at each checkpoint, at four paces,
//! for a target grade.
pub mod achievements;
pub mod burndown;
pub mod dates;
pub mod grid;
pub mod langs;
pub mod laws;
pub mod ordering;
pub mod progress_tracker;
pub mod projection;
pub mod records;
pub mod summary;
