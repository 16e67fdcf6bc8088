//! Snapshotters for the Occlum library OS.

pub mod unionfs;
