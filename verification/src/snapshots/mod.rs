//! Snapshotters: how the layers of an image become a root file system.

pub mod occlum;
