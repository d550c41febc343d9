//! Data structures of the files that a buildpack reads and writes.

pub mod launch;
pub mod layer;
