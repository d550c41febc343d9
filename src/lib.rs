//! A library to implement Cloud Native Buildpacks: the layer content metadata record,
//! the launch.toml schema, and a verified engine for the declarative layer lifecycle.

pub mod data;
pub mod error;
pub mod layer;
pub mod layer_lifecycle;
pub mod lifecycle_paths;
pub mod runtime;

pub use error::Error;
