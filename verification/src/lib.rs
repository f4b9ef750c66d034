//! Path sandboxing, archive-extraction planning, asset provisioning and
//! listener bootstrap decisions for a model-serving front end.

pub mod archive;
pub mod auth;
pub mod listener;
pub mod path;
pub mod provision;

pub use path::SandboxPath;
