//! Planning and rendering of "archetype" machine-image bakes for a cloud
//! platform: a typed operating-system domain, resolution of a validated
//! platform context from cloud CLI query results, and generation of the
//! provisioning-tool configuration artifacts.

pub mod config;
pub mod digits;
pub mod error;
pub mod gcloud;
pub mod os;
pub mod packer;
pub mod paths;
pub mod platform;
pub mod template;
pub mod text;
