//! A minimal process jail: validate a configuration, request kernel
//! namespaces, map the caller's identity into the new user namespace,
//! confine the filesystem, drop privileges and resource ceilings, and
//! supervise the jailed child. The ordered plans of each stage, the
//! validation rules, and the canonical text encoding of a configuration
//! are stated in contracts and proved.

pub mod codec;
pub mod config;
pub mod confine;
pub mod errors;
pub mod isolate;
pub mod jail;
pub mod launch;
pub mod mapping;
pub mod privilege;
pub mod supervise;
mod sys;
pub mod text;

pub use config::{check_config, validate_config, JailConfig, MountConfig};
pub use errors::{JailError, ValidationFault};
pub use jail::Jail;
pub use launch::ExecImage;
pub use supervise::{RunReport, WaitOutcome};
