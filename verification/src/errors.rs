use vstd::prelude::*;

verus! {

/// The precise reason a configuration was refused before the jail started.
#[derive(Clone, Copy, Debug, PartialEq, Eq, Structural)]
pub enum ValidationFault {
    /// The target executable path is empty.
    EmptyExecutable,
    /// A confinement root is configured but does not exist as a directory.
    MissingRoot,
    /// A mount destination is empty, relative, or escapes the root via `..`.
    MountEscapes,
    /// Two mount entries share the same destination.
    DuplicateMount,
    /// A resource ceiling is present but zero.
    ZeroCeiling,
}

/// One error per pipeline stage; syscall stages carry the kernel-reported
/// errno value.
#[derive(Clone, Copy, Debug, PartialEq, Eq, Structural)]
pub enum JailError {
    /// Pre-flight validation refused the configuration.
    Validation(ValidationFault),
    /// The namespace request failed.
    Isolation(i32),
    /// One of the identity-mapping writes failed.
    Mapping(i32),
    /// Directory creation, a mount, or the root switch failed.
    Filesystem(i32),
    /// Dropping group/user identity or applying a resource ceiling failed.
    Privilege(i32),
    /// Replacing the process image failed.
    Exec(i32),
    /// Creating or waiting for the child process failed.
    Supervision(i32),
}

} // verus!
