use vstd::prelude::*;
use crate::config::{ConfigV, JailConfig};
use crate::errors::JailError;
use crate::sys;

verus! {

/// Linux clone-flag bit for a new mount namespace.
pub const FLAG_NEWNS: u32 = 0x0002_0000;

/// Linux clone-flag bit for a new UTS (hostname) namespace.
pub const FLAG_NEWUTS: u32 = 0x0400_0000;

/// Linux clone-flag bit for a new IPC namespace.
pub const FLAG_NEWIPC: u32 = 0x0800_0000;

/// Linux clone-flag bit for a new user namespace.
pub const FLAG_NEWUSER: u32 = 0x1000_0000;

/// Linux clone-flag bit for a new process-id namespace.
pub const FLAG_NEWPID: u32 = 0x2000_0000;

/// Linux clone-flag bit for a new network namespace.
pub const FLAG_NEWNET: u32 = 0x4000_0000;

/// The clone-flag word that a configuration's namespace requests stand for:
/// the union of the bit of each requested kind, and nothing else.
pub open spec fn spec_clone_bits(c: ConfigV) -> u32 {
    (if c.clone_newpid {
        FLAG_NEWPID
    } else {
        0
    }) | (if c.clone_newnet {
        FLAG_NEWNET
    } else {
        0
    }) | (if c.clone_newns {
        FLAG_NEWNS
    } else {
        0
    }) | (if c.clone_newuts {
        FLAG_NEWUTS
    } else {
        0
    }) | (if c.clone_newipc {
        FLAG_NEWIPC
    } else {
        0
    }) | (if c.clone_newuser {
        FLAG_NEWUSER
    } else {
        0
    })
}

/// Compute the clone-flag word for the configuration's namespace requests.
pub fn clone_bits(c: &JailConfig) -> (r: u32)
    ensures
        r == spec_clone_bits(c@),
{
    (if c.clone_newpid {
        FLAG_NEWPID
    } else {
        0
    }) | (if c.clone_newnet {
        FLAG_NEWNET
    } else {
        0
    }) | (if c.clone_newns {
        FLAG_NEWNS
    } else {
        0
    }) | (if c.clone_newuts {
        FLAG_NEWUTS
    } else {
        0
    }) | (if c.clone_newipc {
        FLAG_NEWIPC
    } else {
        0
    }) | (if c.clone_newuser {
        FLAG_NEWUSER
    } else {
        0
    })
}

/// Ask the kernel for every requested namespace kind at once. The request
/// is atomic: on failure no membership changed and the error names the
/// isolation stage with the kernel-reported cause, so no later stage may
/// run.
pub fn create_namespaces(c: &JailConfig) -> (r: Result<(), JailError>)
    ensures
        r matches Err(e) ==> e is Isolation,
{
    match sys::unshare_bits(clone_bits(c)) {
        Ok(()) => Ok(()),
        Err(errno) => Err(JailError::Isolation(errno)),
    }
}

} // verus!
