use vstd::prelude::*;
use crate::config::{spec_validate, ConfigV, JailConfig};
use crate::confine;
use crate::errors::JailError;
use crate::isolate;
use crate::launch::{prepare_exec, ExecImage};
use crate::mapping;
use crate::privilege;
use crate::sys;

verus! {

/// One jail run: a validated configuration, consumed by the stages in
/// their fixed order.
pub struct Jail {
    config: JailConfig,
}

impl View for Jail {
    type V = ConfigV;

    closed spec fn view(&self) -> ConfigV {
        self.config@
    }
}

impl Jail {
    /// Wrap a configuration for one run.
    pub fn new(config: JailConfig) -> (r: Self)
        ensures
            r@ == config@,
    {
        Jail { config }
    }

    /// The configuration this jail was built from.
    pub fn config(&self) -> (r: &JailConfig)
        ensures
            r@ == self@,
    {
        &self.config
    }

    /// Re-check the defensive pre-flight invariants before anything runs.
    pub fn validate(&self) -> (r: Result<(), JailError>)
        ensures
            r == spec_validate(self@, true) || r == spec_validate(self@, false),
            self@.exec_bin.len() == 0 ==> r is Err,
            r matches Err(e) ==> e is Validation,
    {
        let r = crate::config::validate_config(&self.config);
        proof {
            if self@.exec_bin.len() == 0 {
                crate::config::lemma_empty_exec_rejected(self@, true);
                crate::config::lemma_empty_exec_rejected(self@, false);
            }
            if r is Err {
                assert(r == spec_validate(self@, true) || r == spec_validate(self@, false));
            }
        }
        r
    }

    /// Ask the kernel for the requested namespaces, atomically, before the
    /// child is created.
    pub fn create_namespaces(&self) -> (r: Result<(), JailError>)
        ensures
            r matches Err(e) ==> e is Isolation,
    {
        isolate::create_namespaces(&self.config)
    }

    /// The child-side pipeline up to (not including) the program launch,
    /// in the fixed order: identity mapping (only when a user namespace
    /// was requested), hostname, filesystem confinement, privilege drop.
    /// The first failing stage aborts the run with its own error kind and
    /// no later stage begins. A configuration that requests none of these
    /// has nothing to set up, and the setup always succeeds on it.
    pub fn setup_child_environment(&self) -> (r: Result<(), JailError>)
        ensures
            r matches Err(e) ==> (e is Mapping || e is Isolation || e is Filesystem
                || e is Privilege),
            r matches Err(e) ==> ((e is Mapping ==> self@.clone_newuser) && (e is Isolation
                ==> self@.hostname is Some) && (e is Filesystem ==> self@.chroot_dir is Some)),
            (!self@.clone_newuser && self@.hostname is None && self@.chroot_dir is None
                && privilege::spec_priv_plan(self@).len() == 0) ==> r is Ok,
    {
        if self.config.clone_newuser {
            match mapping::apply_identity_mapping() {
                Ok(()) => {},
                Err(e) => {
                    return Err(e);
                },
            }
        }
        if let Some(hostname) = &self.config.hostname {
            match sys::sethostname_str(hostname.as_str()) {
                Ok(()) => {},
                Err(errno) => {
                    return Err(JailError::Isolation(errno));
                },
            }
        }
        if let Some(root) = &self.config.chroot_dir {
            match confine::setup_filesystem(root.as_str(), &self.config.mounts) {
                Ok(()) => {},
                Err(e) => {
                    return Err(e);
                },
            }
        }
        privilege::apply_privileges(&self.config)
    }

    /// The process image the launcher will exec: target binary, arguments,
    /// and the minimal fixed environment.
    pub fn exec_image(&self) -> (r: Result<ExecImage, JailError>)
        ensures
            r matches Err(e) ==> e is Exec,
    {
        prepare_exec(&self.config)
    }
}

} // verus!
