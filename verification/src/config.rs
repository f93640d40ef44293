use vstd::prelude::*;
use crate::errors::{JailError, ValidationFault};
use crate::sys;

verus! {

/// One mount entry: make `src` visible at `dst` under the confinement root.
#[derive(Debug, Clone)]
pub struct MountConfig {
    pub src: String,
    pub dst: String,
    pub fstype: Option<String>,
    pub is_bind: bool,
    pub rw: bool,
}

/// Everything one jail run needs: the target program, the requested
/// namespaces, resource ceilings, mounts, target identity and time limit.
#[derive(Debug, Clone)]
pub struct JailConfig {
    pub name: String,
    pub hostname: Option<String>,
    pub chroot_dir: Option<String>,
    pub exec_bin: String,
    pub exec_args: Vec<String>,
    pub clone_newpid: bool,
    pub clone_newnet: bool,
    pub clone_newns: bool,
    pub clone_newuts: bool,
    pub clone_newipc: bool,
    pub clone_newuser: bool,
    pub rlimit_as: Option<u64>,
    pub rlimit_cpu: Option<u64>,
    pub rlimit_nofile: Option<u64>,
    pub mounts: Vec<MountConfig>,
    pub uid: Option<u32>,
    pub gid: Option<u32>,
    pub time_limit: Option<u64>,
}

/// Mathematical value of a mount entry.
#[verifier::ext_equal]
pub ghost struct MountV {
    pub src: Seq<char>,
    pub dst: Seq<char>,
    pub fstype: Option<Seq<char>>,
    pub is_bind: bool,
    pub rw: bool,
}

/// Mathematical value of a whole configuration.
#[verifier::ext_equal]
pub ghost struct ConfigV {
    pub name: Seq<char>,
    pub hostname: Option<Seq<char>>,
    pub chroot_dir: Option<Seq<char>>,
    pub exec_bin: Seq<char>,
    pub exec_args: Seq<Seq<char>>,
    pub clone_newpid: bool,
    pub clone_newnet: bool,
    pub clone_newns: bool,
    pub clone_newuts: bool,
    pub clone_newipc: bool,
    pub clone_newuser: bool,
    pub rlimit_as: Option<u64>,
    pub rlimit_cpu: Option<u64>,
    pub rlimit_nofile: Option<u64>,
    pub mounts: Seq<MountV>,
    pub uid: Option<u32>,
    pub gid: Option<u32>,
    pub time_limit: Option<u64>,
}

pub open spec fn view_opt_string(o: Option<String>) -> Option<Seq<char>> {
    match o {
        Option::Some(s) => Option::Some(s@),
        Option::None => Option::None,
    }
}

impl View for MountConfig {
    type V = MountV;

    open spec fn view(&self) -> MountV {
        MountV {
            src: self.src@,
            dst: self.dst@,
            fstype: view_opt_string(self.fstype),
            is_bind: self.is_bind,
            rw: self.rw,
        }
    }
}

impl View for JailConfig {
    type V = ConfigV;

    open spec fn view(&self) -> ConfigV {
        ConfigV {
            name: self.name@,
            hostname: view_opt_string(self.hostname),
            chroot_dir: view_opt_string(self.chroot_dir),
            exec_bin: self.exec_bin@,
            exec_args: self.exec_args@.map_values(|a: String| a@),
            clone_newpid: self.clone_newpid,
            clone_newnet: self.clone_newnet,
            clone_newns: self.clone_newns,
            clone_newuts: self.clone_newuts,
            clone_newipc: self.clone_newipc,
            clone_newuser: self.clone_newuser,
            rlimit_as: self.rlimit_as,
            rlimit_cpu: self.rlimit_cpu,
            rlimit_nofile: self.rlimit_nofile,
            mounts: self.mounts@.map_values(|m: MountConfig| m@),
            uid: self.uid,
            gid: self.gid,
            time_limit: self.time_limit,
        }
    }
}

impl Default for JailConfig {
    /// The stock configuration: run `/bin/sh` with every namespace requested
    /// and nothing else set.
    fn default() -> (r: Self)
        ensures
            r@.name == "default"@,
            r@.hostname is None,
            r@.chroot_dir is None,
            r@.exec_bin == "/bin/sh"@,
            r@.exec_args.len() == 1,
            r@.exec_args[0] == "/bin/sh"@,
            r@.clone_newpid && r@.clone_newnet && r@.clone_newns,
            r@.clone_newuts && r@.clone_newipc && r@.clone_newuser,
            r@.rlimit_as is None && r@.rlimit_cpu is None && r@.rlimit_nofile is None,
            r@.mounts.len() == 0,
            r@.uid is None && r@.gid is None && r@.time_limit is None,
    {
        let mut args: Vec<String> = Vec::new();
        args.push(String::from_str("/bin/sh"));
        JailConfig {
            name: String::from_str("default"),
            hostname: None,
            chroot_dir: None,
            exec_bin: String::from_str("/bin/sh"),
            exec_args: args,
            clone_newpid: true,
            clone_newnet: true,
            clone_newns: true,
            clone_newuts: true,
            clone_newipc: true,
            clone_newuser: true,
            rlimit_as: None,
            rlimit_cpu: None,
            rlimit_nofile: None,
            mounts: Vec::new(),
            uid: None,
            gid: None,
            time_limit: None,
        }
    }
}

/// `..` stands as a whole path component at position `i` of `s`.
pub open spec fn spec_dotdot_at(s: Seq<char>, i: int) -> bool {
    &&& 0 <= i
    &&& i + 2 <= s.len()
    &&& s[i] == '.'
    &&& s[i + 1] == '.'
    &&& (i == 0 || s[i - 1] == '/')
    &&& (i + 2 == s.len() || s[i + 2] == '/')
}

pub open spec fn spec_has_dotdot(s: Seq<char>) -> bool {
    exists|i: int| spec_dotdot_at(s, i)
}

/// A mount destination stays inside the root: absolute and free of `..`
/// components.
pub open spec fn spec_dst_ok(dst: Seq<char>) -> bool {
    dst.len() > 0 && dst[0] == '/' && !spec_has_dotdot(dst)
}

pub open spec fn spec_mounts_ok(ms: Seq<MountV>) -> bool {
    forall|i: int| 0 <= i < ms.len() ==> spec_dst_ok(#[trigger] ms[i].dst)
}

pub open spec fn spec_mounts_unique(ms: Seq<MountV>) -> bool {
    forall|i: int, j: int| 0 <= i < j < ms.len() ==> ms[i].dst != ms[j].dst
}

pub open spec fn spec_ceilings_ok(c: ConfigV) -> bool {
    c.rlimit_as != Some(0u64) && c.rlimit_cpu != Some(0u64) && c.rlimit_nofile != Some(0u64)
}

/// What validation decides, given whether the configured confinement root
/// exists as a directory (`root_is_dir` is irrelevant when none is
/// configured).
pub open spec fn spec_validate(c: ConfigV, root_is_dir: bool) -> Result<(), JailError> {
    if c.exec_bin.len() == 0 {
        Err(JailError::Validation(ValidationFault::EmptyExecutable))
    } else if c.chroot_dir is Some && !root_is_dir {
        Err(JailError::Validation(ValidationFault::MissingRoot))
    } else if !spec_mounts_ok(c.mounts) {
        Err(JailError::Validation(ValidationFault::MountEscapes))
    } else if !spec_mounts_unique(c.mounts) {
        Err(JailError::Validation(ValidationFault::DuplicateMount))
    } else if !spec_ceilings_ok(c) {
        Err(JailError::Validation(ValidationFault::ZeroCeiling))
    } else {
        Ok(())
    }
}

fn has_dotdot_component(s: &str) -> (r: bool)
    ensures
        r == spec_has_dotdot(s@),
{
    let n = s.unicode_len();
    let mut i: usize = 0;
    while i < n
        invariant
            n == s@.len(),
            i <= n,
            forall|k: int| 0 <= k < i ==> !spec_dotdot_at(s@, k),
        decreases n - i,
    {
        if s.get_char(i) == '.' && i + 1 < n && s.get_char(i + 1) == '.' {
            let before_ok = i == 0 || s.get_char(i - 1) == '/';
            let after_ok = i + 2 == n || s.get_char(i + 2) == '/';
            if before_ok && after_ok {
                assert(spec_dotdot_at(s@, i as int));
                return true;
            }
        }
        assert(!spec_dotdot_at(s@, i as int));
        i += 1;
    }
    assert(forall|k: int| !spec_dotdot_at(s@, k));
    false
}

/// Does this destination stay inside the confinement root?
pub fn mount_dst_ok(dst: &str) -> (r: bool)
    ensures
        r == spec_dst_ok(dst@),
{
    if dst.unicode_len() == 0 {
        return false;
    }
    if dst.get_char(0) != '/' {
        return false;
    }
    !has_dotdot_component(dst)
}

/// The pure half of validation: every check except the look at the disk.
/// `root_is_dir` reports that look; it is ignored when no root is configured.
pub fn check_config(c: &JailConfig, root_is_dir: bool) -> (r: Result<(), JailError>)
    ensures
        r == spec_validate(c@, root_is_dir),
{
    if c.exec_bin.unicode_len() == 0 {
        return Err(JailError::Validation(ValidationFault::EmptyExecutable));
    }
    if c.chroot_dir.is_some() && !root_is_dir {
        return Err(JailError::Validation(ValidationFault::MissingRoot));
    }
    let n = c.mounts.len();
    let mut i: usize = 0;
    while i < n
        invariant
            n == c.mounts.len(),
            i <= n,
            c@.exec_bin.len() > 0,
            c@.chroot_dir is Some ==> root_is_dir,
            forall|k: int| 0 <= k < i ==> spec_dst_ok(#[trigger] c@.mounts[k].dst),
        decreases n - i,
    {
        if !mount_dst_ok(c.mounts[i].dst.as_str()) {
            proof {
                assert(c@.mounts[i as int] == c.mounts@[i as int]@);
                assert(!spec_dst_ok(c@.mounts[i as int].dst));
                assert(!spec_mounts_ok(c@.mounts));
            }
            return Err(JailError::Validation(ValidationFault::MountEscapes));
        }
        i += 1;
    }
    assert(spec_mounts_ok(c@.mounts));
    let mut i: usize = 0;
    while i < n
        invariant
            n == c.mounts.len(),
            i <= n,
            c@.exec_bin.len() > 0,
            c@.chroot_dir is Some ==> root_is_dir,
            spec_mounts_ok(c@.mounts),
            forall|a: int, b: int| 0 <= a < b < n && a < i ==> c@.mounts[a].dst != c@.mounts[b].dst,
        decreases n - i,
    {
        let mut j: usize = i + 1;
        while j < n
            invariant
                n == c.mounts.len(),
                i < j || i + 1 == j,
                i < n,
                j <= n,
                c@.exec_bin.len() > 0,
                c@.chroot_dir is Some ==> root_is_dir,
                spec_mounts_ok(c@.mounts),
                forall|a: int, b: int| 0 <= a < b < n && a < i ==> c@.mounts[a].dst
                    != c@.mounts[b].dst,
                forall|b: int| i < b < j ==> c@.mounts[i as int].dst != c@.mounts[b].dst,
            decreases n - j,
        {
            if c.mounts[i].dst == c.mounts[j].dst {
                proof {
                    assert(c@.mounts[i as int] == c.mounts@[i as int]@);
                    assert(c@.mounts[j as int] == c.mounts@[j as int]@);
                    assert(c@.mounts[i as int].dst == c@.mounts[j as int].dst);
                    assert(!spec_mounts_unique(c@.mounts)) by {
                        assert(0 <= (i as int) && (i as int) < (j as int) && (j as int)
                            < c@.mounts.len());
                    }
                }
                return Err(JailError::Validation(ValidationFault::DuplicateMount));
            }
            j += 1;
        }
        i += 1;
    }
    assert(spec_mounts_unique(c@.mounts));
    if let Some(v) = c.rlimit_as {
        if v == 0 {
            return Err(JailError::Validation(ValidationFault::ZeroCeiling));
        }
    }
    if let Some(v) = c.rlimit_cpu {
        if v == 0 {
            return Err(JailError::Validation(ValidationFault::ZeroCeiling));
        }
    }
    if let Some(v) = c.rlimit_nofile {
        if v == 0 {
            return Err(JailError::Validation(ValidationFault::ZeroCeiling));
        }
    }
    Ok(())
}

/// Pre-flight validation: refuse an empty target executable, a confinement
/// root that is not an existing directory, and malformed mounts or ceilings.
/// Nothing is forked, mounted or changed by this call.
pub fn validate_config(c: &JailConfig) -> (r: Result<(), JailError>)
    ensures
        r == spec_validate(c@, true) || r == spec_validate(c@, false),
        c@.exec_bin.len() == 0 ==> r == Err::<(), JailError>(
            JailError::Validation(ValidationFault::EmptyExecutable),
        ),
        c@.chroot_dir is None ==> r == spec_validate(c@, true),
    {
    let root_is_dir: bool = match &c.chroot_dir {
        None => true,
        Some(p) => sys::path_is_dir(p.as_str()),
    };
    check_config(c, root_is_dir)
}

/// An empty target executable is always refused, whatever the disk holds.
pub proof fn lemma_empty_exec_rejected(c: ConfigV, root_is_dir: bool)
    requires
        c.exec_bin.len() == 0,
    ensures
        spec_validate(c, root_is_dir) == Err::<(), JailError>(
            JailError::Validation(ValidationFault::EmptyExecutable),
        ),
{
}

/// A configured confinement root that is absent (or not a directory) is
/// always refused, so no later stage can run on it.
pub proof fn lemma_missing_root_rejected(c: ConfigV)
    requires
        c.chroot_dir is Some,
        c.exec_bin.len() > 0,
    ensures
        spec_validate(c, false) == Err::<(), JailError>(
            JailError::Validation(ValidationFault::MissingRoot),
        ),
{
}

} // verus!
