use vstd::prelude::*;
use vstd::string::StrSliceExecFns;
use crate::config::MountConfig;
use crate::errors::JailError;
use crate::sys;

verus! {

/// Linux mount-flag bit for a read-only mount.
pub const MS_RDONLY_BIT: u64 = 0x1;

/// Linux mount-flag bit for a bind mount.
pub const MS_BIND_BIT: u64 = 0x1000;

/// The mount-flag word derived from one mount entry: the bind bit when it
/// is a bind mount, the read-only bit when it is not writable, nothing
/// else.
pub open spec fn spec_mount_bits(is_bind: bool, rw: bool) -> u64 {
    (if is_bind {
        MS_BIND_BIT
    } else {
        0
    }) | (if !rw {
        MS_RDONLY_BIT
    } else {
        0
    })
}

/// Compute the mount-flag word for one mount entry.
pub fn mount_flag_bits(is_bind: bool, rw: bool) -> (r: u64)
    ensures
        r == spec_mount_bits(is_bind, rw),
{
    (if is_bind {
        MS_BIND_BIT
    } else {
        0
    }) | (if !rw {
        MS_RDONLY_BIT
    } else {
        0
    })
}

/// The well-known top-level directories of the jail skeleton, in the order
/// they are created.
pub open spec fn spec_skeleton() -> Seq<Seq<char>> {
    seq![
        "/bin"@,
        "/lib"@,
        "/lib64"@,
        "/usr"@,
        "/etc"@,
        "/tmp"@,
        "/proc"@,
        "/dev"@,
        "/sys"@,
    ]
}

/// One step of building the confined filesystem, in the order the steps
/// are performed.
#[derive(Debug, Clone)]
pub enum FsAction {
    /// Make sure this directory exists, creating missing parents.
    Dir(String),
    /// Make sure the mount target exists: an empty file when the source is
    /// a file, a directory otherwise.
    EnsureTarget { src: String, target: String },
    /// Install one mount at `target` with the given flag bits.
    Mount { src: String, target: String, fstype: Option<String>, bits: u64 },
    /// Switch the process root to this directory.
    SwitchRoot(String),
    /// Reset the working directory to the new root.
    ResetCwd,
}

/// Mathematical value of one step.
#[verifier::ext_equal]
pub ghost enum FsActV {
    Dir(Seq<char>),
    EnsureTarget { src: Seq<char>, target: Seq<char> },
    Mount { src: Seq<char>, target: Seq<char>, fstype: Option<Seq<char>>, bits: u64 },
    SwitchRoot(Seq<char>),
    ResetCwd,
}

impl View for FsAction {
    type V = FsActV;

    open spec fn view(&self) -> FsActV {
        match self {
            FsAction::Dir(p) => FsActV::Dir(p@),
            FsAction::EnsureTarget { src, target } => FsActV::EnsureTarget {
                src: src@,
                target: target@,
            },
            FsAction::Mount { src, target, fstype, bits } => FsActV::Mount {
                src: src@,
                target: target@,
                fstype: crate::config::view_opt_string(*fstype),
                bits: *bits,
            },
            FsAction::SwitchRoot(p) => FsActV::SwitchRoot(p@),
            FsAction::ResetCwd => FsActV::ResetCwd,
        }
    }
}

/// Copy an optional filesystem-type string.
fn clone_opt_string(o: &Option<String>) -> (r: Option<String>)
    ensures
        crate::config::view_opt_string(r) == crate::config::view_opt_string(*o),
{
    match o {
        Some(t) => Some(t.clone()),
        None => None,
    }
}

/// Build the ordered plan that confines the process under `root`: the
/// skeleton directories first, then for each mount entry its target and
/// the mount itself, in the order given, and only after every mount the
/// root switch and the working-directory reset. The final clause is the
/// ordering guarantee itself: every mount step stands strictly before
/// every root-switch step.
pub fn fs_plan(root: &str, mounts: &Vec<MountConfig>) -> (r: Vec<FsAction>)
    ensures
        r@.len() == 12 + 2 * mounts@.len(),
        r@[0]@ == FsActV::Dir(root@),
        forall|i: int| 1 <= i < 10 ==> #[trigger] r@[i]@ == FsActV::Dir(
            root@ + spec_skeleton()[i - 1],
        ),
        forall|j: int| 0 <= j < mounts@.len() ==> #[trigger] r@[10 + 2 * j]@
            == (FsActV::EnsureTarget {
            src: mounts@[j]@.src,
            target: root@ + mounts@[j]@.dst,
        }),
        forall|j: int| 0 <= j < mounts@.len() ==> #[trigger] r@[10 + 2 * j + 1]@ == (FsActV::Mount {
            src: mounts@[j]@.src,
            target: root@ + mounts@[j]@.dst,
            fstype: mounts@[j]@.fstype,
            bits: spec_mount_bits(mounts@[j]@.is_bind, mounts@[j]@.rw),
        }),
        forall|i: int| 10 <= i < 10 + 2 * mounts@.len() ==> (#[trigger] r@[i]@ is EnsureTarget
            || r@[i]@ is Mount),
        r@[r@.len() - 2]@ == FsActV::SwitchRoot(root@),
        r@[r@.len() - 1]@ == FsActV::ResetCwd,
        forall|i: int, j: int|
            0 <= i < r@.len() && 0 <= j < r@.len() && #[trigger] r@[i]@ is Mount
                && #[trigger] r@[j]@ is SwitchRoot ==> i < j,
{
    let ghost m = mounts@.len();
    let mut r: Vec<FsAction> = Vec::new();
    r.push(FsAction::Dir(root.to_owned()));
    let mut s = root.to_owned();
    s.append("/bin");
    r.push(FsAction::Dir(s));
    let mut s = root.to_owned();
    s.append("/lib");
    r.push(FsAction::Dir(s));
    let mut s = root.to_owned();
    s.append("/lib64");
    r.push(FsAction::Dir(s));
    let mut s = root.to_owned();
    s.append("/usr");
    r.push(FsAction::Dir(s));
    let mut s = root.to_owned();
    s.append("/etc");
    r.push(FsAction::Dir(s));
    let mut s = root.to_owned();
    s.append("/tmp");
    r.push(FsAction::Dir(s));
    let mut s = root.to_owned();
    s.append("/proc");
    r.push(FsAction::Dir(s));
    let mut s = root.to_owned();
    s.append("/dev");
    r.push(FsAction::Dir(s));
    let mut s = root.to_owned();
    s.append("/sys");
    r.push(FsAction::Dir(s));
    assert(r@.len() == 10);
    assert(forall|i: int| 1 <= i < 10 ==> #[trigger] r@[i]@ == FsActV::Dir(
        root@ + spec_skeleton()[i - 1],
    ));
    let n = mounts.len();
    let mut k: usize = 0;
    while k < n
        invariant
            n == m,
            n == mounts.len(),
            k <= n,
            r@.len() == 10 + 2 * k,
            r@[0]@ == FsActV::Dir(root@),
            forall|i: int| 1 <= i < 10 ==> #[trigger] r@[i]@ == FsActV::Dir(
                root@ + spec_skeleton()[i - 1],
            ),
            forall|j: int| 0 <= j < k ==> #[trigger] r@[10 + 2 * j]@ == (FsActV::EnsureTarget {
                src: mounts@[j]@.src,
                target: root@ + mounts@[j]@.dst,
            }),
            forall|j: int| 0 <= j < k ==> #[trigger] r@[10 + 2 * j + 1]@ == (FsActV::Mount {
                src: mounts@[j]@.src,
                target: root@ + mounts@[j]@.dst,
                fstype: mounts@[j]@.fstype,
                bits: spec_mount_bits(mounts@[j]@.is_bind, mounts@[j]@.rw),
            }),
            forall|i: int| 10 <= i < 10 + 2 * k ==> (#[trigger] r@[i]@ is EnsureTarget
                || r@[i]@ is Mount),
        decreases n - k,
    {
        let mc = &mounts[k];
        let mut target = root.to_owned();
        target.append(mc.dst.as_str());
        let mut target2 = root.to_owned();
        target2.append(mc.dst.as_str());
        r.push(FsAction::EnsureTarget { src: mc.src.clone(), target });
        r.push(FsAction::Mount {
            src: mc.src.clone(),
            target: target2,
            fstype: clone_opt_string(&mc.fstype),
            bits: mount_flag_bits(mc.is_bind, mc.rw),
        });
        k += 1;
    }
    r.push(FsAction::SwitchRoot(root.to_owned()));
    r.push(FsAction::ResetCwd);
    proof {
        let len = r@.len() as int;
        assert(r@[len - 2]@ == FsActV::SwitchRoot(root@));
        assert(r@[len - 1]@ == FsActV::ResetCwd);
        assert forall|i: int, j: int|
            0 <= i < len && 0 <= j < len && #[trigger] r@[i]@ is Mount
                && #[trigger] r@[j]@ is SwitchRoot implies i < j by {
            if j < 10 {
                assert(r@[j]@ is Dir);
            } else if j < 10 + 2 * m {
                assert(r@[j]@ is EnsureTarget || r@[j]@ is Mount);
            } else if j == len - 1 {
                assert(r@[j]@ is ResetCwd);
            }
            if i < 10 {
                assert(r@[i]@ is Dir);
            } else if i == len - 2 {
                assert(r@[i]@ is SwitchRoot);
            } else if i == len - 1 {
                assert(r@[i]@ is ResetCwd);
            }
        }
    }
    r
}

/// Index of the last `/` in `s`, if any.
fn last_slash(s: &str) -> (r: Option<usize>)
    ensures
        r matches Some(i) ==> i < s@.len() && s@[i as int] == '/',
{
    let n = s.unicode_len();
    let mut best: Option<usize> = None;
    let mut i: usize = 0;
    while i < n
        invariant
            n == s@.len(),
            i <= n,
            best matches Some(b) ==> b < n && s@[b as int] == '/',
        decreases n - i,
    {
        if s.get_char(i) == '/' {
            best = Some(i);
        }
        i += 1;
    }
    best
}

/// What a failed mkdir means for the step, decided from whether the path
/// is a directory after all: an already-existing directory is exactly what
/// the step wanted, any other failure keeps its cause.
pub fn mkdir_outcome(result: Result<(), i32>, is_dir_now: bool) -> (r: Result<(), i32>)
    ensures
        result is Ok ==> r is Ok,
        (result is Err && is_dir_now) ==> r is Ok,
        result matches Err(e) ==> (is_dir_now || r == Err::<(), i32>(e)),
{
    match result {
        Ok(()) => Ok(()),
        Err(errno) => {
            if is_dir_now {
                Ok(())
            } else {
                Err(errno)
            }
        },
    }
}

/// Make sure `path` is an existing directory, creating every missing piece
/// of it, as the skeleton builder is allowed to do idempotently. Whether
/// that succeeded the disk decides; what a failed mkdir means is
/// contracted at `mkdir_outcome`.
fn make_dirs_all(path: &str) -> (r: Result<(), i32>) {
    let n = path.unicode_len();
    let mut i: usize = 1;
    while i < n
        invariant
            n == path@.len(),
            1 <= i,
            i <= n || n == 0,
        decreases n - i,
    {
        if path.get_char(i) == '/' {
            let prefix = path.substring_char(0, i);
            let _ = sys::mkdir_once(prefix);
        }
        i += 1;
    }
    let made = sys::mkdir_once(path);
    match made {
        Ok(()) => Ok(()),
        Err(errno) => mkdir_outcome(Err(errno), sys::path_is_dir(path)),
    }
}

/// What the target-ensuring step must create, decided from what the disk
/// shows of the mount source and target.
#[derive(Clone, Copy, Debug, PartialEq, Eq, Structural)]
pub enum TargetStep {
    /// The source is a regular file: the target must be an empty file.
    CreateFile,
    /// The source is not a regular file and the target is missing: the
    /// target must be a directory.
    CreateDirs,
    /// The source is not a regular file and the target already exists:
    /// nothing to create.
    AlreadyThere,
}

/// The target-ensuring rule: an empty file for a regular-file source, a
/// directory for a missing target, nothing otherwise.
pub fn target_step(src_is_file: bool, target_exists: bool) -> (r: TargetStep)
    ensures
        src_is_file ==> r is CreateFile,
        (!src_is_file && !target_exists) ==> r is CreateDirs,
        (!src_is_file && target_exists) ==> r is AlreadyThere,
{
    if src_is_file {
        TargetStep::CreateFile
    } else if !target_exists {
        TargetStep::CreateDirs
    } else {
        TargetStep::AlreadyThere
    }
}

/// Make sure the mount target exists: the parent directories always, then
/// whatever `target_step` decides from the disk.
fn ensure_target(src: &str, target: &str) -> (r: Result<(), i32>) {
    match last_slash(target) {
        Some(i) => {
            if i > 0 {
                let parent = target.substring_char(0, i);
                match make_dirs_all(parent) {
                    Ok(()) => {},
                    Err(errno) => {
                        return Err(errno);
                    },
                }
            }
        },
        None => {},
    }
    match target_step(sys::path_is_file(src), sys::path_exists(target)) {
        TargetStep::CreateFile => sys::create_empty_file(target),
        TargetStep::CreateDirs => make_dirs_all(target),
        TargetStep::AlreadyThere => Ok(()),
    }
}

/// Perform the plan's steps one after the other, in plan order; the first
/// failure aborts with a filesystem error and no later step runs, so a
/// failed mount can never be followed by the root switch. An empty plan
/// does nothing and always succeeds.
pub fn apply_fs_plan(plan: &Vec<FsAction>) -> (r: Result<(), JailError>)
    ensures
        r matches Err(e) ==> e is Filesystem,
        plan@.len() == 0 ==> r is Ok,
{
    let n = plan.len();
    let mut i: usize = 0;
    while i < n
        invariant
            n == plan.len(),
            i <= n,
        decreases n - i,
    {
        let step: Result<(), i32> = match &plan[i] {
            FsAction::Dir(p) => make_dirs_all(p.as_str()),
            FsAction::EnsureTarget { src, target } => ensure_target(src.as_str(), target.as_str()),
            FsAction::Mount { src, target, fstype, bits } => {
                let ft: Option<&str> = match fstype {
                    Some(t) => Some(t.as_str()),
                    None => None,
                };
                sys::mount_bits(src.as_str(), target.as_str(), ft, *bits)
            },
            FsAction::SwitchRoot(p) => sys::chroot_into(p.as_str()),
            FsAction::ResetCwd => sys::chdir_into("/"),
        };
        match step {
            Ok(()) => {},
            Err(errno) => {
                return Err(JailError::Filesystem(errno));
            },
        }
        i += 1;
    }
    Ok(())
}

/// Build the confined filesystem under `root` and switch into it: skeleton,
/// then every mount, then the root switch, in exactly that order.
pub fn setup_filesystem(root: &str, mounts: &Vec<MountConfig>) -> (r: Result<(), JailError>)
    ensures
        r matches Err(e) ==> e is Filesystem,
{
    let plan = fs_plan(root, mounts);
    apply_fs_plan(&plan)
}

} // verus!
