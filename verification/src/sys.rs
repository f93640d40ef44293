use vstd::prelude::*;
use crate::supervise::WaitOutcome;

verus! {

// Every function here stands for one kernel facility reached through the
// `nix` crate. Their results depend on the state of the machine, so the
// contracts state only what the syscall's documentation promises of every
// outcome; verified callers take the results as arguments and decide from
// them.

/// File-type mask of a `st_mode` value.
pub const MODE_TYPE_MASK: u32 = 0xF000;

/// Directory bit pattern of a `st_mode` value.
pub const MODE_DIR: u32 = 0x4000;

/// Relies on nix::sys::stat::stat: returns the `st_mode` of the path, or
/// nothing when the path cannot be stat'ed.
#[verifier::external_body]
fn stat_mode(path: &str) -> (r: Option<u32>)
{
    match nix::sys::stat::stat(path) {
        Ok(st) => Some(st.st_mode as u32),
        Err(_) => None,
    }
}

/// Does `path` name an existing directory right now?
pub fn path_is_dir(path: &str) -> (r: bool) {
    match stat_mode(path) {
        Some(mode) => mode & MODE_TYPE_MASK == MODE_DIR,
        None => false,
    }
}

/// Does `path` name an existing regular file right now?
pub fn path_is_file(path: &str) -> (r: bool) {
    match stat_mode(path) {
        Some(mode) => mode & MODE_TYPE_MASK == 0x8000,
        None => false,
    }
}

/// Does `path` name anything at all right now?
pub fn path_exists(path: &str) -> (r: bool) {
    stat_mode(path).is_some()
}

/// Relies on nix::sched::unshare: asks the kernel for new namespaces of the
/// kinds in `bits` (Linux clone-flag bit values) for the calling process,
/// atomically; on failure returns the errno value and no membership changed.
#[verifier::external_body]
pub(crate) fn unshare_bits(bits: u32) -> (r: Result<(), i32>)
{
    match nix::sched::unshare(nix::sched::CloneFlags::from_bits_truncate(bits as i32)) {
        Ok(()) => Ok(()),
        Err(e) => Err(e as i32),
    }
}

/// Relies on nix::unistd::sethostname: sets the hostname in the current UTS
/// namespace.
#[verifier::external_body]
pub(crate) fn sethostname_str(name: &str) -> (r: Result<(), i32>)
{
    match nix::unistd::sethostname(name) {
        Ok(()) => Ok(()),
        Err(e) => Err(e as i32),
    }
}

/// Relies on nix::fcntl::open and nix::unistd::write: opens `path`
/// write-only and hands the whole buffer to a single write(2), whose result
/// is the number of bytes the kernel accepted, never more than the buffer
/// holds; the descriptor is closed again before returning.
#[verifier::external_body]
pub(crate) fn write_file_once(path: &str, bytes: &[u8]) -> (r: Result<usize, i32>)
    ensures
        r matches Ok(n) ==> n <= bytes@.len(),
{
    match nix::fcntl::open(path, nix::fcntl::OFlag::O_WRONLY, nix::sys::stat::Mode::empty()) {
        Ok(fd) => match nix::unistd::write(&fd, bytes) {
            Ok(n) => Ok(n),
            Err(e) => Err(e as i32),
        },
        Err(e) => Err(e as i32),
    }
}

/// Relies on nix::unistd::mkdir: creates one directory (mode 0755).
#[verifier::external_body]
pub(crate) fn mkdir_once(path: &str) -> (r: Result<(), i32>)
{
    match nix::unistd::mkdir(path, nix::sys::stat::Mode::from_bits_truncate(0o755)) {
        Ok(()) => Ok(()),
        Err(e) => Err(e as i32),
    }
}

/// Relies on nix::fcntl::open with O_CREAT: creates (or truncates) an empty
/// regular file at `path`; the descriptor is closed again before returning.
#[verifier::external_body]
pub(crate) fn create_empty_file(path: &str) -> (r: Result<(), i32>)
{
    let flags = nix::fcntl::OFlag::O_WRONLY
        .union(nix::fcntl::OFlag::O_CREAT)
        .union(nix::fcntl::OFlag::O_TRUNC);
    match nix::fcntl::open(path, flags, nix::sys::stat::Mode::from_bits_truncate(0o644)) {
        Ok(_fd) => Ok(()),
        Err(e) => Err(e as i32),
    }
}

/// Relies on nix::mount::mount: installs one mount at `target` with the
/// given Linux mount-flag bits (MS_BIND, MS_RDONLY, ...).
#[verifier::external_body]
pub(crate) fn mount_bits(
    src: &str,
    target: &str,
    fstype: Option<&str>,
    bits: u64,
) -> (r: Result<(), i32>)
{
    match nix::mount::mount(
        Some(src),
        target,
        fstype,
        nix::mount::MsFlags::from_bits_truncate(bits),
        None::<&str>,
    ) {
        Ok(()) => Ok(()),
        Err(e) => Err(e as i32),
    }
}

/// Relies on nix::unistd::chroot: switches the process root to `path`.
#[verifier::external_body]
pub(crate) fn chroot_into(path: &str) -> (r: Result<(), i32>)
{
    match nix::unistd::chroot(path) {
        Ok(()) => Ok(()),
        Err(e) => Err(e as i32),
    }
}

/// Relies on nix::unistd::chdir: changes the working directory to `path`.
#[verifier::external_body]
pub(crate) fn chdir_into(path: &str) -> (r: Result<(), i32>)
{
    match nix::unistd::chdir(path) {
        Ok(()) => Ok(()),
        Err(e) => Err(e as i32),
    }
}

/// Relies on nix::unistd::setgid: sets the process group identity.
#[verifier::external_body]
pub(crate) fn setgid_raw(gid: u32) -> (r: Result<(), i32>)
{
    match nix::unistd::setgid(nix::unistd::Gid::from_raw(gid)) {
        Ok(()) => Ok(()),
        Err(e) => Err(e as i32),
    }
}

/// Relies on nix::unistd::setuid: sets the process user identity.
#[verifier::external_body]
pub(crate) fn setuid_raw(uid: u32) -> (r: Result<(), i32>)
{
    match nix::unistd::setuid(nix::unistd::Uid::from_raw(uid)) {
        Ok(()) => Ok(()),
        Err(e) => Err(e as i32),
    }
}

/// Relies on nix::sys::resource::setrlimit with RLIMIT_AS: sets the
/// address-space ceiling, soft and hard.
#[verifier::external_body]
pub(crate) fn set_rlimit_as(soft: u64, hard: u64) -> (r: Result<(), i32>)
{
    match nix::sys::resource::setrlimit(nix::sys::resource::Resource::RLIMIT_AS, soft, hard) {
        Ok(()) => Ok(()),
        Err(e) => Err(e as i32),
    }
}

/// Relies on nix::sys::resource::setrlimit with RLIMIT_CPU: sets the
/// CPU-seconds ceiling, soft and hard.
#[verifier::external_body]
pub(crate) fn set_rlimit_cpu(soft: u64, hard: u64) -> (r: Result<(), i32>)
{
    match nix::sys::resource::setrlimit(nix::sys::resource::Resource::RLIMIT_CPU, soft, hard) {
        Ok(()) => Ok(()),
        Err(e) => Err(e as i32),
    }
}

/// Relies on nix::sys::resource::setrlimit with RLIMIT_NOFILE: sets the
/// open-descriptor ceiling, soft and hard.
#[verifier::external_body]
pub(crate) fn set_rlimit_nofile(soft: u64, hard: u64) -> (r: Result<(), i32>)
{
    match nix::sys::resource::setrlimit(nix::sys::resource::Resource::RLIMIT_NOFILE, soft, hard) {
        Ok(()) => Ok(()),
        Err(e) => Err(e as i32),
    }
}

/// Relies on nix::unistd::getpid: always succeeds, and a process id is a
/// positive number.
#[verifier::external_body]
pub(crate) fn getpid_raw() -> (r: i32)
    ensures
        r >= 1,
{
    nix::unistd::getpid().as_raw()
}

/// Relies on nix::unistd::getuid: always succeeds.
#[verifier::external_body]
pub(crate) fn getuid_raw() -> (r: u32)
{
    nix::unistd::getuid().as_raw()
}

/// Relies on nix::unistd::getgid: always succeeds.
#[verifier::external_body]
pub(crate) fn getgid_raw() -> (r: u32)
{
    nix::unistd::getgid().as_raw()
}

/// Relies on nix::sys::wait::waitpid without options: blocks until the
/// child changes state, and tells a normal exit (with its code) from a
/// death by signal (with the signal number).
#[verifier::external_body]
pub(crate) fn wait_child(pid: i32) -> (r: Result<WaitOutcome, i32>)
{
    match nix::sys::wait::waitpid(nix::unistd::Pid::from_raw(pid), None) {
        Ok(nix::sys::wait::WaitStatus::Exited(_, code)) => Ok(WaitOutcome::Exited(code)),
        Ok(nix::sys::wait::WaitStatus::Signaled(_, sig, _)) => Ok(WaitOutcome::Signaled(sig as i32)),
        Ok(_) => Ok(WaitOutcome::Other),
        Err(e) => Err(e as i32),
    }
}

/// Relies on nix::sys::wait::waitpid with WNOHANG: returns at once; `None`
/// means the child still runs.
#[verifier::external_body]
pub(crate) fn try_wait_child(pid: i32) -> (r: Result<Option<WaitOutcome>, i32>)
{
    match nix::sys::wait::waitpid(
        nix::unistd::Pid::from_raw(pid),
        Some(nix::sys::wait::WaitPidFlag::WNOHANG),
    ) {
        Ok(nix::sys::wait::WaitStatus::StillAlive) => Ok(None),
        Ok(nix::sys::wait::WaitStatus::Exited(_, code)) => Ok(Some(WaitOutcome::Exited(code))),
        Ok(nix::sys::wait::WaitStatus::Signaled(_, sig, _)) => {
            Ok(Some(WaitOutcome::Signaled(sig as i32)))
        },
        Ok(_) => Ok(Some(WaitOutcome::Other)),
        Err(e) => Err(e as i32),
    }
}

/// Relies on nix::sys::signal::kill with SIGKILL: forcefully terminates the
/// process.
#[verifier::external_body]
pub(crate) fn kill_hard(pid: i32) -> (r: Result<(), i32>)
{
    match nix::sys::signal::kill(nix::unistd::Pid::from_raw(pid), nix::sys::signal::Signal::SIGKILL)
    {
        Ok(()) => Ok(()),
        Err(e) => Err(e as i32),
    }
}

/// Relies on nix::unistd::sleep: suspends the caller for up to `secs`
/// seconds and returns the seconds left unslept.
#[verifier::external_body]
pub(crate) fn sleep_secs(secs: u32) -> (r: u32)
{
    nix::unistd::sleep(secs)
}

} // verus!
