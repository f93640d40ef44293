use vstd::prelude::*;
use vstd::string::StrSliceExecFns;
use crate::errors::JailError;
use crate::sys;
use crate::text::{spec_dec, u64_to_dec};

verus! {

/// Errno value reported when a mapping write was cut short.
pub const SHORT_WRITE_ERRNO: i32 = 5;

/// One pending write to a pseudo-file of the current process.
#[derive(Debug, Clone)]
pub struct ProcWrite {
    pub path: String,
    pub contents: String,
}

/// Mathematical value of one pending write.
#[verifier::ext_equal]
pub ghost struct ProcWriteV {
    pub path: Seq<char>,
    pub contents: Seq<char>,
}

impl View for ProcWrite {
    type V = ProcWriteV;

    open spec fn view(&self) -> ProcWriteV {
        ProcWriteV { path: self.path@, contents: self.contents@ }
    }
}

/// The single-entry identity map line `0 <outer> 1`: sandbox id 0 stands
/// for the invoking (outer) id.
pub open spec fn spec_id_line(outer: u32) -> Seq<char> {
    "0 "@ + spec_dec(outer as nat) + " 1"@
}

/// The pseudo-file `/proc/<pid>/<leaf>` scoped to this process.
pub open spec fn spec_proc_path(pid: i32, leaf: Seq<char>) -> Seq<char>
    recommends
        pid >= 1,
{
    "/proc/"@ + spec_dec(pid as nat) + leaf
}

/// The three identity-mapping writes, in the one order the kernel accepts:
/// the UID map first, then the setgroups denial, then the GID map.
pub open spec fn spec_map_writes(pid: i32, uid: u32, gid: u32) -> Seq<ProcWriteV> {
    seq![
        ProcWriteV { path: spec_proc_path(pid, "/uid_map"@), contents: spec_id_line(uid) },
        ProcWriteV { path: spec_proc_path(pid, "/setgroups"@), contents: "deny"@ },
        ProcWriteV { path: spec_proc_path(pid, "/gid_map"@), contents: spec_id_line(gid) },
    ]
}

/// Whichever identities are handed in, the plan always writes the UID map
/// first, denies setgroups second, and writes the GID map last; nothing
/// else is written.
pub proof fn lemma_identity_write_order(pid: i32, uid: u32, gid: u32)
    ensures
        spec_map_writes(pid, uid, gid).len() == 3,
        spec_map_writes(pid, uid, gid)[0].path == spec_proc_path(pid, "/uid_map"@),
        spec_map_writes(pid, uid, gid)[0].contents == spec_id_line(uid),
        spec_map_writes(pid, uid, gid)[1].path == spec_proc_path(pid, "/setgroups"@),
        spec_map_writes(pid, uid, gid)[1].contents == "deny"@,
        spec_map_writes(pid, uid, gid)[2].path == spec_proc_path(pid, "/gid_map"@),
        spec_map_writes(pid, uid, gid)[2].contents == spec_id_line(gid),
{
}

fn id_line(outer: u32) -> (r: String)
    ensures
        r@ == spec_id_line(outer),
{
    let mut s = String::from_str("0 ");
    let dec = u64_to_dec(outer as u64);
    s.append(dec.as_str());
    s.append(" 1");
    s
}

fn proc_path(pid: i32, leaf: &str) -> (r: String)
    requires
        pid >= 1,
    ensures
        r@ == spec_proc_path(pid, leaf@),
{
    let mut s = String::from_str("/proc/");
    let dec = u64_to_dec(pid as u64);
    s.append(dec.as_str());
    s.append(leaf);
    s
}

/// Build the ordered identity-mapping writes for process `pid`, mapping
/// sandbox id 0 to the outer ids `uid` and `gid`.
pub fn identity_map_writes(pid: i32, uid: u32, gid: u32) -> (r: Vec<ProcWrite>)
    requires
        pid >= 1,
    ensures
        r@.map_values(|w: ProcWrite| w@) == spec_map_writes(pid, uid, gid),
{
    let mut r: Vec<ProcWrite> = Vec::new();
    r.push(ProcWrite { path: proc_path(pid, "/uid_map"), contents: id_line(uid) });
    r.push(ProcWrite { path: proc_path(pid, "/setgroups"), contents: String::from_str("deny") });
    r.push(ProcWrite { path: proc_path(pid, "/gid_map"), contents: id_line(gid) });
    proof {
        assert(r@.map_values(|w: ProcWrite| w@) =~= spec_map_writes(pid, uid, gid));
    }
    r
}

/// Decide one write's outcome from what the kernel returned of `expected`
/// bytes handed to it: only a full write counts; a short write or an error
/// is a mapping fault carrying its cause.
pub fn write_outcome(result: Result<usize, i32>, expected: usize) -> (r: Result<(), JailError>)
    ensures
        (result matches Ok(n) && n == expected) ==> r is Ok,
        (result matches Ok(n) && n != expected) ==> r == Err::<(), JailError>(
            JailError::Mapping(SHORT_WRITE_ERRNO),
        ),
        result matches Err(e) ==> r == Err::<(), JailError>(JailError::Mapping(e)),
        r matches Err(e) ==> e is Mapping,
{
    match result {
        Ok(written) => {
            if written == expected {
                Ok(())
            } else {
                Err(JailError::Mapping(SHORT_WRITE_ERRNO))
            }
        },
        Err(errno) => Err(JailError::Mapping(errno)),
    }
}

/// Perform the pending writes one after the other, in the order of the
/// plan; the first failure (or short write) aborts with a mapping error
/// and nothing further is written. An empty plan writes nothing and always
/// succeeds.
pub fn apply_proc_writes(writes: &Vec<ProcWrite>) -> (r: Result<(), JailError>)
    ensures
        r matches Err(e) ==> e is Mapping,
        writes@.len() == 0 ==> r is Ok,
{
    let n = writes.len();
    let mut i: usize = 0;
    while i < n
        invariant
            n == writes.len(),
            i <= n,
        decreases n - i,
    {
        let bytes = writes[i].contents.as_str().as_bytes_vec();
        let result = sys::write_file_once(writes[i].path.as_str(), bytes.as_slice());
        match write_outcome(result, bytes.len()) {
            Ok(()) => {},
            Err(e) => {
                return Err(e);
            },
        }
        i += 1;
    }
    Ok(())
}

/// Establish the identity mapping for the calling process: map sandbox
/// UID/GID 0 to the caller's own outer identity, denying setgroups between
/// the two map writes as the kernel demands.
pub fn apply_identity_mapping() -> (r: Result<(), JailError>)
    ensures
        r matches Err(e) ==> e is Mapping,
{
    let pid = sys::getpid_raw();
    let uid = sys::getuid_raw();
    let gid = sys::getgid_raw();
    let writes = identity_map_writes(pid, uid, gid);
    apply_proc_writes(&writes)
}

} // verus!
