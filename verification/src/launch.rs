use vstd::prelude::*;
use vstd::string::StrSliceExecFns;
use crate::config::JailConfig;
use crate::errors::JailError;

verus! {

/// Errno value reported when a string cannot be encoded for exec.
pub const ENCODING_ERRNO: i32 = 22;

/// The ready-to-exec process image: the target binary, its argument list,
/// and the minimal fixed environment — nothing of the invoker's
/// environment leaks into it.
#[derive(Debug, Clone)]
pub struct ExecImage {
    pub bin: String,
    pub args: Vec<String>,
    pub env: Vec<String>,
}

pub open spec fn spec_has_nul(s: Seq<char>) -> bool {
    exists|i: int| 0 <= i < s.len() && s[i] == '\0'
}

/// Does the string hold an interior NUL, which no exec string may?
pub fn has_nul(s: &str) -> (r: bool)
    ensures
        r == spec_has_nul(s@),
{
    let n = s.unicode_len();
    let mut i: usize = 0;
    while i < n
        invariant
            n == s@.len(),
            i <= n,
            forall|k: int| 0 <= k < i ==> s@[k] != '\0',
        decreases n - i,
    {
        if s.get_char(i) == '\0' {
            return true;
        }
        i += 1;
    }
    false
}

/// No argument string of the configuration holds a NUL.
pub open spec fn spec_args_encodable(args: Seq<Seq<char>>) -> bool {
    forall|i: int| 0 <= i < args.len() ==> !spec_has_nul(#[trigger] args[i])
}

/// Build the process image for the target program: its binary, its
/// arguments, and exactly the three fixed environment entries (a sanitized
/// PATH, a jail-scoped home, a jail-scoped user name). Succeeds if and
/// only if the binary path and every argument are free of interior NULs,
/// the one thing the exec encoding cannot carry.
pub fn prepare_exec(c: &JailConfig) -> (r: Result<ExecImage, JailError>)
    ensures
        r is Ok <==> (!spec_has_nul(c@.exec_bin) && spec_args_encodable(c@.exec_args)),
        r matches Ok(img) ==> {
            &&& img.bin@ == c@.exec_bin
            &&& img.args@.map_values(|a: String| a@) == c@.exec_args
            &&& img.env@.len() == 3
            &&& img.env@[0]@ == "PATH=/bin:/usr/bin:/sbin:/usr/sbin"@
            &&& img.env@[1]@ == "HOME=/"@
            &&& img.env@[2]@ == "USER=jail"@
        },
        r matches Err(e) ==> e == JailError::Exec(ENCODING_ERRNO),
{
    if has_nul(c.exec_bin.as_str()) {
        return Err(JailError::Exec(ENCODING_ERRNO));
    }
    let n = c.exec_args.len();
    let mut args: Vec<String> = Vec::new();
    let mut i: usize = 0;
    while i < n
        invariant
            n == c.exec_args.len(),
            i <= n,
            args@.len() == i,
            forall|k: int| 0 <= k < i ==> !spec_has_nul(#[trigger] c@.exec_args[k]),
            forall|k: int| 0 <= k < i ==> #[trigger] args@[k]@ == c@.exec_args[k],
        decreases n - i,
    {
        if has_nul(c.exec_args[i].as_str()) {
            assert(spec_has_nul(c@.exec_args[i as int]));
            return Err(JailError::Exec(ENCODING_ERRNO));
        }
        args.push(c.exec_args[i].clone());
        i += 1;
    }
    let mut env: Vec<String> = Vec::new();
    env.push(String::from_str("PATH=/bin:/usr/bin:/sbin:/usr/sbin"));
    env.push(String::from_str("HOME=/"));
    env.push(String::from_str("USER=jail"));
    let img = ExecImage { bin: c.exec_bin.clone(), args, env };
    proof {
        assert(img.args@.map_values(|a: String| a@) =~= c@.exec_args);
    }
    Ok(img)
}

} // verus!
