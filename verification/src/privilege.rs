use vstd::prelude::*;
use crate::config::{ConfigV, JailConfig};
use crate::errors::JailError;
use crate::sys;

verus! {

/// One privilege-drop step, in the order the steps are performed.
#[derive(Clone, Copy, Debug, PartialEq, Eq, Structural)]
pub enum PrivAction {
    /// Set the process group identity.
    SetGid(u32),
    /// Set the process user identity.
    SetUid(u32),
    /// Set the address-space ceiling: soft and hard limit.
    LimitAs(u64, u64),
    /// Set the CPU-seconds ceiling: soft and hard limit.
    LimitCpu(u64, u64),
    /// Set the open-descriptor ceiling: soft and hard limit.
    LimitNofile(u64, u64),
}

/// The ordered privilege-drop plan of a configuration: the group identity
/// first (while the process may still change it), then the user identity,
/// then each configured ceiling with its soft and hard limit both set to
/// the configured value, so the jailed program cannot raise them again.
pub open spec fn spec_priv_plan(c: ConfigV) -> Seq<PrivAction> {
    (match c.gid {
        Some(g) => seq![PrivAction::SetGid(g)],
        None => Seq::empty(),
    }) + (match c.uid {
        Some(u) => seq![PrivAction::SetUid(u)],
        None => Seq::empty(),
    }) + (match c.rlimit_as {
        Some(n) => seq![PrivAction::LimitAs(n, n)],
        None => Seq::empty(),
    }) + (match c.rlimit_cpu {
        Some(n) => seq![PrivAction::LimitCpu(n, n)],
        None => Seq::empty(),
    }) + (match c.rlimit_nofile {
        Some(n) => seq![PrivAction::LimitNofile(n, n)],
        None => Seq::empty(),
    })
}

/// Build the ordered privilege-drop plan; see `spec_priv_plan`.
pub fn priv_plan(c: &JailConfig) -> (r: Vec<PrivAction>)
    ensures
        r@ == spec_priv_plan(c@),
{
    let mut r: Vec<PrivAction> = Vec::new();
    if let Some(g) = c.gid {
        r.push(PrivAction::SetGid(g));
    }
    if let Some(u) = c.uid {
        r.push(PrivAction::SetUid(u));
    }
    if let Some(n) = c.rlimit_as {
        r.push(PrivAction::LimitAs(n, n));
    }
    if let Some(n) = c.rlimit_cpu {
        r.push(PrivAction::LimitCpu(n, n));
    }
    if let Some(n) = c.rlimit_nofile {
        r.push(PrivAction::LimitNofile(n, n));
    }
    proof {
        assert(r@ =~= spec_priv_plan(c@));
    }
    r
}

/// With an address-space ceiling `n` configured, the plan sets exactly
/// `n` as both the soft and the hard address-space limit.
pub proof fn lemma_address_space_ceiling(c: ConfigV, n: u64)
    requires
        c.rlimit_as == Some(n),
    ensures
        spec_priv_plan(c).contains(PrivAction::LimitAs(n, n)),
        forall|s: u64, h: u64| #[trigger] spec_priv_plan(c).contains(PrivAction::LimitAs(s, h))
            ==> s == n && h == n,
{
    let idx = (if c.gid is Some {
        1int
    } else {
        0
    }) + (if c.uid is Some {
        1int
    } else {
        0
    });
    assert(spec_priv_plan(c)[idx] == PrivAction::LimitAs(n, n));
    assert(spec_priv_plan(c).contains(PrivAction::LimitAs(n, n)));
    assert forall|s: u64, h: u64| #[trigger] spec_priv_plan(c).contains(
        PrivAction::LimitAs(s, h),
    ) implies s == n && h == n by {
        let k = choose|k: int| 0 <= k < spec_priv_plan(c).len() && spec_priv_plan(c)[k]
            == PrivAction::LimitAs(s, h);
        assert(spec_priv_plan(c)[k] == PrivAction::LimitAs(s, h));
    }
}

/// The group identity is always dropped before the user identity: when
/// both are configured, the group step stands first and the user step
/// second; a user step is never preceded by any step but the group step.
pub proof fn lemma_gid_before_uid(c: ConfigV)
    ensures
        c.gid is Some ==> spec_priv_plan(c)[0] == PrivAction::SetGid(c.gid->0),
        c.gid is Some && c.uid is Some ==> spec_priv_plan(c)[1] == PrivAction::SetUid(c.uid->0),
        c.gid is None && c.uid is Some ==> spec_priv_plan(c)[0] == PrivAction::SetUid(c.uid->0),
        forall|i: int, j: int|
            0 <= i < spec_priv_plan(c).len() && 0 <= j < spec_priv_plan(c).len()
                && (#[trigger] spec_priv_plan(c)[i]) is SetUid
                && (#[trigger] spec_priv_plan(c)[j]) is SetGid ==> j < i,
{
}

/// Perform the plan's steps one after the other, in plan order; the first
/// failure aborts with a privilege error and no later step (in particular
/// no program launch) may run. An empty plan asks for nothing and always
/// succeeds.
pub fn apply_priv_plan(plan: &Vec<PrivAction>) -> (r: Result<(), JailError>)
    ensures
        r matches Err(e) ==> e is Privilege,
        plan@.len() == 0 ==> r is Ok,
{
    let n = plan.len();
    let mut i: usize = 0;
    while i < n
        invariant
            n == plan.len(),
            i <= n,
        decreases n - i,
    {
        let step: Result<(), i32> = match plan[i] {
            PrivAction::SetGid(g) => sys::setgid_raw(g),
            PrivAction::SetUid(u) => sys::setuid_raw(u),
            PrivAction::LimitAs(soft, hard) => sys::set_rlimit_as(soft, hard),
            PrivAction::LimitCpu(soft, hard) => sys::set_rlimit_cpu(soft, hard),
            PrivAction::LimitNofile(soft, hard) => sys::set_rlimit_nofile(soft, hard),
        };
        match step {
            Ok(()) => {},
            Err(errno) => {
                return Err(JailError::Privilege(errno));
            },
        }
        i += 1;
    }
    Ok(())
}

/// Drop to the configured identity and enforce the configured ceilings,
/// group before user, every ceiling with soft == hard. With no identity
/// and no ceiling configured there is nothing to do and the drop always
/// succeeds.
pub fn apply_privileges(c: &JailConfig) -> (r: Result<(), JailError>)
    ensures
        r matches Err(e) ==> e is Privilege,
        spec_priv_plan(c@).len() == 0 ==> r is Ok,
        (c@.gid is None && c@.uid is None && c@.rlimit_as is None && c@.rlimit_cpu is None
            && c@.rlimit_nofile is None) ==> r is Ok,
{
    let plan = priv_plan(c);
    apply_priv_plan(&plan)
}

} // verus!
