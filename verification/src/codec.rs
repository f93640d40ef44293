use vstd::prelude::*;
use crate::config::{view_opt_string, ConfigV, JailConfig, MountConfig, MountV};
use crate::text::{push_char, spec_dec, spec_digit_char, u64_to_dec};
use vstd::string::StrSliceExecFns;

verus! {

// The canonical text encoding of a configuration: a deterministic,
// self-delimiting form in which every value is written exactly one way.
// Strings are length-prefixed (`S3:abc`), numbers are decimal digits closed
// by `:`, booleans are `T`/`F`, optional values are `N` or `J` followed by
// the value, lists carry their count (`L2:...`), mounts open with `M` and
// a whole configuration with `C`. Parsing consumes exactly what printing
// produced, which is what the round-trip law below states.

pub const U64_BOUND: u64 = 0xFFFF_FFFF_FFFF_FFFF;

pub open spec fn spec_is_digit(c: char) -> bool {
    48 <= c as u32 && c as u32 <= 57
}

pub open spec fn spec_digit_val(c: char) -> int {
    c as u32 - 48
}

// ---------------------------------------------------------------- printing

pub open spec fn spec_ser_num(n: nat) -> Seq<char> {
    spec_dec(n) + seq![':']
}

pub open spec fn spec_ser_string(s: Seq<char>) -> Seq<char> {
    seq!['S'] + spec_ser_num(s.len()) + s
}

pub open spec fn spec_ser_bool(b: bool) -> Seq<char> {
    if b {
        seq!['T']
    } else {
        seq!['F']
    }
}

pub open spec fn spec_ser_opt_string(o: Option<Seq<char>>) -> Seq<char> {
    match o {
        Option::None => seq!['N'],
        Option::Some(s) => seq!['J'] + spec_ser_string(s),
    }
}

pub open spec fn spec_ser_opt_u64(o: Option<u64>) -> Seq<char> {
    match o {
        Option::None => seq!['N'],
        Option::Some(n) => seq!['J'] + spec_ser_num(n as nat),
    }
}

pub open spec fn spec_ser_opt_u32(o: Option<u32>) -> Seq<char> {
    match o {
        Option::None => seq!['N'],
        Option::Some(n) => seq!['J'] + spec_ser_num(n as nat),
    }
}

pub open spec fn spec_ser_str_items(xs: Seq<Seq<char>>) -> Seq<char>
    decreases xs.len(),
{
    if xs.len() == 0 {
        Seq::empty()
    } else {
        spec_ser_string(xs[0]) + spec_ser_str_items(xs.skip(1))
    }
}

pub open spec fn spec_ser_str_list(xs: Seq<Seq<char>>) -> Seq<char> {
    seq!['L'] + spec_ser_num(xs.len()) + spec_ser_str_items(xs)
}

pub open spec fn spec_ser_mount(m: MountV) -> Seq<char> {
    seq!['M'] + spec_ser_string(m.src) + spec_ser_string(m.dst) + spec_ser_opt_string(m.fstype)
        + spec_ser_bool(m.is_bind) + spec_ser_bool(m.rw)
}

pub open spec fn spec_ser_mount_items(ms: Seq<MountV>) -> Seq<char>
    decreases ms.len(),
{
    if ms.len() == 0 {
        Seq::empty()
    } else {
        spec_ser_mount(ms[0]) + spec_ser_mount_items(ms.skip(1))
    }
}

pub open spec fn spec_ser_mount_list(ms: Seq<MountV>) -> Seq<char> {
    seq!['L'] + spec_ser_num(ms.len()) + spec_ser_mount_items(ms)
}

/// The whole configuration, every field in declaration order.
pub open spec fn spec_ser_config(c: ConfigV) -> Seq<char> {
    seq!['C'] + spec_ser_string(c.name) + spec_ser_opt_string(c.hostname) + spec_ser_opt_string(
        c.chroot_dir,
    ) + spec_ser_string(c.exec_bin) + spec_ser_str_list(c.exec_args) + spec_ser_bool(c.clone_newpid)
        + spec_ser_bool(c.clone_newnet) + spec_ser_bool(c.clone_newns) + spec_ser_bool(
        c.clone_newuts,
    ) + spec_ser_bool(c.clone_newipc) + spec_ser_bool(c.clone_newuser) + spec_ser_opt_u64(
        c.rlimit_as,
    ) + spec_ser_opt_u64(c.rlimit_cpu) + spec_ser_opt_u64(c.rlimit_nofile) + spec_ser_mount_list(
        c.mounts,
    ) + spec_ser_opt_u32(c.uid) + spec_ser_opt_u32(c.gid) + spec_ser_opt_u64(c.time_limit)
}

// ----------------------------------------------------------------- parsing

pub open spec fn spec_digit_prefix_len(s: Seq<char>) -> nat
    decreases s.len(),
{
    if s.len() == 0 || !spec_is_digit(s[0]) {
        0
    } else {
        1 + spec_digit_prefix_len(s.skip(1))
    }
}

pub open spec fn spec_dec_val(s: Seq<char>) -> int
    decreases s.len(),
{
    if s.len() == 0 {
        0
    } else {
        spec_dec_val(s.drop_last()) * 10 + spec_digit_val(s.last())
    }
}

/// A decimal number closed by `:`; refused when it does not fit in `u64`.
pub open spec fn spec_parse_num(s: Seq<char>) -> Option<(u64, Seq<char>)> {
    let k = spec_digit_prefix_len(s) as int;
    if k == 0 {
        Option::None
    } else if k < s.len() && s[k] == ':' && spec_dec_val(s.take(k)) <= U64_BOUND {
        Option::Some((spec_dec_val(s.take(k)) as u64, s.skip(k + 1)))
    } else {
        Option::None
    }
}

pub open spec fn spec_parse_u32(s: Seq<char>) -> Option<(u32, Seq<char>)> {
    match spec_parse_num(s) {
        Option::Some((v, r)) => if v <= 0xFFFF_FFFFu64 {
            Option::Some((v as u32, r))
        } else {
            Option::None
        },
        Option::None => Option::None,
    }
}

pub open spec fn spec_parse_string(s: Seq<char>) -> Option<(Seq<char>, Seq<char>)> {
    if s.len() >= 1 && s[0] == 'S' {
        match spec_parse_num(s.skip(1)) {
            Option::Some((len, r)) => if len <= r.len() {
                Option::Some((r.take(len as int), r.skip(len as int)))
            } else {
                Option::None
            },
            Option::None => Option::None,
        }
    } else {
        Option::None
    }
}

pub open spec fn spec_parse_bool(s: Seq<char>) -> Option<(bool, Seq<char>)> {
    if s.len() >= 1 && s[0] == 'T' {
        Option::Some((true, s.skip(1)))
    } else if s.len() >= 1 && s[0] == 'F' {
        Option::Some((false, s.skip(1)))
    } else {
        Option::None
    }
}

pub open spec fn spec_parse_opt_string(s: Seq<char>) -> Option<(Option<Seq<char>>, Seq<char>)> {
    if s.len() >= 1 && s[0] == 'N' {
        Option::Some((Option::None, s.skip(1)))
    } else if s.len() >= 1 && s[0] == 'J' {
        match spec_parse_string(s.skip(1)) {
            Option::Some((v, r)) => Option::Some((Option::Some(v), r)),
            Option::None => Option::None,
        }
    } else {
        Option::None
    }
}

pub open spec fn spec_parse_opt_u64(s: Seq<char>) -> Option<(Option<u64>, Seq<char>)> {
    if s.len() >= 1 && s[0] == 'N' {
        Option::Some((Option::None, s.skip(1)))
    } else if s.len() >= 1 && s[0] == 'J' {
        match spec_parse_num(s.skip(1)) {
            Option::Some((v, r)) => Option::Some((Option::Some(v), r)),
            Option::None => Option::None,
        }
    } else {
        Option::None
    }
}

pub open spec fn spec_parse_opt_u32(s: Seq<char>) -> Option<(Option<u32>, Seq<char>)> {
    if s.len() >= 1 && s[0] == 'N' {
        Option::Some((Option::None, s.skip(1)))
    } else if s.len() >= 1 && s[0] == 'J' {
        match spec_parse_u32(s.skip(1)) {
            Option::Some((v, r)) => Option::Some((Option::Some(v), r)),
            Option::None => Option::None,
        }
    } else {
        Option::None
    }
}

pub open spec fn spec_parse_str_items(s: Seq<char>, count: nat) -> Option<
    (Seq<Seq<char>>, Seq<char>),
>
    decreases count,
{
    if count == 0 {
        Option::Some((Seq::empty(), s))
    } else {
        match spec_parse_string(s) {
            Option::Some((v, r)) => match spec_parse_str_items(r, (count - 1) as nat) {
                Option::Some((vs, r2)) => Option::Some((seq![v] + vs, r2)),
                Option::None => Option::None,
            },
            Option::None => Option::None,
        }
    }
}

pub open spec fn spec_parse_str_list(s: Seq<char>) -> Option<(Seq<Seq<char>>, Seq<char>)> {
    if s.len() >= 1 && s[0] == 'L' {
        match spec_parse_num(s.skip(1)) {
            Option::Some((count, r)) => spec_parse_str_items(r, count as nat),
            Option::None => Option::None,
        }
    } else {
        Option::None
    }
}

pub open spec fn spec_parse_mount(s: Seq<char>) -> Option<(MountV, Seq<char>)> {
    if s.len() >= 1 && s[0] == 'M' {
        match spec_parse_string(s.skip(1)) {
            Option::Some((src, r1)) => match spec_parse_string(r1) {
                Option::Some((dst, r2)) => match spec_parse_opt_string(r2) {
                    Option::Some((fstype, r3)) => match spec_parse_bool(r3) {
                        Option::Some((is_bind, r4)) => match spec_parse_bool(r4) {
                            Option::Some((rw, r5)) => Option::Some(
                                (MountV { src, dst, fstype, is_bind, rw }, r5),
                            ),
                            Option::None => Option::None,
                        },
                        Option::None => Option::None,
                    },
                    Option::None => Option::None,
                },
                Option::None => Option::None,
            },
            Option::None => Option::None,
        }
    } else {
        Option::None
    }
}

pub open spec fn spec_parse_mount_items(s: Seq<char>, count: nat) -> Option<
    (Seq<MountV>, Seq<char>),
>
    decreases count,
{
    if count == 0 {
        Option::Some((Seq::empty(), s))
    } else {
        match spec_parse_mount(s) {
            Option::Some((v, r)) => match spec_parse_mount_items(r, (count - 1) as nat) {
                Option::Some((vs, r2)) => Option::Some((seq![v] + vs, r2)),
                Option::None => Option::None,
            },
            Option::None => Option::None,
        }
    }
}

pub open spec fn spec_parse_mount_list(s: Seq<char>) -> Option<(Seq<MountV>, Seq<char>)> {
    if s.len() >= 1 && s[0] == 'L' {
        match spec_parse_num(s.skip(1)) {
            Option::Some((count, r)) => spec_parse_mount_items(r, count as nat),
            Option::None => Option::None,
        }
    } else {
        Option::None
    }
}

pub open spec fn spec_parse_config(s: Seq<char>) -> Option<(ConfigV, Seq<char>)> {
    if s.len() >= 1 && s[0] == 'C' {
        match spec_parse_string(s.skip(1)) {
            Option::Some((name, r1)) => match spec_parse_opt_string(r1) {
                Option::Some((hostname, r2)) => match spec_parse_opt_string(r2) {
                    Option::Some((chroot_dir, r3)) => match spec_parse_string(r3) {
                        Option::Some((exec_bin, r4)) => match spec_parse_str_list(r4) {
                            Option::Some((exec_args, r5)) => match spec_parse_bool(r5) {
                                Option::Some((newpid, r6)) => match spec_parse_bool(r6) {
                                    Option::Some((newnet, r7)) => match spec_parse_bool(r7) {
                                        Option::Some((newns, r8)) => spec_parse_config_rest(
                                            name,
                                            hostname,
                                            chroot_dir,
                                            exec_bin,
                                            exec_args,
                                            newpid,
                                            newnet,
                                            newns,
                                            r8,
                                        ),
                                        Option::None => Option::None,
                                    },
                                    Option::None => Option::None,
                                },
                                Option::None => Option::None,
                            },
                            Option::None => Option::None,
                        },
                        Option::None => Option::None,
                    },
                    Option::None => Option::None,
                },
                Option::None => Option::None,
            },
            Option::None => Option::None,
        }
    } else {
        Option::None
    }
}

pub open spec fn spec_parse_config_rest(
    name: Seq<char>,
    hostname: Option<Seq<char>>,
    chroot_dir: Option<Seq<char>>,
    exec_bin: Seq<char>,
    exec_args: Seq<Seq<char>>,
    newpid: bool,
    newnet: bool,
    newns: bool,
    r8: Seq<char>,
) -> Option<(ConfigV, Seq<char>)> {
    match spec_parse_bool(r8) {
        Option::Some((newuts, r9)) => match spec_parse_bool(r9) {
            Option::Some((newipc, r10)) => match spec_parse_bool(r10) {
                Option::Some((newuser, r11)) => match spec_parse_opt_u64(r11) {
                    Option::Some((rlimit_as, r12)) => match spec_parse_opt_u64(r12) {
                        Option::Some((rlimit_cpu, r13)) => match spec_parse_opt_u64(r13) {
                            Option::Some((rlimit_nofile, r14)) => match spec_parse_mount_list(r14) {
                                Option::Some((mounts, r15)) => match spec_parse_opt_u32(r15) {
                                    Option::Some((uid, r16)) => match spec_parse_opt_u32(r16) {
                                        Option::Some((gid, r17)) => match spec_parse_opt_u64(r17) {
                                            Option::Some((time_limit, r18)) => Option::Some(
                                                (
                                                    ConfigV {
                                                        name,
                                                        hostname,
                                                        chroot_dir,
                                                        exec_bin,
                                                        exec_args,
                                                        clone_newpid: newpid,
                                                        clone_newnet: newnet,
                                                        clone_newns: newns,
                                                        clone_newuts: newuts,
                                                        clone_newipc: newipc,
                                                        clone_newuser: newuser,
                                                        rlimit_as,
                                                        rlimit_cpu,
                                                        rlimit_nofile,
                                                        mounts,
                                                        uid,
                                                        gid,
                                                        time_limit,
                                                    },
                                                    r18,
                                                ),
                                            ),
                                            Option::None => Option::None,
                                        },
                                        Option::None => Option::None,
                                    },
                                    Option::None => Option::None,
                                },
                                Option::None => Option::None,
                            },
                            Option::None => Option::None,
                        },
                        Option::None => Option::None,
                    },
                    Option::None => Option::None,
                },
                Option::None => Option::None,
            },
            Option::None => Option::None,
        },
        Option::None => Option::None,
    }
}

/// The whole input must be one configuration with nothing after it.
pub open spec fn spec_parse_config_full(s: Seq<char>) -> Option<ConfigV> {
    match spec_parse_config(s) {
        Option::Some((c, rest)) => if rest.len() == 0 {
            Option::Some(c)
        } else {
            Option::None
        },
        Option::None => Option::None,
    }
}


// ------------------------------------------------------------- round trip

/// A string short enough for its length to be written down.
pub open spec fn spec_str_fits(s: Seq<char>) -> bool {
    s.len() <= U64_BOUND
}

pub open spec fn spec_opt_str_fits(o: Option<Seq<char>>) -> bool {
    match o {
        Option::Some(s) => spec_str_fits(s),
        Option::None => true,
    }
}

pub open spec fn spec_mount_fits(m: MountV) -> bool {
    spec_str_fits(m.src) && spec_str_fits(m.dst) && spec_opt_str_fits(m.fstype)
}

/// Every string and list of the configuration is short enough to encode —
/// true of any value a machine can hold.
pub open spec fn spec_config_fits(c: ConfigV) -> bool {
    &&& spec_str_fits(c.name)
    &&& spec_opt_str_fits(c.hostname)
    &&& spec_opt_str_fits(c.chroot_dir)
    &&& spec_str_fits(c.exec_bin)
    &&& c.exec_args.len() <= U64_BOUND
    &&& forall|i: int| 0 <= i < c.exec_args.len() ==> spec_str_fits(#[trigger] c.exec_args[i])
    &&& c.mounts.len() <= U64_BOUND
    &&& forall|i: int| 0 <= i < c.mounts.len() ==> spec_mount_fits(#[trigger] c.mounts[i])
}

proof fn lemma_assoc(a: Seq<char>, b: Seq<char>, c: Seq<char>)
    ensures
        (a + b) + c == a + (b + c),
{
    assert((a + b) + c =~= a + (b + c));
}

proof fn lemma_cons_parts(c: char, t: Seq<char>)
    ensures
        (seq![c] + t).len() == t.len() + 1,
        (seq![c] + t)[0] == c,
        (seq![c] + t).skip(1) == t,
{
    assert((seq![c] + t).skip(1) =~= t);
}

proof fn lemma_concat_parts(a: Seq<char>, b: Seq<char>)
    ensures
        (a + b).take(a.len() as int) == a,
        (a + b).skip(a.len() as int) == b,
{
    assert((a + b).take(a.len() as int) =~= a);
    assert((a + b).skip(a.len() as int) =~= b);
}

proof fn lemma_dec_digits(n: nat)
    ensures
        spec_dec(n).len() >= 1,
        forall|i: int| 0 <= i < spec_dec(n).len() ==> spec_is_digit(#[trigger] spec_dec(n)[i]),
    decreases n,
{
    if n < 10 {
        assert(spec_is_digit(spec_digit_char(n as int)));
    } else {
        lemma_dec_digits(n / 10);
        assert(spec_is_digit(spec_digit_char((n % 10) as int)));
        assert forall|i: int| 0 <= i < spec_dec(n).len() implies spec_is_digit(
            #[trigger] spec_dec(n)[i],
        ) by {
            if i < spec_dec(n / 10).len() {
                assert(spec_dec(n)[i] == spec_dec(n / 10)[i]);
            } else {
                assert(spec_dec(n)[i] == spec_digit_char((n % 10) as int));
            }
        }
    }
}

proof fn lemma_dec_val_of_dec(n: nat)
    ensures
        spec_dec_val(spec_dec(n)) == n,
    decreases n,
{
    if n < 10 {
        let d = spec_dec(n);
        assert(d.drop_last() =~= Seq::<char>::empty());
        assert(d.last() == spec_digit_char(n as int));
        assert(spec_digit_val(spec_digit_char(n as int)) == n);
        assert(d.len() == 1);
        assert(spec_dec_val(d) == spec_dec_val(d.drop_last()) * 10 + spec_digit_val(d.last()));
        assert(spec_dec_val(Seq::<char>::empty()) == 0);
        assert(spec_dec_val(spec_dec(n)) == n);
    } else {
        let p = spec_dec(n / 10);
        let d = spec_dec(n);
        lemma_dec_val_of_dec(n / 10);
        assert(d.drop_last() =~= p);
        assert(d.last() == spec_digit_char((n % 10) as int));
        assert(spec_digit_val(spec_digit_char((n % 10) as int)) == n % 10);
        assert(spec_dec_val(d) == (n / 10) * 10 + n % 10);
        assert((n / 10) * 10 + n % 10 == n) by (nonlinear_arith);
        assert(spec_dec_val(spec_dec(n)) == n);
    }
}

proof fn lemma_prefix_all(d: Seq<char>, rest: Seq<char>)
    requires
        forall|i: int| 0 <= i < d.len() ==> spec_is_digit(#[trigger] d[i]),
        rest.len() == 0 || !spec_is_digit(rest[0]),
    ensures
        spec_digit_prefix_len(d + rest) == d.len(),
    decreases d.len(),
{
    if d.len() == 0 {
        assert(d + rest =~= rest);
    } else {
        assert((d + rest)[0] == d[0]);
        assert((d + rest).skip(1) =~= d.skip(1) + rest);
        lemma_prefix_all(d.skip(1), rest);
    }
}

proof fn lemma_parse_num_rt(n: nat, rest: Seq<char>)
    requires
        n <= U64_BOUND,
    ensures
        spec_parse_num(spec_ser_num(n) + rest) == Some((n as u64, rest)),
{
    let d = spec_dec(n);
    let tail = seq![':'] + rest;
    let input = spec_ser_num(n) + rest;
    assert(input =~= d + tail);
    lemma_dec_digits(n);
    assert(!spec_is_digit(':'));
    lemma_prefix_all(d, tail);
    let k = d.len() as int;
    assert(spec_digit_prefix_len(input) == d.len());
    assert(input[k] == tail[0]);
    lemma_concat_parts(d, tail);
    assert(input.take(k) == d);
    lemma_dec_val_of_dec(n);
    assert(input.skip(k + 1) =~= rest);
}

proof fn lemma_parse_string_rt(v: Seq<char>, rest: Seq<char>)
    requires
        spec_str_fits(v),
    ensures
        spec_parse_string(spec_ser_string(v) + rest) == Some((v, rest)),
{
    let input = spec_ser_string(v) + rest;
    let t = spec_ser_num(v.len()) + (v + rest);
    lemma_assoc((seq!['S'] + spec_ser_num(v.len())), v, rest);
    lemma_assoc(seq!['S'], spec_ser_num(v.len()), v + rest);
    assert(input == seq!['S'] + t);
    lemma_cons_parts('S', t);
    lemma_parse_num_rt(v.len(), v + rest);
    assert(spec_parse_num(t) == Some((v.len() as u64, v + rest)));
    lemma_concat_parts(v, rest);
    assert((v + rest).take(v.len() as int) == v);
    assert((v + rest).skip(v.len() as int) == rest);
}

proof fn lemma_parse_bool_rt(b: bool, rest: Seq<char>)
    ensures
        spec_parse_bool(spec_ser_bool(b) + rest) == Some((b, rest)),
{
    let input = spec_ser_bool(b) + rest;
    assert(input.skip(1) =~= rest);
}

proof fn lemma_parse_opt_string_rt(o: Option<Seq<char>>, rest: Seq<char>)
    requires
        spec_opt_str_fits(o),
    ensures
        spec_parse_opt_string(spec_ser_opt_string(o) + rest) == Some((o, rest)),
{
    let input = spec_ser_opt_string(o) + rest;
    match o {
        Option::None => {
            assert(input.skip(1) =~= rest);
        },
        Option::Some(s) => {
            lemma_assoc(seq!['J'], spec_ser_string(s), rest);
            assert(input == seq!['J'] + (spec_ser_string(s) + rest));
            lemma_cons_parts('J', spec_ser_string(s) + rest);
            lemma_parse_string_rt(s, rest);
        },
    }
}

proof fn lemma_parse_opt_u64_rt(o: Option<u64>, rest: Seq<char>)
    ensures
        spec_parse_opt_u64(spec_ser_opt_u64(o) + rest) == Some((o, rest)),
{
    let input = spec_ser_opt_u64(o) + rest;
    match o {
        Option::None => {
            assert(input.skip(1) =~= rest);
        },
        Option::Some(n) => {
            lemma_assoc(seq!['J'], spec_ser_num(n as nat), rest);
            assert(input == seq!['J'] + (spec_ser_num(n as nat) + rest));
            lemma_cons_parts('J', spec_ser_num(n as nat) + rest);
            lemma_parse_num_rt(n as nat, rest);
        },
    }
}

proof fn lemma_parse_opt_u32_rt(o: Option<u32>, rest: Seq<char>)
    ensures
        spec_parse_opt_u32(spec_ser_opt_u32(o) + rest) == Some((o, rest)),
{
    let input = spec_ser_opt_u32(o) + rest;
    match o {
        Option::None => {
            assert(input.skip(1) =~= rest);
        },
        Option::Some(n) => {
            lemma_assoc(seq!['J'], spec_ser_num(n as nat), rest);
            assert(input == seq!['J'] + (spec_ser_num(n as nat) + rest));
            lemma_cons_parts('J', spec_ser_num(n as nat) + rest);
            lemma_parse_num_rt(n as nat, rest);
        },
    }
}

#[verifier::spinoff_prover]
proof fn lemma_parse_str_items_rt(xs: Seq<Seq<char>>, rest: Seq<char>)
    requires
        forall|i: int| 0 <= i < xs.len() ==> spec_str_fits(#[trigger] xs[i]),
    ensures
        spec_parse_str_items(spec_ser_str_items(xs) + rest, xs.len()) == Some((xs, rest)),
    decreases xs.len(),
{
    if xs.len() == 0 {
        assert(spec_ser_str_items(xs) + rest =~= rest);
        assert(xs =~= Seq::<Seq<char>>::empty());
    } else {
        let input = spec_ser_str_items(xs) + rest;
        assert(spec_ser_str_items(xs) == spec_ser_string(xs[0]) + spec_ser_str_items(xs.skip(1)));
        lemma_assoc(spec_ser_string(xs[0]), spec_ser_str_items(xs.skip(1)), rest);
        assert(input == spec_ser_string(xs[0]) + (spec_ser_str_items(xs.skip(1)) + rest));
        lemma_parse_string_rt(xs[0], spec_ser_str_items(xs.skip(1)) + rest);
        lemma_parse_str_items_rt(xs.skip(1), rest);
        assert(seq![xs[0]] + xs.skip(1) =~= xs);
    }
}

proof fn lemma_parse_str_list_rt(xs: Seq<Seq<char>>, rest: Seq<char>)
    requires
        xs.len() <= U64_BOUND,
        forall|i: int| 0 <= i < xs.len() ==> spec_str_fits(#[trigger] xs[i]),
    ensures
        spec_parse_str_list(spec_ser_str_list(xs) + rest) == Some((xs, rest)),
{
    let input = spec_ser_str_list(xs) + rest;
    let t = spec_ser_num(xs.len()) + (spec_ser_str_items(xs) + rest);
    lemma_assoc((seq!['L'] + spec_ser_num(xs.len())), spec_ser_str_items(xs), rest);
    lemma_assoc(seq!['L'], spec_ser_num(xs.len()), spec_ser_str_items(xs) + rest);
    assert(input == seq!['L'] + t);
    lemma_cons_parts('L', t);
    lemma_parse_num_rt(xs.len(), spec_ser_str_items(xs) + rest);
    lemma_parse_str_items_rt(xs, rest);
}

#[verifier::rlimit(40)]
#[verifier::spinoff_prover]
proof fn lemma_parse_mount_rt(m: MountV, rest: Seq<char>)
    requires
        spec_mount_fits(m),
    ensures
        spec_parse_mount(spec_ser_mount(m) + rest) == Some((m, rest)),
{
    let s1 = spec_ser_string(m.src);
    let s2 = spec_ser_string(m.dst);
    let s3 = spec_ser_opt_string(m.fstype);
    let s4 = spec_ser_bool(m.is_bind);
    let s5 = spec_ser_bool(m.rw);
    let t5 = s5 + rest;
    let t4 = s4 + t5;
    let t3 = s3 + t4;
    let t2 = s2 + t3;
    let t1 = s1 + t2;
    let input = spec_ser_mount(m) + rest;
    let head = seq!['M'];
    lemma_assoc(((((head + s1) + s2) + s3) + s4), s5, rest);
    lemma_assoc((((head + s1) + s2) + s3), s4, t5);
    lemma_assoc(((head + s1) + s2), s3, t4);
    lemma_assoc((head + s1), s2, t3);
    lemma_assoc(head, s1, t2);
    assert(input == head + t1);
    lemma_cons_parts('M', t1);
    lemma_parse_string_rt(m.src, t2);
    lemma_parse_string_rt(m.dst, t3);
    lemma_parse_opt_string_rt(m.fstype, t4);
    lemma_parse_bool_rt(m.is_bind, t5);
    lemma_parse_bool_rt(m.rw, rest);
    assert((MountV { src: m.src, dst: m.dst, fstype: m.fstype, is_bind: m.is_bind, rw: m.rw })
        =~= m);
}

#[verifier::rlimit(100)]
#[verifier::spinoff_prover]
proof fn lemma_parse_mount_items_rt(ms: Seq<MountV>, rest: Seq<char>)
    requires
        forall|i: int| 0 <= i < ms.len() ==> spec_mount_fits(#[trigger] ms[i]),
    ensures
        spec_parse_mount_items(spec_ser_mount_items(ms) + rest, ms.len()) == Some((ms, rest)),
    decreases ms.len(),
{
    if ms.len() == 0 {
        assert(spec_ser_mount_items(ms) + rest =~= rest);
        assert(ms =~= Seq::<MountV>::empty());
    } else {
        let input = spec_ser_mount_items(ms) + rest;
        assert(spec_ser_mount_items(ms) == spec_ser_mount(ms[0]) + spec_ser_mount_items(ms.skip(1)));
        lemma_assoc(spec_ser_mount(ms[0]), spec_ser_mount_items(ms.skip(1)), rest);
        assert(input == spec_ser_mount(ms[0]) + (spec_ser_mount_items(ms.skip(1)) + rest));
        lemma_parse_mount_rt(ms[0], spec_ser_mount_items(ms.skip(1)) + rest);
        lemma_parse_mount_items_rt(ms.skip(1), rest);
        assert(seq![ms[0]] + ms.skip(1) =~= ms);
    }
}

proof fn lemma_parse_mount_list_rt(ms: Seq<MountV>, rest: Seq<char>)
    requires
        ms.len() <= U64_BOUND,
        forall|i: int| 0 <= i < ms.len() ==> spec_mount_fits(#[trigger] ms[i]),
    ensures
        spec_parse_mount_list(spec_ser_mount_list(ms) + rest) == Some((ms, rest)),
{
    let input = spec_ser_mount_list(ms) + rest;
    let t = spec_ser_num(ms.len()) + (spec_ser_mount_items(ms) + rest);
    lemma_assoc((seq!['L'] + spec_ser_num(ms.len())), spec_ser_mount_items(ms), rest);
    lemma_assoc(seq!['L'], spec_ser_num(ms.len()), spec_ser_mount_items(ms) + rest);
    assert(input == seq!['L'] + t);
    lemma_cons_parts('L', t);
    lemma_parse_num_rt(ms.len(), spec_ser_mount_items(ms) + rest);
    lemma_parse_mount_items_rt(ms, rest);
}

#[verifier::rlimit(100)]
#[verifier::spinoff_prover]
proof fn lemma_parse_config_rest_rt(c: ConfigV, rest: Seq<char>)
    requires
        spec_config_fits(c),
    ensures
        spec_parse_config_rest(
            c.name,
            c.hostname,
            c.chroot_dir,
            c.exec_bin,
            c.exec_args,
            c.clone_newpid,
            c.clone_newnet,
            c.clone_newns,
            spec_ser_bool(c.clone_newuts) + (spec_ser_bool(c.clone_newipc) + (spec_ser_bool(
                c.clone_newuser,
            ) + (spec_ser_opt_u64(c.rlimit_as) + (spec_ser_opt_u64(c.rlimit_cpu) + (
            spec_ser_opt_u64(c.rlimit_nofile) + (spec_ser_mount_list(c.mounts) + (
            spec_ser_opt_u32(c.uid) + (spec_ser_opt_u32(c.gid) + (spec_ser_opt_u64(c.time_limit)
                + rest))))))))),
        ) == Some((c, rest)),
{
    let t18 = spec_ser_opt_u64(c.time_limit) + rest;
    let t17 = spec_ser_opt_u32(c.gid) + t18;
    let t16 = spec_ser_opt_u32(c.uid) + t17;
    let t15 = spec_ser_mount_list(c.mounts) + t16;
    let t14 = spec_ser_opt_u64(c.rlimit_nofile) + t15;
    let t13 = spec_ser_opt_u64(c.rlimit_cpu) + t14;
    let t12 = spec_ser_opt_u64(c.rlimit_as) + t13;
    let t11 = spec_ser_bool(c.clone_newuser) + t12;
    let t10 = spec_ser_bool(c.clone_newipc) + t11;
    let t9 = spec_ser_bool(c.clone_newuts) + t10;
    lemma_parse_bool_rt(c.clone_newuts, t10);
    lemma_parse_bool_rt(c.clone_newipc, t11);
    lemma_parse_bool_rt(c.clone_newuser, t12);
    lemma_parse_opt_u64_rt(c.rlimit_as, t13);
    lemma_parse_opt_u64_rt(c.rlimit_cpu, t14);
    lemma_parse_opt_u64_rt(c.rlimit_nofile, t15);
    lemma_parse_mount_list_rt(c.mounts, t16);
    lemma_parse_opt_u32_rt(c.uid, t17);
    lemma_parse_opt_u32_rt(c.gid, t18);
    lemma_parse_opt_u64_rt(c.time_limit, rest);
    assert(spec_parse_config_rest(
        c.name,
        c.hostname,
        c.chroot_dir,
        c.exec_bin,
        c.exec_args,
        c.clone_newpid,
        c.clone_newnet,
        c.clone_newns,
        t9,
    ) matches Some((parsed, r)) && parsed =~= c && r == rest);
}

#[verifier::rlimit(100)]
#[verifier::spinoff_prover]
proof fn lemma_parse_config_rt(c: ConfigV, rest: Seq<char>)
    requires
        spec_config_fits(c),
    ensures
        spec_parse_config(spec_ser_config(c) + rest) == Some((c, rest)),
{
    let s1 = spec_ser_string(c.name);
    let s2 = spec_ser_opt_string(c.hostname);
    let s3 = spec_ser_opt_string(c.chroot_dir);
    let s4 = spec_ser_string(c.exec_bin);
    let s5 = spec_ser_str_list(c.exec_args);
    let s6 = spec_ser_bool(c.clone_newpid);
    let s7 = spec_ser_bool(c.clone_newnet);
    let s8 = spec_ser_bool(c.clone_newns);
    let s9 = spec_ser_bool(c.clone_newuts);
    let s10 = spec_ser_bool(c.clone_newipc);
    let s11 = spec_ser_bool(c.clone_newuser);
    let s12 = spec_ser_opt_u64(c.rlimit_as);
    let s13 = spec_ser_opt_u64(c.rlimit_cpu);
    let s14 = spec_ser_opt_u64(c.rlimit_nofile);
    let s15 = spec_ser_mount_list(c.mounts);
    let s16 = spec_ser_opt_u32(c.uid);
    let s17 = spec_ser_opt_u32(c.gid);
    let s18 = spec_ser_opt_u64(c.time_limit);
    let t18 = s18 + rest;
    let t17 = s17 + t18;
    let t16 = s16 + t17;
    let t15 = s15 + t16;
    let t14 = s14 + t15;
    let t13 = s13 + t14;
    let t12 = s12 + t13;
    let t11 = s11 + t12;
    let t10 = s10 + t11;
    let t9 = s9 + t10;
    let t8 = s8 + t9;
    let t7 = s7 + t8;
    let t6 = s6 + t7;
    let t5 = s5 + t6;
    let t4 = s4 + t5;
    let t3 = s3 + t4;
    let t2 = s2 + t3;
    let t1 = s1 + t2;
    let p1 = seq!['C'] + s1;
    let p2 = p1 + s2;
    let p3 = p2 + s3;
    let p4 = p3 + s4;
    let p5 = p4 + s5;
    let p6 = p5 + s6;
    let p7 = p6 + s7;
    let p8 = p7 + s8;
    let p9 = p8 + s9;
    let p10 = p9 + s10;
    let p11 = p10 + s11;
    let p12 = p11 + s12;
    let p13 = p12 + s13;
    let p14 = p13 + s14;
    let p15 = p14 + s15;
    let p16 = p15 + s16;
    let p17 = p16 + s17;
    let p18 = p17 + s18;
    let input = spec_ser_config(c) + rest;
    assert(spec_ser_config(c) == p18);
    lemma_assoc(p17, s18, rest);
    lemma_assoc(p16, s17, t18);
    lemma_assoc(p15, s16, t17);
    lemma_assoc(p14, s15, t16);
    lemma_assoc(p13, s14, t15);
    lemma_assoc(p12, s13, t14);
    lemma_assoc(p11, s12, t13);
    lemma_assoc(p10, s11, t12);
    lemma_assoc(p9, s10, t11);
    lemma_assoc(p8, s9, t10);
    lemma_assoc(p7, s8, t9);
    lemma_assoc(p6, s7, t8);
    lemma_assoc(p5, s6, t7);
    lemma_assoc(p4, s5, t6);
    lemma_assoc(p3, s4, t5);
    lemma_assoc(p2, s3, t4);
    lemma_assoc(p1, s2, t3);
    lemma_assoc(seq!['C'], s1, t2);
    assert(input == seq!['C'] + t1);
    lemma_cons_parts('C', t1);
    lemma_parse_string_rt(c.name, t2);
    lemma_parse_opt_string_rt(c.hostname, t3);
    lemma_parse_opt_string_rt(c.chroot_dir, t4);
    lemma_parse_string_rt(c.exec_bin, t5);
    lemma_parse_str_list_rt(c.exec_args, t6);
    lemma_parse_bool_rt(c.clone_newpid, t7);
    lemma_parse_bool_rt(c.clone_newnet, t8);
    lemma_parse_bool_rt(c.clone_newns, t9);
    lemma_parse_config_rest_rt(c, rest);
    assert(spec_parse_config(input) == Some((c, rest)));
}

/// The round-trip law: printing a configuration in the canonical text
/// encoding and parsing it back yields the configuration itself, equal in
/// every field, for every configuration whose strings and lists a machine
/// can hold.
pub proof fn lemma_config_round_trip(c: ConfigV)
    requires
        spec_config_fits(c),
    ensures
        spec_parse_config_full(spec_ser_config(c)) == Some(c),
{
    lemma_parse_config_rt(c, Seq::empty());
    assert(spec_ser_config(c) + Seq::empty() =~= spec_ser_config(c));
}


// ---------------------------------------------------------- exec printing

fn num_to_text(n: u64) -> (r: String)
    ensures
        r@ == spec_ser_num(n as nat),
{
    let mut s = u64_to_dec(n);
    push_char(&mut s, ':');
    proof {
        assert(s@ =~= spec_ser_num(n as nat));
    }
    s
}

fn string_to_text(v: &str) -> (r: String)
    ensures
        r@ == spec_ser_string(v@),
{
    let mut s = String::new();
    push_char(&mut s, 'S');
    let num = num_to_text(v.unicode_len() as u64);
    s.append(num.as_str());
    s.append(v);
    proof {
        assert(s@ =~= spec_ser_string(v@));
    }
    s
}

fn bool_to_text(b: bool) -> (r: String)
    ensures
        r@ == spec_ser_bool(b),
{
    let mut s = String::new();
    if b {
        push_char(&mut s, 'T');
        proof {
            assert(s@ =~= spec_ser_bool(b));
        }
    } else {
        push_char(&mut s, 'F');
        proof {
            assert(s@ =~= spec_ser_bool(b));
        }
    }
    s
}

fn opt_string_to_text(o: &Option<String>) -> (r: String)
    ensures
        r@ == spec_ser_opt_string(view_opt_string(*o)),
{
    let mut s = String::new();
    match o {
        None => {
            push_char(&mut s, 'N');
            proof {
                assert(s@ =~= spec_ser_opt_string(view_opt_string(*o)));
            }
        },
        Some(v) => {
            push_char(&mut s, 'J');
            let body = string_to_text(v.as_str());
            s.append(body.as_str());
            proof {
                assert(s@ =~= spec_ser_opt_string(view_opt_string(*o)));
            }
        },
    }
    s
}

fn opt_u64_to_text(o: &Option<u64>) -> (r: String)
    ensures
        r@ == spec_ser_opt_u64(*o),
{
    let mut s = String::new();
    match o {
        None => {
            push_char(&mut s, 'N');
            proof {
                assert(s@ =~= spec_ser_opt_u64(*o));
            }
        },
        Some(v) => {
            push_char(&mut s, 'J');
            let body = num_to_text(*v);
            s.append(body.as_str());
            proof {
                assert(s@ =~= spec_ser_opt_u64(*o));
            }
        },
    }
    s
}

fn opt_u32_to_text(o: &Option<u32>) -> (r: String)
    ensures
        r@ == spec_ser_opt_u32(*o),
{
    let mut s = String::new();
    match o {
        None => {
            push_char(&mut s, 'N');
            proof {
                assert(s@ =~= spec_ser_opt_u32(*o));
            }
        },
        Some(v) => {
            push_char(&mut s, 'J');
            let body = num_to_text(*v as u64);
            s.append(body.as_str());
            proof {
                assert(s@ =~= spec_ser_opt_u32(*o));
            }
        },
    }
    s
}

fn str_items_to_text(xs: &Vec<String>, i: usize) -> (r: String)
    requires
        i <= xs@.len(),
    ensures
        r@ == spec_ser_str_items(xs@.map_values(|a: String| a@).skip(i as int)),
    decreases xs@.len() - i,
{
    let ghost m = xs@.map_values(|a: String| a@);
    if i == xs.len() {
        let s = String::new();
        proof {
            assert(m.skip(i as int) =~= Seq::<Seq<char>>::empty());
        }
        s
    } else {
        let mut s = string_to_text(xs[i].as_str());
        let tail = str_items_to_text(xs, i + 1);
        s.append(tail.as_str());
        proof {
            assert(m.skip(i as int)[0] == m[i as int]);
            assert(m.skip(i as int).skip(1) =~= m.skip(i + 1 as int));
            assert(m.skip(i as int).len() != 0);
        }
        s
    }
}

fn str_list_to_text(xs: &Vec<String>) -> (r: String)
    ensures
        r@ == spec_ser_str_list(xs@.map_values(|a: String| a@)),
{
    let mut s = String::new();
    push_char(&mut s, 'L');
    let num = num_to_text(xs.len() as u64);
    s.append(num.as_str());
    let items = str_items_to_text(xs, 0);
    s.append(items.as_str());
    proof {
        let m = xs@.map_values(|a: String| a@);
        assert(m.skip(0) =~= m);
        assert(s@ =~= spec_ser_str_list(m));
    }
    s
}

fn mount_to_text(m: &MountConfig) -> (r: String)
    ensures
        r@ == spec_ser_mount(m@),
{
    let mut s = String::new();
    push_char(&mut s, 'M');
    let part = string_to_text(m.src.as_str());
    s.append(part.as_str());
    let part = string_to_text(m.dst.as_str());
    s.append(part.as_str());
    let part = opt_string_to_text(&m.fstype);
    s.append(part.as_str());
    let part = bool_to_text(m.is_bind);
    s.append(part.as_str());
    let part = bool_to_text(m.rw);
    s.append(part.as_str());
    proof {
        assert(s@ =~= spec_ser_mount(m@));
    }
    s
}

fn mount_items_to_text(ms: &Vec<MountConfig>, i: usize) -> (r: String)
    requires
        i <= ms@.len(),
    ensures
        r@ == spec_ser_mount_items(ms@.map_values(|a: MountConfig| a@).skip(i as int)),
    decreases ms@.len() - i,
{
    let ghost m = ms@.map_values(|a: MountConfig| a@);
    if i == ms.len() {
        let s = String::new();
        proof {
            assert(m.skip(i as int) =~= Seq::<MountV>::empty());
        }
        s
    } else {
        let mut s = mount_to_text(&ms[i]);
        let tail = mount_items_to_text(ms, i + 1);
        s.append(tail.as_str());
        proof {
            assert(m.skip(i as int)[0] == m[i as int]);
            assert(m.skip(i as int).skip(1) =~= m.skip(i + 1 as int));
            assert(m.skip(i as int).len() != 0);
        }
        s
    }
}

fn mount_list_to_text(ms: &Vec<MountConfig>) -> (r: String)
    ensures
        r@ == spec_ser_mount_list(ms@.map_values(|a: MountConfig| a@)),
{
    let mut s = String::new();
    push_char(&mut s, 'L');
    let num = num_to_text(ms.len() as u64);
    s.append(num.as_str());
    let items = mount_items_to_text(ms, 0);
    s.append(items.as_str());
    proof {
        let m = ms@.map_values(|a: MountConfig| a@);
        assert(m.skip(0) =~= m);
        assert(s@ =~= spec_ser_mount_list(m));
    }
    s
}

/// Print a configuration in the canonical text encoding.
pub fn config_to_text(c: &JailConfig) -> (r: String)
    ensures
        r@ == spec_ser_config(c@),
{
    let mut s = String::new();
    push_char(&mut s, 'C');
    let part = string_to_text(c.name.as_str());
    s.append(part.as_str());
    let part = opt_string_to_text(&c.hostname);
    s.append(part.as_str());
    let part = opt_string_to_text(&c.chroot_dir);
    s.append(part.as_str());
    let part = string_to_text(c.exec_bin.as_str());
    s.append(part.as_str());
    let part = str_list_to_text(&c.exec_args);
    s.append(part.as_str());
    let part = bool_to_text(c.clone_newpid);
    s.append(part.as_str());
    let part = bool_to_text(c.clone_newnet);
    s.append(part.as_str());
    let part = bool_to_text(c.clone_newns);
    s.append(part.as_str());
    let part = bool_to_text(c.clone_newuts);
    s.append(part.as_str());
    let part = bool_to_text(c.clone_newipc);
    s.append(part.as_str());
    let part = bool_to_text(c.clone_newuser);
    s.append(part.as_str());
    let part = opt_u64_to_text(&c.rlimit_as);
    s.append(part.as_str());
    let part = opt_u64_to_text(&c.rlimit_cpu);
    s.append(part.as_str());
    let part = opt_u64_to_text(&c.rlimit_nofile);
    s.append(part.as_str());
    let part = mount_list_to_text(&c.mounts);
    s.append(part.as_str());
    let part = opt_u32_to_text(&c.uid);
    s.append(part.as_str());
    let part = opt_u32_to_text(&c.gid);
    s.append(part.as_str());
    let part = opt_u64_to_text(&c.time_limit);
    s.append(part.as_str());
    proof {
        assert(s@ =~= spec_ser_config(c@));
    }
    s
}


// ----------------------------------------------------------- exec parsing

proof fn lemma_prefix_exact(t: Seq<char>, m: int)
    requires
        0 <= m <= t.len(),
        forall|k: int| 0 <= k < m ==> spec_is_digit(#[trigger] t[k]),
        m == t.len() || !spec_is_digit(t[m]),
    ensures
        spec_digit_prefix_len(t) == m,
    decreases t.len(),
{
    if m == 0 {
        if t.len() != 0 {
            assert(!spec_is_digit(t[0]));
        }
    } else {
        assert(spec_is_digit(t[0]));
        assert forall|k: int| 0 <= k < m - 1 implies spec_is_digit(#[trigger] t.skip(1)[k]) by {
            assert(t.skip(1)[k] == t[k + 1]);
        }
        if m - 1 < t.skip(1).len() {
            assert(t.skip(1)[m - 1] == t[m]);
        }
        lemma_prefix_exact(t.skip(1), m - 1);
    }
}

proof fn lemma_dec_val_nonneg(t: Seq<char>)
    requires
        forall|k: int| 0 <= k < t.len() ==> spec_is_digit(#[trigger] t[k]),
    ensures
        spec_dec_val(t) >= 0,
    decreases t.len(),
{
    if t.len() > 0 {
        assert forall|k: int| 0 <= k < t.drop_last().len() implies spec_is_digit(
            #[trigger] t.drop_last()[k],
        ) by {
            assert(t.drop_last()[k] == t[k]);
        }
        lemma_dec_val_nonneg(t.drop_last());
        assert(spec_is_digit(t.last()));
    }
}

proof fn lemma_dec_val_step(t: Seq<char>, m: int)
    requires
        0 <= m < t.len(),
    ensures
        spec_dec_val(t.take(m + 1)) == spec_dec_val(t.take(m)) * 10 + spec_digit_val(t[m]),
{
    assert(t.take(m + 1).drop_last() =~= t.take(m));
    assert(t.take(m + 1).last() == t[m]);
}

proof fn lemma_dec_val_mono(t: Seq<char>, m1: int, m2: int)
    requires
        0 <= m1 <= m2 <= t.len(),
        forall|k: int| 0 <= k < m2 ==> spec_is_digit(#[trigger] t[k]),
    ensures
        spec_dec_val(t.take(m1)) <= spec_dec_val(t.take(m2)),
    decreases m2 - m1,
{
    if m1 < m2 {
        lemma_dec_val_step(t, m2 - 1);
        assert forall|k: int| 0 <= k < t.take(m2 - 1).len() implies spec_is_digit(
            #[trigger] t.take(m2 - 1)[k],
        ) by {
            assert(t.take(m2 - 1)[k] == t[k]);
        }
        lemma_dec_val_nonneg(t.take(m2 - 1));
        assert(spec_is_digit(t[m2 - 1]));
        lemma_dec_val_mono(t, m1, m2 - 1);
    }
}

fn digit_at(s: &str, j: usize) -> (r: bool)
    requires
        j < s@.len(),
    ensures
        r == spec_is_digit(s@[j as int]),
{
    let u = s.get_char(j) as u32;
    48 <= u && u <= 57
}

fn digit_of(c: char) -> (r: u64)
    requires
        spec_is_digit(c),
    ensures
        r as int == spec_digit_val(c),
        r < 10,
{
    ((c as u32) - 48) as u64
}

fn p_num(s: &str, i: usize) -> (r: Option<(u64, usize)>)
    requires
        i <= s@.len(),
    ensures
        ({
            let sp = spec_parse_num(s@.skip(i as int));
            &&& (r is None <==> sp is None)
            &&& (r matches Some((rv, j)) ==> (sp matches Some((v, rem)) && rv == v && i < j
                <= s@.len() && s@.skip(j as int) == rem))
        }),
{
    let ghost suf = s@.skip(i as int);
    let n = s.unicode_len();
    let mut j: usize = i;
    while j < n && digit_at(s, j)
        invariant
            i <= j <= n,
            n == s@.len(),
            forall|k: int| i <= k < j ==> spec_is_digit(#[trigger] s@[k]),
        decreases n - j,
    {
        j += 1;
    }
    proof {
        assert(suf.len() == s@.len() - i);
        assert forall|k: int| 0 <= k < j - i implies spec_is_digit(#[trigger] suf[k]) by {
            assert(suf[k] == s@[i + k]);
        }
        if j < n {
            assert(suf[j - i] == s@[j as int]);
            assert(!spec_is_digit(s@[j as int]));
        }
        lemma_prefix_exact(suf, j - i);
    }
    if j == i {
        return None;
    }
    if j == n {
        return None;
    }
    let cj = s.get_char(j);
    proof {
        assert(suf[j - i] == s@[j as int]);
    }
    if cj != ':' {
        return None;
    }
    let mut acc: u64 = 0;
    let mut k: usize = i;
    while k < j
        invariant
            i <= k <= j,
            j < n,
            n == s@.len(),
            i <= s@.len(),
            suf == s@.skip(i as int),
            forall|k2: int| i <= k2 < j ==> spec_is_digit(#[trigger] s@[k2]),
            forall|k2: int| 0 <= k2 < j - i ==> spec_is_digit(#[trigger] suf[k2]),
            spec_digit_prefix_len(suf) == j - i,
            suf[j - i] == ':',
            acc as int == spec_dec_val(suf.take(k - i)),
        decreases j - k,
    {
        let c = s.get_char(k);
        proof {
            assert(suf[k - i] == s@[k as int]);
        }
        let d = digit_of(c);
        proof {
            lemma_dec_val_step(suf, k - i);
        }
        let next = match acc.checked_mul(10) {
            Some(x) => x.checked_add(d),
            None => None,
        };
        match next {
            Some(y) => {
                acc = y;
            },
            None => {
                proof {
                    assert(spec_dec_val(suf.take(k - i + 1)) > U64_BOUND);
                    lemma_dec_val_mono(suf, k - i + 1, j - i);
                    assert(spec_dec_val(suf.take(j - i)) > U64_BOUND);
                }
                return None;
            },
        }
        k += 1;
    }
    proof {
        assert(acc as int == spec_dec_val(suf.take(j - i)));
        assert(s@.skip((j + 1) as int) =~= suf.skip(j - i + 1));
    }
    Some((acc, j + 1))
}


fn p_string(s: &str, i: usize) -> (r: Option<(String, usize)>)
    requires
        i <= s@.len(),
    ensures
        ({
            let sp = spec_parse_string(s@.skip(i as int));
            &&& (r is None <==> sp is None)
            &&& (r matches Some((out, j)) ==> (sp matches Some((v, rem)) && out@ == v && i < j
                <= s@.len() && s@.skip(j as int) == rem))
        }),
{
    let ghost suf = s@.skip(i as int);
    let n = s.unicode_len();
    if i == n {
        return None;
    }
    let c = s.get_char(i);
    proof {
        assert(suf[0] == s@[i as int]);
    }
    if c != 'S' {
        return None;
    }
    proof {
        assert(suf.skip(1) =~= s@.skip((i + 1) as int));
    }
    match p_num(s, i + 1) {
        None => None,
        Some((len64, j)) => {
            let rem_len = n - j;
            if len64 > rem_len as u64 {
                return None;
            }
            let l = len64 as usize;
            proof {
                assert(l as int == len64 as int);
            }
            let content = s.substring_char(j, j + l).to_owned();
            proof {
                assert(s@.skip(j as int).take(l as int) =~= s@.subrange(j as int, (j + l) as int));
                assert(s@.skip(j as int).skip(l as int) =~= s@.skip((j + l) as int));
            }
            Some((content, j + l))
        },
    }
}

fn p_bool(s: &str, i: usize) -> (r: Option<(bool, usize)>)
    requires
        i <= s@.len(),
    ensures
        ({
            let sp = spec_parse_bool(s@.skip(i as int));
            &&& (r is None <==> sp is None)
            &&& (r matches Some((out, j)) ==> (sp matches Some((v, rem)) && out == v && i < j
                <= s@.len() && s@.skip(j as int) == rem))
        }),
{
    let ghost suf = s@.skip(i as int);
    let n = s.unicode_len();
    if i == n {
        return None;
    }
    let c = s.get_char(i);
    proof {
        assert(suf[0] == s@[i as int]);
        assert(suf.skip(1) =~= s@.skip((i + 1) as int));
    }
    if c == 'T' {
        Some((true, i + 1))
    } else if c == 'F' {
        Some((false, i + 1))
    } else {
        None
    }
}

fn p_opt_string(s: &str, i: usize) -> (r: Option<(Option<String>, usize)>)
    requires
        i <= s@.len(),
    ensures
        ({
            let sp = spec_parse_opt_string(s@.skip(i as int));
            &&& (r is None <==> sp is None)
            &&& (r matches Some((out, j)) ==> (sp matches Some((v, rem)) && view_opt_string(out)
                == v && i < j <= s@.len() && s@.skip(j as int) == rem))
        }),
{
    let ghost suf = s@.skip(i as int);
    let n = s.unicode_len();
    if i == n {
        return None;
    }
    let c = s.get_char(i);
    proof {
        assert(suf[0] == s@[i as int]);
        assert(suf.skip(1) =~= s@.skip((i + 1) as int));
    }
    if c == 'N' {
        Some((None, i + 1))
    } else if c == 'J' {
        match p_string(s, i + 1) {
            None => None,
            Some((v, j)) => Some((Some(v), j)),
        }
    } else {
        None
    }
}

fn p_opt_u64(s: &str, i: usize) -> (r: Option<(Option<u64>, usize)>)
    requires
        i <= s@.len(),
    ensures
        ({
            let sp = spec_parse_opt_u64(s@.skip(i as int));
            &&& (r is None <==> sp is None)
            &&& (r matches Some((out, j)) ==> (sp matches Some((v, rem)) && out == v && i < j
                <= s@.len() && s@.skip(j as int) == rem))
        }),
{
    let ghost suf = s@.skip(i as int);
    let n = s.unicode_len();
    if i == n {
        return None;
    }
    let c = s.get_char(i);
    proof {
        assert(suf[0] == s@[i as int]);
        assert(suf.skip(1) =~= s@.skip((i + 1) as int));
    }
    if c == 'N' {
        Some((None, i + 1))
    } else if c == 'J' {
        match p_num(s, i + 1) {
            None => None,
            Some((v, j)) => Some((Some(v), j)),
        }
    } else {
        None
    }
}

fn p_opt_u32(s: &str, i: usize) -> (r: Option<(Option<u32>, usize)>)
    requires
        i <= s@.len(),
    ensures
        ({
            let sp = spec_parse_opt_u32(s@.skip(i as int));
            &&& (r is None <==> sp is None)
            &&& (r matches Some((out, j)) ==> (sp matches Some((v, rem)) && out == v && i < j
                <= s@.len() && s@.skip(j as int) == rem))
        }),
{
    let ghost suf = s@.skip(i as int);
    let n = s.unicode_len();
    if i == n {
        return None;
    }
    let c = s.get_char(i);
    proof {
        assert(suf[0] == s@[i as int]);
        assert(suf.skip(1) =~= s@.skip((i + 1) as int));
    }
    if c == 'N' {
        Some((None, i + 1))
    } else if c == 'J' {
        match p_num(s, i + 1) {
            None => None,
            Some((v, j)) => {
                if v > 0xFFFF_FFFFu64 {
                    None
                } else {
                    Some((Some(v as u32), j))
                }
            },
        }
    } else {
        None
    }
}

#[verifier::rlimit(50)]
#[verifier::spinoff_prover]
fn p_str_items(s: &str, i: usize, count: u64) -> (r: Option<(Vec<String>, usize)>)
    requires
        i <= s@.len(),
    ensures
        ({
            let sp = spec_parse_str_items(s@.skip(i as int), count as nat);
            &&& (r is None <==> sp is None)
            &&& (r matches Some((out, j)) ==> (sp matches Some((vs, rem)) && out@.map_values(
                |a: String| a@,
            ) == vs && i <= j <= s@.len() && s@.skip(j as int) == rem))
        }),
    decreases count,
{
    if count == 0 {
        let v: Vec<String> = Vec::new();
        proof {
            assert(v@.map_values(|a: String| a@) =~= Seq::<Seq<char>>::empty());
        }
        return Some((v, i));
    }
    match p_string(s, i) {
        None => None,
        Some((v0, j)) => {
            let ghost v0v = v0@;
            match p_str_items(s, j, count - 1) {
                None => None,
                Some((mut vec, j2)) => {
                    let ghost tail_map = vec@.map_values(|a: String| a@);
                    vec.insert(0, v0);
                    proof {
                        assert(vec@.map_values(|a: String| a@) =~= seq![v0v] + tail_map);
                    }
                    Some((vec, j2))
                },
            }
        },
    }
}

fn p_str_list(s: &str, i: usize) -> (r: Option<(Vec<String>, usize)>)
    requires
        i <= s@.len(),
    ensures
        ({
            let sp = spec_parse_str_list(s@.skip(i as int));
            &&& (r is None <==> sp is None)
            &&& (r matches Some((out, j)) ==> (sp matches Some((vs, rem)) && out@.map_values(
                |a: String| a@,
            ) == vs && i <= j <= s@.len() && s@.skip(j as int) == rem))
        }),
{
    let ghost suf = s@.skip(i as int);
    let n = s.unicode_len();
    if i == n {
        return None;
    }
    let c = s.get_char(i);
    proof {
        assert(suf[0] == s@[i as int]);
        assert(suf.skip(1) =~= s@.skip((i + 1) as int));
    }
    if c != 'L' {
        return None;
    }
    match p_num(s, i + 1) {
        None => None,
        Some((count, j)) => p_str_items(s, j, count),
    }
}

fn p_mount(s: &str, i: usize) -> (r: Option<(MountConfig, usize)>)
    requires
        i <= s@.len(),
    ensures
        ({
            let sp = spec_parse_mount(s@.skip(i as int));
            &&& (r is None <==> sp is None)
            &&& (r matches Some((out, j)) ==> (sp matches Some((v, rem)) && out@ == v && i < j
                <= s@.len() && s@.skip(j as int) == rem))
        }),
{
    let ghost suf = s@.skip(i as int);
    let n = s.unicode_len();
    if i == n {
        return None;
    }
    let c = s.get_char(i);
    proof {
        assert(suf[0] == s@[i as int]);
        assert(suf.skip(1) =~= s@.skip((i + 1) as int));
    }
    if c != 'M' {
        return None;
    }
    let (src, j1) = match p_string(s, i + 1) {
        None => {
            return None;
        },
        Some(p) => p,
    };
    let (dst, j2) = match p_string(s, j1) {
        None => {
            return None;
        },
        Some(p) => p,
    };
    let (fstype, j3) = match p_opt_string(s, j2) {
        None => {
            return None;
        },
        Some(p) => p,
    };
    let (is_bind, j4) = match p_bool(s, j3) {
        None => {
            return None;
        },
        Some(p) => p,
    };
    let (rw, j5) = match p_bool(s, j4) {
        None => {
            return None;
        },
        Some(p) => p,
    };
    let out = MountConfig { src, dst, fstype, is_bind, rw };
    Some((out, j5))
}

#[verifier::rlimit(100)]
#[verifier::spinoff_prover]
fn p_mount_items(s: &str, i: usize, count: u64) -> (r: Option<(Vec<MountConfig>, usize)>)
    requires
        i <= s@.len(),
    ensures
        ({
            let sp = spec_parse_mount_items(s@.skip(i as int), count as nat);
            &&& (r is None <==> sp is None)
            &&& (r matches Some((out, j)) ==> (sp matches Some((vs, rem)) && out@.map_values(
                |a: MountConfig| a@,
            ) == vs && i <= j <= s@.len() && s@.skip(j as int) == rem))
        }),
    decreases count,
{
    if count == 0 {
        let v: Vec<MountConfig> = Vec::new();
        proof {
            assert(v@.map_values(|a: MountConfig| a@) =~= Seq::<MountV>::empty());
        }
        return Some((v, i));
    }
    match p_mount(s, i) {
        None => None,
        Some((m0, j)) => {
            let ghost m0v = m0@;
            match p_mount_items(s, j, count - 1) {
                None => None,
                Some((mut vec, j2)) => {
                    let ghost tail_map = vec@.map_values(|a: MountConfig| a@);
                    vec.insert(0, m0);
                    proof {
                        assert(vec@.map_values(|a: MountConfig| a@) =~= seq![m0v] + tail_map);
                    }
                    Some((vec, j2))
                },
            }
        },
    }
}

fn p_mount_list(s: &str, i: usize) -> (r: Option<(Vec<MountConfig>, usize)>)
    requires
        i <= s@.len(),
    ensures
        ({
            let sp = spec_parse_mount_list(s@.skip(i as int));
            &&& (r is None <==> sp is None)
            &&& (r matches Some((out, j)) ==> (sp matches Some((vs, rem)) && out@.map_values(
                |a: MountConfig| a@,
            ) == vs && i <= j <= s@.len() && s@.skip(j as int) == rem))
        }),
{
    let ghost suf = s@.skip(i as int);
    let n = s.unicode_len();
    if i == n {
        return None;
    }
    let c = s.get_char(i);
    proof {
        assert(suf[0] == s@[i as int]);
        assert(suf.skip(1) =~= s@.skip((i + 1) as int));
    }
    if c != 'L' {
        return None;
    }
    match p_num(s, i + 1) {
        None => None,
        Some((count, j)) => p_mount_items(s, j, count),
    }
}

#[verifier::rlimit(100)]
#[verifier::spinoff_prover]
fn p_config(s: &str, i: usize) -> (r: Option<(JailConfig, usize)>)
    requires
        i <= s@.len(),
    ensures
        ({
            let sp = spec_parse_config(s@.skip(i as int));
            &&& (r is None <==> sp is None)
            &&& (r matches Some((out, j)) ==> (sp matches Some((v, rem)) && out@ == v && i < j
                <= s@.len() && s@.skip(j as int) == rem))
        }),
{
    let ghost suf = s@.skip(i as int);
    let n = s.unicode_len();
    if i == n {
        return None;
    }
    let c = s.get_char(i);
    proof {
        assert(suf[0] == s@[i as int]);
        assert(suf.skip(1) =~= s@.skip((i + 1) as int));
    }
    if c != 'C' {
        return None;
    }
    let (name, j1) = match p_string(s, i + 1) {
        None => {
            return None;
        },
        Some(p) => p,
    };
    let (hostname, j2) = match p_opt_string(s, j1) {
        None => {
            return None;
        },
        Some(p) => p,
    };
    let (chroot_dir, j3) = match p_opt_string(s, j2) {
        None => {
            return None;
        },
        Some(p) => p,
    };
    let (exec_bin, j4) = match p_string(s, j3) {
        None => {
            return None;
        },
        Some(p) => p,
    };
    let (exec_args, j5) = match p_str_list(s, j4) {
        None => {
            return None;
        },
        Some(p) => p,
    };
    let (clone_newpid, j6) = match p_bool(s, j5) {
        None => {
            return None;
        },
        Some(p) => p,
    };
    let (clone_newnet, j7) = match p_bool(s, j6) {
        None => {
            return None;
        },
        Some(p) => p,
    };
    let (clone_newns, j8) = match p_bool(s, j7) {
        None => {
            return None;
        },
        Some(p) => p,
    };
    let (clone_newuts, j9) = match p_bool(s, j8) {
        None => {
            return None;
        },
        Some(p) => p,
    };
    let (clone_newipc, j10) = match p_bool(s, j9) {
        None => {
            return None;
        },
        Some(p) => p,
    };
    let (clone_newuser, j11) = match p_bool(s, j10) {
        None => {
            return None;
        },
        Some(p) => p,
    };
    let (rlimit_as, j12) = match p_opt_u64(s, j11) {
        None => {
            return None;
        },
        Some(p) => p,
    };
    let (rlimit_cpu, j13) = match p_opt_u64(s, j12) {
        None => {
            return None;
        },
        Some(p) => p,
    };
    let (rlimit_nofile, j14) = match p_opt_u64(s, j13) {
        None => {
            return None;
        },
        Some(p) => p,
    };
    let (mounts, j15) = match p_mount_list(s, j14) {
        None => {
            return None;
        },
        Some(p) => p,
    };
    let (uid, j16) = match p_opt_u32(s, j15) {
        None => {
            return None;
        },
        Some(p) => p,
    };
    let (gid, j17) = match p_opt_u32(s, j16) {
        None => {
            return None;
        },
        Some(p) => p,
    };
    let (time_limit, j18) = match p_opt_u64(s, j17) {
        None => {
            return None;
        },
        Some(p) => p,
    };
    let out = JailConfig {
        name,
        hostname,
        chroot_dir,
        exec_bin,
        exec_args,
        clone_newpid,
        clone_newnet,
        clone_newns,
        clone_newuts,
        clone_newipc,
        clone_newuser,
        rlimit_as,
        rlimit_cpu,
        rlimit_nofile,
        mounts,
        uid,
        gid,
        time_limit,
    };
    proof {
        let spc = spec_parse_config(suf);
        assert(spc matches Some((v, rem)) && out@ =~= v && rem == s@.skip(j18 as int));
    }
    Some((out, j18))
}

/// Parse one configuration from the canonical text encoding; the whole
/// input must be exactly one configuration.
pub fn config_from_text(s: &str) -> (r: Option<JailConfig>)
    ensures
        ({
            let sp = spec_parse_config_full(s@);
            &&& (r is None <==> sp is None)
            &&& (r matches Some(out) ==> (sp matches Some(v) && out@ == v))
        }),
{
    proof {
        assert(s@.skip(0) =~= s@);
    }
    match p_config(s, 0) {
        None => None,
        Some((out, j)) => {
            if j == s.unicode_len() {
                proof {
                    assert(s@.skip(j as int).len() == 0);
                }
                Some(out)
            } else {
                proof {
                    assert(s@.skip(j as int).len() != 0);
                }
                None
            }
        },
    }
}

} // verus!
