//! Laws of the flag emitter, stated and proved once over every
//! profile: where the quiet flag stands, how list options keep their
//! append order, and how the capability-drop flags follow the
//! capabilities switch.

use crate::command::FireJailCommandView;
use crate::emit::bind_flags;
use crate::emit::caps_flags;
use crate::emit::cpu_flags;
use crate::emit::emitted_args;
use crate::emit::flags_of_table;
use crate::emit::opt_flag;
use crate::emit::opt_value_flag;
use crate::emit::prefixed_flags;
use crate::emit::profile_flags;
use crate::emit::scalar_flags;
use crate::emit::switch_flags;
use crate::emit::switch_table;
use crate::profile::ProfileView;
use crate::settings::CapsDropView;
use crate::strutil::decimal;
use crate::strutil::join_comma;
use vstd::prelude::*;

verus! {

/// A list option's flags appear in exactly append order, one flag per
/// element, with no deduplication: entry `i` of the list yields flag
/// `i` of its family, the prefix followed by the entry verbatim.
pub proof fn lemma_list_flags_in_order(prefix: Seq<char>, items: Seq<Seq<char>>)
    ensures
        prefixed_flags(prefix, items).len() == items.len(),
        forall|i: int|
            0 <= i < items.len() ==> prefixed_flags(prefix, items)[i] == prefix + items[i],
{
}

/// Bind-pair flags appear in exactly append order, one flag per pair,
/// each the source and target joined by a comma.
pub proof fn lemma_bind_flags_in_order(bind: Seq<(Seq<char>, Seq<char>)>)
    ensures
        bind_flags(bind).len() == bind.len(),
        forall|i: int|
            0 <= i < bind.len() ==> bind_flags(bind)[i] == "--bind="@ + bind[i].0 + seq![',']
                + bind[i].1,
{
}

/// Where the bind family starts inside the emitted profile flags.
pub open spec fn bind_flags_offset(p: ProfileView) -> int {
    (switch_flags(p).len() + caps_flags(p).len() + scalar_flags(p).len() + cpu_flags(
        p.cpu,
    ).len()) as int
}

/// Where the DNS family starts inside the emitted profile flags.
pub open spec fn dns_flags_offset(p: ProfileView) -> int {
    bind_flags_offset(p) + p.bind.len() as int
}

/// Where the blacklist family starts inside the emitted profile flags.
pub open spec fn blacklist_flags_offset(p: ProfileView) -> int {
    dns_flags_offset(p) + p.dns.len() as int
}

/// Where the ignore family starts inside the emitted profile flags.
pub open spec fn ignore_flags_offset(p: ProfileView) -> int {
    blacklist_flags_offset(p) + p.blacklists.len() as int
}

/// Each list option's family stands contiguously at its offset inside
/// the emitted profile flags, in append order.
pub proof fn lemma_list_families_in_place(p: ProfileView)
    ensures
        profile_flags(p).len() == ignore_flags_offset(p) + p.ignore.len(),
        profile_flags(p).subrange(bind_flags_offset(p), dns_flags_offset(p)) == bind_flags(p.bind),
        profile_flags(p).subrange(dns_flags_offset(p), blacklist_flags_offset(p))
            == prefixed_flags("--dns="@, p.dns),
        profile_flags(p).subrange(blacklist_flags_offset(p), ignore_flags_offset(p))
            == prefixed_flags("--blacklist="@, p.blacklists),
        profile_flags(p).subrange(ignore_flags_offset(p), ignore_flags_offset(p) + p.ignore.len())
            == prefixed_flags("--ignore="@, p.ignore),
{
    assert(profile_flags(p).subrange(bind_flags_offset(p), dns_flags_offset(p)) =~= bind_flags(
        p.bind,
    ));
    assert(profile_flags(p).subrange(dns_flags_offset(p), blacklist_flags_offset(p))
        =~= prefixed_flags("--dns="@, p.dns));
    assert(profile_flags(p).subrange(blacklist_flags_offset(p), ignore_flags_offset(p))
        =~= prefixed_flags("--blacklist="@, p.blacklists));
    assert(profile_flags(p).subrange(ignore_flags_offset(p), ignore_flags_offset(p)
        + p.ignore.len()) =~= prefixed_flags("--ignore="@, p.ignore));
}

/// Appending the same element to a list option twice yields two
/// identical flags, standing side by side in the emitted family.
pub proof fn lemma_append_twice(prefix: Seq<char>, items: Seq<Seq<char>>, x: Seq<char>)
    ensures
        prefixed_flags(prefix, items.push(x).push(x)) == prefixed_flags(prefix, items).push(
            prefix + x,
        ).push(prefix + x),
        prefixed_flags(prefix, items.push(x).push(x))[items.len() as int] == prefixed_flags(
            prefix,
            items.push(x).push(x),
        )[items.len() as int + 1],
{
    assert(prefixed_flags(prefix, items.push(x).push(x)) =~= prefixed_flags(prefix, items).push(
        prefix + x,
    ).push(prefix + x));
}

/// Under an enabled capabilities switch an explicit settings value
/// emits the keep flag (when the keep-list is non-empty) and then the
/// drop flag (when the drop-list is non-empty), each carrying its list
/// comma-joined in list order, and nothing else.
pub proof fn lemma_caps_settings_flags(
    p: ProfileView,
    whitelist: Seq<Seq<char>>,
    blacklist: Seq<Seq<char>>,
)
    requires
        p.caps,
        p.caps_drop == (CapsDropView::Settings { whitelist, blacklist }),
    ensures
        caps_flags(p) == opt_flag(whitelist.len() > 0, "--caps.keep="@ + join_comma(whitelist))
            + opt_flag(blacklist.len() > 0, "--caps.drop="@ + join_comma(blacklist)),
{
}

/// Disabling the capabilities switch silences every capability-drop
/// flag: nothing of the capability family is emitted, and the whole
/// emitted vector is the same whatever capability-drop setting the
/// profile holds.
pub proof fn lemma_caps_disabled(p: ProfileView, cd: CapsDropView)
    requires
        !p.caps,
    ensures
        caps_flags(p) == Seq::<Seq<char>>::empty(),
        profile_flags(ProfileView { caps_drop: cd, ..p }) == profile_flags(p),
{
    let q = ProfileView { caps_drop: cd, ..p };
    assert(switch_table(q) =~= switch_table(p));
    assert(profile_flags(q) =~= profile_flags(p));
}


/// Every emitted switch flag is the flag of an enabled table entry.
proof fn lemma_flags_of_table_membership(t: Seq<(bool, Seq<char>)>, k: int)
    requires
        0 <= k < flags_of_table(t).len(),
    ensures
        exists|j: int| 0 <= j < t.len() && t[j].0 && flags_of_table(t)[k] == t[j].1,
    decreases t.len(),
{
    assert(t.len() > 0);
    let head = opt_flag(t[0].0, t[0].1);
    let rest = flags_of_table(t.drop_first());
    if k < head.len() {
        assert(t[0].0);
        assert(flags_of_table(t)[k] == t[0].1);
        assert(0 <= 0 < t.len() && t[0].0 && flags_of_table(t)[k] == t[0].1);
    } else {
        lemma_flags_of_table_membership(t.drop_first(), k - head.len());
        let u = t.drop_first();
        let j0 = choose|j: int| 0 <= j < u.len() && u[j].0 && rest[k - head.len()] == u[j].1;
        assert(flags_of_table(t)[k] == rest[k - head.len()]);
        assert(t[j0 + 1] == u[j0]);
        assert(0 <= j0 + 1 < t.len() && t[j0 + 1].0 && flags_of_table(t)[k] == t[j0 + 1].1);
    }
}

/// With the verbose switch unset the emitted vector's first entry is
/// the quiet flag.
pub proof fn lemma_quiet_first(c: FireJailCommandView)
    requires
        !c.profile.verbose,
    ensures
        emitted_args(c).len() > 0,
        emitted_args(c)[0] == "--quiet"@,
{
    let p = c.profile;
    let t = switch_table(p);
    assert(t[0] == (!p.verbose, "--quiet"@));
    assert(flags_of_table(t) == opt_flag(t[0].0, t[0].1) + flags_of_table(t.drop_first()));
    assert(opt_flag(t[0].0, t[0].1) == seq!["--quiet"@]);
    assert(switch_flags(p)[0] == "--quiet"@);
    assert(profile_flags(p)[0] == "--quiet"@);
    assert(emitted_args(c)[0] == "--quiet"@);
}

/// With the verbose switch set the quiet flag is absent from the
/// emitted launcher flags and nothing replaces it.  (What follows the
/// separator belongs to the target program and is not a launcher
/// flag.)
pub proof fn lemma_verbose_no_quiet(p: ProfileView)
    requires
        p.verbose,
    ensures
        forall|i: int| 0 <= i < profile_flags(p).len() ==> profile_flags(p)[i] != "--quiet"@,
{
    reveal_strlit("--quiet");
    reveal_strlit("--allow-debuggers");
    reveal_strlit("--caps");
    reveal_strlit("--allusers");
    reveal_strlit("--apparmor");
    reveal_strlit("--appimage");
    reveal_strlit("--deterministic-exit-code");
    reveal_strlit("--disable-mnt");
    reveal_strlit("--caps.drop=all");
    reveal_strlit("--caps.keep=");
    reveal_strlit("--caps.drop=");
    reveal_strlit("--cgroup=");
    reveal_strlit("--hostname=");
    reveal_strlit("--hosts-file=");
    reveal_strlit("--cpu=");
    reveal_strlit("--bind=");
    reveal_strlit("--dns=");
    reveal_strlit("--blacklist=");
    reveal_strlit("--ignore=");
    let q = "--quiet"@;
    assert(q.len() == 7);
    assert(q[2] == 'q');
    let t = switch_table(p);
    let s1 = switch_flags(p);
    let s2 = caps_flags(p);
    let s3 = scalar_flags(p);
    let s4 = cpu_flags(p.cpu);
    let s5 = bind_flags(p.bind);
    let s6 = prefixed_flags("--dns="@, p.dns);
    let s7 = prefixed_flags("--blacklist="@, p.blacklists);
    let s8 = prefixed_flags("--ignore="@, p.ignore);
    assert forall|i: int| 0 <= i < s1.len() implies s1[i] != q by {
        lemma_flags_of_table_membership(t, i);
        let j = choose|j: int| 0 <= j < t.len() && t[j].0 && s1[i] == t[j].1;
        assert(!t[0].0);
        if j == 1 {
            assert(s1[i].len() == 17);
        } else if j == 2 {
            assert(s1[i].len() == 6);
        } else if j == 3 {
            assert(s1[i].len() == 10);
        } else if j == 4 {
            assert(s1[i].len() == 10);
        } else if j == 5 {
            assert(s1[i].len() == 10);
        } else if j == 6 {
            assert(s1[i].len() == 25);
        } else {
            assert(j == 7);
            assert(s1[i].len() == 13);
        }
        assert(s1[i].len() != 7);
    }
    assert forall|i: int| 0 <= i < s2.len() implies s2[i] != q by {
        if p.caps {
            match p.caps_drop {
                CapsDropView::NotSpecified => {
                    assert(s2.len() == 0);
                },
                CapsDropView::DropAll => {
                    assert(s2[i] == "--caps.drop=all"@);
                    assert(s2[i].len() == 15);
                },
                CapsDropView::Settings { whitelist, blacklist } => {
                    let keep = opt_flag(
                        whitelist.len() > 0,
                        "--caps.keep="@ + join_comma(whitelist),
                    );
                    if i < keep.len() {
                        assert(s2[i] == "--caps.keep="@ + join_comma(whitelist));
                        assert(s2[i][2] == 'c');
                    } else {
                        assert(s2[i] == "--caps.drop="@ + join_comma(blacklist));
                        assert(s2[i][2] == 'c');
                    }
                },
            }
        }
    }
    assert forall|i: int| 0 <= i < s3.len() implies s3[i] != q by {
        let f1 = opt_value_flag("--cgroup="@, p.cgroup);
        let f2 = opt_value_flag("--hostname="@, p.hostname);
        if i < f1.len() {
            assert(s3[i] == "--cgroup="@ + p.cgroup->0);
            assert(s3[i][2] == 'c');
        } else if i < f1.len() + f2.len() {
            assert(s3[i] == "--hostname="@ + p.hostname->0);
            assert(s3[i][2] == 'h');
        } else {
            assert(s3[i] == "--hosts-file="@ + p.hosts_file->0);
            assert(s3[i][2] == 'h');
        }
    }
    assert forall|i: int| 0 <= i < s4.len() implies s4[i] != q by {
        assert(s4[i] == "--cpu="@ + join_comma(p.cpu.map_values(|n: usize| decimal(n as nat))));
        assert(s4[i][2] == 'c');
    }
    assert forall|i: int| 0 <= i < s5.len() implies s5[i] != q by {
        assert(s5[i] == "--bind="@ + p.bind[i].0 + seq![','] + p.bind[i].1);
        assert(("--bind="@ + p.bind[i].0)[2] == 'b');
        assert(("--bind="@ + p.bind[i].0 + seq![','])[2] == 'b');
        assert(s5[i][2] == 'b');
    }
    assert forall|i: int| 0 <= i < s6.len() implies s6[i] != q by {
        assert(s6[i] == "--dns="@ + p.dns[i]);
        assert(s6[i][2] == 'd');
    }
    assert forall|i: int| 0 <= i < s7.len() implies s7[i] != q by {
        assert(s7[i] == "--blacklist="@ + p.blacklists[i]);
        assert(s7[i][2] == 'b');
    }
    assert forall|i: int| 0 <= i < s8.len() implies s8[i] != q by {
        assert(s8[i] == "--ignore="@ + p.ignore[i]);
        assert(s8[i][2] == 'i');
    }
    assert forall|i: int| 0 <= i < profile_flags(p).len() implies profile_flags(p)[i] != q by {
        let a4 = s1 + s2 + s3 + s4;
        let a5 = a4 + s5;
        let a6 = a5 + s6;
        let a7 = a6 + s7;
        assert(profile_flags(p) == a7 + s8);
        if i < s1.len() {
            assert(profile_flags(p)[i] == s1[i]);
        } else if i < s1.len() + s2.len() {
            assert(profile_flags(p)[i] == s2[i - s1.len()]);
        } else if i < s1.len() + s2.len() + s3.len() {
            assert(profile_flags(p)[i] == s3[i - s1.len() - s2.len()]);
        } else if i < a4.len() {
            assert(profile_flags(p)[i] == s4[i - s1.len() - s2.len() - s3.len()]);
        } else if i < a5.len() {
            assert(profile_flags(p)[i] == s5[i - a4.len()]);
        } else if i < a6.len() {
            assert(profile_flags(p)[i] == s6[i - a5.len()]);
        } else if i < a7.len() {
            assert(profile_flags(p)[i] == s7[i - a6.len()]);
        } else {
            assert(profile_flags(p)[i] == s8[i - a7.len()]);
        }
    }
}


/// Setting the verbose switch removes exactly the quiet flag and emits
/// nothing in its place: the flags of a profile with verbose unset are
/// the quiet flag followed, unchanged, by the flags of the same profile
/// with verbose set.
#[verifier::rlimit(30)]
pub proof fn lemma_verbose_removes_only_quiet(p: ProfileView)
    ensures
        profile_flags(ProfileView { verbose: false, ..p }) == seq!["--quiet"@] + profile_flags(
            ProfileView { verbose: true, ..p },
        ),
{
    let a = ProfileView { verbose: false, ..p };
    let b = ProfileView { verbose: true, ..p };
    let ta = switch_table(a);
    let tb = switch_table(b);
    assert(ta.drop_first() =~= tb.drop_first());
    assert(flags_of_table(ta) == opt_flag(true, "--quiet"@) + flags_of_table(ta.drop_first()));
    assert(flags_of_table(tb) == opt_flag(false, "--quiet"@) + flags_of_table(tb.drop_first()));
    assert(switch_flags(b) =~= flags_of_table(tb.drop_first()));
    assert(switch_flags(a) =~= seq!["--quiet"@] + switch_flags(b));
    assert(caps_flags(a) == caps_flags(b));
    assert(scalar_flags(a) == scalar_flags(b));
    assert(profile_flags(a) =~= seq!["--quiet"@] + profile_flags(b));
}

} // verus!
