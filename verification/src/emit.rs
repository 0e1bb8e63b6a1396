//! The flag emitter: the deterministic mapping from a finished profile
//! to the ordered launcher argument vector.
//!
//! The emission order is a strict total order over the option families:
//! the quiet flag (unless verbose), the boolean switches, the
//! capability-drop flags, the scalar options, the CPU list, the bind
//! pairs, the DNS servers, the blacklist paths, the ignore entries, and
//! finally the separator followed by the target executable and its own
//! arguments.

use crate::command::FireJailCommandView;
use crate::profile::Profile;
use crate::profile::ProfileView;
use crate::settings::CapsDrop;
use crate::settings::CapsDropView;
use crate::strutil::decimal;
use crate::strutil::join_comma;
use vstd::prelude::*;
use vstd::string::StringExecFns;

verus! {

/// One flag when `enabled` holds, nothing otherwise.
pub open spec fn opt_flag(enabled: bool, flag: Seq<char>) -> Seq<Seq<char>> {
    if enabled {
        seq![flag]
    } else {
        Seq::empty()
    }
}

/// One `prefix`+`value` flag when the scalar option is set, nothing
/// otherwise.
pub open spec fn opt_value_flag(prefix: Seq<char>, v: Option<Seq<char>>) -> Seq<Seq<char>> {
    match v {
        Option::Some(s) => seq![prefix + s],
        Option::None => Seq::empty(),
    }
}

/// The switch table: every boolean switch beside its fixed flag name,
/// in emission order.  The quiet flag leads and is enabled exactly when
/// the verbose switch is not.  Adding a switch is one more table entry.
pub open spec fn switch_table(p: ProfileView) -> Seq<(bool, Seq<char>)> {
    seq![
        (!p.verbose, "--quiet"@),
        (p.allow_debuggers, "--allow-debuggers"@),
        (p.caps, "--caps"@),
        (p.allusers, "--allusers"@),
        (p.apparmor, "--apparmor"@),
        (p.appimage, "--appimage"@),
        (p.deterministic_exit_code, "--deterministic-exit-code"@),
        (p.disable_mnt, "--disable-mnt"@),
    ]
}

/// The flags of the enabled entries of a switch table, in table order.
pub open spec fn flags_of_table(t: Seq<(bool, Seq<char>)>) -> Seq<Seq<char>>
    decreases t.len(),
{
    if t.len() == 0 {
        Seq::empty()
    } else {
        opt_flag(t[0].0, t[0].1) + flags_of_table(t.drop_first())
    }
}

/// The quiet flag (unless verbose is set) followed by one fixed flag
/// per enabled boolean switch.
pub open spec fn switch_flags(p: ProfileView) -> Seq<Seq<char>> {
    flags_of_table(switch_table(p))
}

/// Taking one more table entry extends the emitted flags by exactly
/// that entry.
proof fn lemma_flags_of_table_step(t: Seq<(bool, Seq<char>)>, i: int)
    requires
        0 <= i < t.len(),
    ensures
        flags_of_table(t.take(i + 1)) == flags_of_table(t.take(i)) + opt_flag(t[i].0, t[i].1),
    decreases i,
{
    if i == 0 {
        assert(t.take(1).drop_first() =~= t.take(0));
        assert(t.take(0).len() == 0);
        assert(t.take(1)[0] == t[0]);
        assert(flags_of_table(t.take(1)) =~= flags_of_table(t.take(0)) + opt_flag(
            t[0].0,
            t[0].1,
        ));
    } else {
        let u = t.drop_first();
        lemma_flags_of_table_step(u, i - 1);
        assert(t.take(i + 1).drop_first() =~= u.take(i));
        assert(t.take(i).drop_first() =~= u.take(i - 1));
        assert(t.take(i + 1)[0] == t[0]);
        assert(t.take(i)[0] == t[0]);
        assert(u[i - 1] == t[i]);
        assert(flags_of_table(t.take(i + 1)) =~= flags_of_table(t.take(i)) + opt_flag(
            t[i].0,
            t[i].1,
        ));
    }
}

/// The capability-drop flags: nothing unless the capabilities switch is
/// enabled; then one flag for the drop-all request, or, for an explicit
/// settings value, the comma-joined keep-list and drop-list, each only
/// when non-empty and in that order.
pub open spec fn caps_flags(p: ProfileView) -> Seq<Seq<char>> {
    if p.caps {
        match p.caps_drop {
            CapsDropView::NotSpecified => Seq::empty(),
            CapsDropView::DropAll => seq!["--caps.drop=all"@],
            CapsDropView::Settings { whitelist, blacklist } => opt_flag(
                whitelist.len() > 0,
                "--caps.keep="@ + join_comma(whitelist),
            ) + opt_flag(blacklist.len() > 0, "--caps.drop="@ + join_comma(blacklist)),
        }
    } else {
        Seq::empty()
    }
}

/// One flag per set scalar option: control group, hostname, hosts file.
pub open spec fn scalar_flags(p: ProfileView) -> Seq<Seq<char>> {
    opt_value_flag("--cgroup="@, p.cgroup) + opt_value_flag("--hostname="@, p.hostname)
        + opt_value_flag("--hosts-file="@, p.hosts_file)
}

/// One flag carrying every CPU index in decimal, comma-joined, when the
/// CPU list is non-empty.
pub open spec fn cpu_flags(cpu: Seq<usize>) -> Seq<Seq<char>> {
    opt_flag(cpu.len() > 0, "--cpu="@ + join_comma(cpu.map_values(|n: usize| decimal(n as nat))))
}

/// One flag per bind pair, both paths joined with a comma, in append
/// order.
pub open spec fn bind_flags(bind: Seq<(Seq<char>, Seq<char>)>) -> Seq<Seq<char>> {
    bind.map_values(|ab: (Seq<char>, Seq<char>)| "--bind="@ + ab.0 + seq![','] + ab.1)
}

/// One `prefix`+`entry` flag per list entry, in append order.
pub open spec fn prefixed_flags(prefix: Seq<char>, items: Seq<Seq<char>>) -> Seq<Seq<char>> {
    items.map_values(|s: Seq<char>| prefix + s)
}

/// Every launcher flag of a profile, in emission order.
pub open spec fn profile_flags(p: ProfileView) -> Seq<Seq<char>> {
    switch_flags(p) + caps_flags(p) + scalar_flags(p) + cpu_flags(p.cpu) + bind_flags(p.bind)
        + prefixed_flags("--dns="@, p.dns) + prefixed_flags("--blacklist="@, p.blacklists)
        + prefixed_flags("--ignore="@, p.ignore)
}

/// The complete launcher argument vector: the profile's flags, the
/// separator, the target executable and the target's own arguments.
pub open spec fn emitted_args(c: FireJailCommandView) -> Seq<Seq<char>> {
    profile_flags(c.profile) + seq!["--"@, c.executable] + c.arg_vec
}

/// Appends one fixed flag.
pub(crate) fn push_flag(out: &mut Vec<String>, f: &str)
    ensures
        final(out).deep_view() == old(out).deep_view() + seq![f@],
{
    out.push(f.to_owned());
    proof {
        assert(out.deep_view() =~= old(out).deep_view() + seq![f@]);
    }
}

/// Appends one already assembled flag.
pub(crate) fn push_string_flag(out: &mut Vec<String>, f: String)
    ensures
        final(out).deep_view() == old(out).deep_view() + seq![f@],
{
    out.push(f);
    proof {
        assert(out.deep_view() =~= old(out).deep_view() + seq![f@]);
    }
}

/// Appends the flags of the enabled entries of a switch table, in
/// table order.
pub(crate) fn push_table_flags(out: &mut Vec<String>, table: &Vec<(bool, &str)>)
    ensures
        final(out).deep_view() == old(out).deep_view() + flags_of_table(table.deep_view()),
{
    let ghost d0: Seq<Seq<char>> = out.deep_view();
    let ghost tv: Seq<(bool, Seq<char>)> = table.deep_view();
    let mut i: usize = 0;
    proof {
        assert(tv.take(0).len() == 0);
        assert(out.deep_view() =~= d0 + flags_of_table(tv.take(0)));
    }
    while i < table.len()
        invariant
            i <= table@.len(),
            tv == table.deep_view(),
            out.deep_view() == d0 + flags_of_table(tv.take(i as int)),
        decreases table@.len() - i,
    {
        let pair: &(bool, &str) = &table[i];
        if pair.0 {
            push_flag(out, pair.1);
        }
        proof {
            lemma_flags_of_table_step(tv, i as int);
            assert(tv[i as int] == (table@[i as int].0, table@[i as int].1@));
            assert(out.deep_view() =~= d0 + flags_of_table(tv.take(i as int + 1)));
        }
        i = i + 1;
    }
    proof {
        assert(tv.take(table@.len() as int) =~= tv);
    }
}

/// Appends the quiet flag and the enabled switch flags.
pub(crate) fn push_switch_flags(out: &mut Vec<String>, p: &Profile)
    ensures
        final(out).deep_view() == old(out).deep_view() + switch_flags(p@),
{
    let mut table: Vec<(bool, &str)> = Vec::new();
    table.push((!p.verbose, "--quiet"));
    table.push((p.allow_debuggers, "--allow-debuggers"));
    table.push((p.caps, "--caps"));
    table.push((p.allusers, "--allusers"));
    table.push((p.apparmor, "--apparmor"));
    table.push((p.appimage, "--appimage"));
    table.push((p.deterministic_exit_code, "--deterministic-exit-code"));
    table.push((p.disable_mnt, "--disable-mnt"));
    proof {
        assert(table.deep_view() =~= switch_table(p@));
    }
    push_table_flags(out, &table);
}

/// Appends the capability-drop flags.
pub(crate) fn push_caps_flags(out: &mut Vec<String>, p: &Profile)
    ensures
        final(out).deep_view() == old(out).deep_view() + caps_flags(p@),
{
    let ghost d0: Seq<Seq<char>> = out.deep_view();
    if p.caps {
        match &p.caps_drop {
            CapsDrop::NotSpecified => {
                proof {
                    assert(out.deep_view() =~= d0 + caps_flags(p@));
                }
            },
            CapsDrop::DropAll => {
                push_flag(out, "--caps.drop=all");
                proof {
                    assert(out.deep_view() =~= d0 + caps_flags(p@));
                }
            },
            CapsDrop::Settings { whitelist, blacklist } => {
                if whitelist.len() > 0 {
                    let mut f = "--caps.keep=".to_owned();
                    let w = crate::strutil::join_comma_strings(whitelist);
                    f.append(w.as_str());
                    push_string_flag(out, f);
                }
                let ghost d1: Seq<Seq<char>> = out.deep_view();
                proof {
                    assert(d1 =~= d0 + opt_flag(
                        whitelist.deep_view().len() > 0,
                        "--caps.keep="@ + join_comma(whitelist.deep_view()),
                    ));
                }
                if blacklist.len() > 0 {
                    let mut f = "--caps.drop=".to_owned();
                    let b = crate::strutil::join_comma_strings(blacklist);
                    f.append(b.as_str());
                    push_string_flag(out, f);
                }
                proof {
                    assert(out.deep_view() =~= d1 + opt_flag(
                        blacklist.deep_view().len() > 0,
                        "--caps.drop="@ + join_comma(blacklist.deep_view()),
                    ));
                    assert(out.deep_view() =~= d0 + caps_flags(p@));
                }
            },
        }
    } else {
        proof {
            assert(out.deep_view() =~= d0 + caps_flags(p@));
        }
    }
}

/// Appends the scalar-option flags.
pub(crate) fn push_scalar_flags(out: &mut Vec<String>, p: &Profile)
    ensures
        final(out).deep_view() == old(out).deep_view() + scalar_flags(p@),
{
    let ghost d0: Seq<Seq<char>> = out.deep_view();
    if let Some(g) = &p.cgroup {
        let mut f = "--cgroup=".to_owned();
        f.append(g.as_str());
        push_string_flag(out, f);
    }
    let ghost d1: Seq<Seq<char>> = out.deep_view();
    proof {
        assert(d1 =~= d0 + opt_value_flag("--cgroup="@, p@.cgroup));
    }
    if let Some(h) = &p.hostname {
        let mut f = "--hostname=".to_owned();
        f.append(h.as_str());
        push_string_flag(out, f);
    }
    let ghost d2: Seq<Seq<char>> = out.deep_view();
    proof {
        assert(d2 =~= d1 + opt_value_flag("--hostname="@, p@.hostname));
    }
    if let Some(h) = &p.hosts_file {
        let mut f = "--hosts-file=".to_owned();
        f.append(h.as_str());
        push_string_flag(out, f);
    }
    proof {
        assert(out.deep_view() =~= d2 + opt_value_flag("--hosts-file="@, p@.hosts_file));
        assert(out.deep_view() =~= d0 + scalar_flags(p@));
    }
}

/// Appends the CPU-list flag.
pub(crate) fn push_cpu_flags(out: &mut Vec<String>, p: &Profile)
    ensures
        final(out).deep_view() == old(out).deep_view() + cpu_flags(p@.cpu),
{
    let ghost d0: Seq<Seq<char>> = out.deep_view();
    if p.cpu.len() > 0 {
        let mut f = "--cpu=".to_owned();
        let j = crate::strutil::join_comma_decimals(&p.cpu);
        f.append(j.as_str());
        push_string_flag(out, f);
    }
    proof {
        assert(out.deep_view() =~= d0 + cpu_flags(p@.cpu));
    }
}

/// Appends one flag per bind pair, in order.
pub(crate) fn push_bind_flags(out: &mut Vec<String>, bind: &Vec<(String, String)>)
    ensures
        final(out).deep_view() == old(out).deep_view() + bind_flags(bind.deep_view()),
{
    let ghost d0: Seq<Seq<char>> = out.deep_view();
    let ghost dv: Seq<(Seq<char>, Seq<char>)> = bind.deep_view();
    let mut i: usize = 0;
    proof {
        assert(out.deep_view() =~= d0 + bind_flags(dv.take(0)));
    }
    while i < bind.len()
        invariant
            i <= bind@.len(),
            dv == bind.deep_view(),
            out.deep_view() == d0 + bind_flags(dv.take(i as int)),
        decreases bind@.len() - i,
    {
        let pair: &(String, String) = &bind[i];
        let mut f = "--bind=".to_owned();
        f.append(pair.0.as_str());
        f.append(",");
        f.append(pair.1.as_str());
        push_string_flag(out, f);
        proof {
            reveal_strlit(",");
            assert(","@ =~= seq![',']);
            assert(dv[i as int] == (bind@[i as int].0@, bind@[i as int].1@));
            assert(f@ == "--bind="@ + dv[i as int].0 + seq![','] + dv[i as int].1);
            assert(bind_flags(dv.take(i as int + 1)) =~= bind_flags(dv.take(i as int)).push(f@));
            assert(out.deep_view() =~= d0 + bind_flags(dv.take(i as int + 1)));
        }
        i = i + 1;
    }
    proof {
        assert(dv.take(bind@.len() as int) =~= dv);
    }
}

/// Appends one `prefix`+`entry` flag per list entry, in order.
pub(crate) fn push_prefixed_flags(out: &mut Vec<String>, prefix: &str, items: &Vec<String>)
    ensures
        final(out).deep_view() == old(out).deep_view() + prefixed_flags(
            prefix@,
            items.deep_view(),
        ),
{
    let ghost d0: Seq<Seq<char>> = out.deep_view();
    let ghost dv: Seq<Seq<char>> = items.deep_view();
    let mut i: usize = 0;
    proof {
        assert(out.deep_view() =~= d0 + prefixed_flags(prefix@, dv.take(0)));
    }
    while i < items.len()
        invariant
            i <= items@.len(),
            dv == items.deep_view(),
            out.deep_view() == d0 + prefixed_flags(prefix@, dv.take(i as int)),
        decreases items@.len() - i,
    {
        let mut f = prefix.to_owned();
        f.append(items[i].as_str());
        push_string_flag(out, f);
        proof {
            assert(dv[i as int] == items@[i as int]@);
            assert(f@ == prefix@ + dv[i as int]);
            assert(prefixed_flags(prefix@, dv.take(i as int + 1)) =~= prefixed_flags(
                prefix@,
                dv.take(i as int),
            ).push(f@));
            assert(out.deep_view() =~= d0 + prefixed_flags(prefix@, dv.take(i as int + 1)));
        }
        i = i + 1;
    }
    proof {
        assert(dv.take(items@.len() as int) =~= dv);
    }
}

} // verus!
