//! The fluent configuration front end: one builder method per launcher
//! option, each mutating exactly one profile field and returning the
//! builder again so calls can be chained.

use crate::profile::Profile;
use crate::profile::ProfileView;
use crate::profile::profile_defaulted;
use crate::emit::emitted_args;
use crate::emit::profile_flags;
use crate::emit::switch_flags;
use crate::settings::CapsDrop;
use vstd::prelude::*;

verus! {

/// One launcher invocation under construction: the target executable,
/// its own arguments, and the profile of requested restrictions.
pub struct FireJailCommand {
    pub(crate) executable: String,
    pub(crate) arg_vec: Vec<String>,
    pub(crate) profile: Profile,
}

/// Mathematical value of a [`FireJailCommand`].
#[verifier::ext_equal]
pub ghost struct FireJailCommandView {
    pub executable: Seq<char>,
    pub arg_vec: Seq<Seq<char>>,
    pub profile: ProfileView,
}

impl View for FireJailCommand {
    type V = FireJailCommandView;

    closed spec fn view(&self) -> FireJailCommandView {
        FireJailCommandView {
            executable: self.executable@,
            arg_vec: self.arg_vec.deep_view(),
            profile: self.profile@,
        }
    }
}

impl FireJailCommand {
    /// Starts a new invocation of `program` with a fully defaulted
    /// profile and no target arguments.
    pub fn new(program: &str) -> (r: Self)
        ensures
            r@.executable == program@,
            r@.arg_vec == Seq::<Seq<char>>::empty(),
            profile_defaulted(r@.profile),
    {
        let c = FireJailCommand {
            executable: program.to_owned(),
            arg_vec: Vec::new(),
            profile: Profile::new_defaulted(),
        };
        proof {
            assert(c.arg_vec.deep_view() =~= Seq::<Seq<char>>::empty());
        }
        c
    }

    /// Enables the verbose switch.
    pub fn verbose(self) -> (r: Self)
        ensures
            r@ == (FireJailCommandView {
                profile: ProfileView { verbose: true, ..self@.profile },
                ..self@
            }),
    {
        let mut c = self;
        c.profile.verbose = true;
        c
    }

    /// Enables the allow-debuggers switch.
    pub fn allow_debuggers(self) -> (r: Self)
        ensures
            r@ == (FireJailCommandView {
                profile: ProfileView { allow_debuggers: true, ..self@.profile },
                ..self@
            }),
    {
        let mut c = self;
        c.profile.allow_debuggers = true;
        c
    }

    /// Enables the allusers switch.
    pub fn allusers(self) -> (r: Self)
        ensures
            r@ == (FireJailCommandView {
                profile: ProfileView { allusers: true, ..self@.profile },
                ..self@
            }),
    {
        let mut c = self;
        c.profile.allusers = true;
        c
    }

    /// Enables the apparmor switch.
    pub fn apparmor(self) -> (r: Self)
        ensures
            r@ == (FireJailCommandView {
                profile: ProfileView { apparmor: true, ..self@.profile },
                ..self@
            }),
    {
        let mut c = self;
        c.profile.apparmor = true;
        c
    }

    /// Enables the appimage switch.
    pub fn appimage(self) -> (r: Self)
        ensures
            r@ == (FireJailCommandView {
                profile: ProfileView { appimage: true, ..self@.profile },
                ..self@
            }),
    {
        let mut c = self;
        c.profile.appimage = true;
        c
    }

    /// Enables the capabilities switch.
    pub fn caps(self) -> (r: Self)
        ensures
            r@ == (FireJailCommandView {
                profile: ProfileView { caps: true, ..self@.profile },
                ..self@
            }),
    {
        let mut c = self;
        c.profile.caps = true;
        c
    }

    /// Enables the disable-mount switch.
    pub fn disable_mnt(self) -> (r: Self)
        ensures
            r@ == (FireJailCommandView {
                profile: ProfileView { disable_mnt: true, ..self@.profile },
                ..self@
            }),
    {
        let mut c = self;
        c.profile.disable_mnt = true;
        c
    }

    /// Enables the deterministic-exit-code switch.
    pub fn deterministic_exit_code(self) -> (r: Self)
        ensures
            r@ == (FireJailCommandView {
                profile: ProfileView { deterministic_exit_code: true, ..self@.profile },
                ..self@
            }),
    {
        let mut c = self;
        c.profile.deterministic_exit_code = true;
        c
    }

    /// Sets the control-group path, replacing any earlier value.
    pub fn cgroup(self, s: &str) -> (r: Self)
        ensures
            r@ == (FireJailCommandView {
                profile: ProfileView { cgroup: Some(s@), ..self@.profile },
                ..self@
            }),
    {
        let mut c = self;
        c.profile.cgroup = Some(s.to_owned());
        c
    }

    /// Sets the hostname, replacing any earlier value.
    pub fn hostname(self, s: &str) -> (r: Self)
        ensures
            r@ == (FireJailCommandView {
                profile: ProfileView { hostname: Some(s@), ..self@.profile },
                ..self@
            }),
    {
        let mut c = self;
        c.profile.hostname = Some(s.to_owned());
        c
    }

    /// Sets the hosts-file path, replacing any earlier value.
    pub fn hosts_file(self, s: &str) -> (r: Self)
        ensures
            r@ == (FireJailCommandView {
                profile: ProfileView { hosts_file: Some(s@), ..self@.profile },
                ..self@
            }),
    {
        let mut c = self;
        c.profile.hosts_file = Some(s.to_owned());
        c
    }

    /// Appends one CPU index to the CPU list.
    pub fn cpu(self, no: usize) -> (r: Self)
        ensures
            r@ == (FireJailCommandView {
                profile: ProfileView { cpu: self@.profile.cpu.push(no), ..self@.profile },
                ..self@
            }),
    {
        let mut c = self;
        c.profile.cpu.push(no);
        c
    }

    /// Appends every given CPU index to the CPU list, in order.
    pub fn cpus(self, items: &[usize]) -> (r: Self)
        ensures
            r@ == (FireJailCommandView {
                profile: ProfileView { cpu: self@.profile.cpu + items@, ..self@.profile },
                ..self@
            }),
    {
        let mut c = self;
        crate::strutil::push_all_usizes(&mut c.profile.cpu, items);
        c
    }

    /// Appends one path to the blacklist.
    pub fn blacklist(self, path: &str) -> (r: Self)
        ensures
            r@ == (FireJailCommandView {
                profile: ProfileView {
                    blacklists: self@.profile.blacklists.push(path@),
                    ..self@.profile
                },
                ..self@
            }),
    {
        let mut c = self;
        c.profile.blacklists.push(path.to_owned());
        proof {
            assert(c.profile.blacklists.deep_view() =~= self.profile.blacklists.deep_view().push(
                path@,
            ));
        }
        c
    }

    /// Appends every given path to the blacklist, in order.
    pub fn blacklists(self, paths: &[&str]) -> (r: Self)
        ensures
            r@ == (FireJailCommandView {
                profile: ProfileView {
                    blacklists: self@.profile.blacklists + paths.deep_view(),
                    ..self@.profile
                },
                ..self@
            }),
    {
        let mut c = self;
        crate::strutil::push_all_strs(&mut c.profile.blacklists, paths);
        c
    }

    /// Appends one bind pair (source path, target path).
    pub fn bind(self, a: &str, b: &str) -> (r: Self)
        ensures
            r@ == (FireJailCommandView {
                profile: ProfileView { bind: self@.profile.bind.push((a@, b@)), ..self@.profile },
                ..self@
            }),
    {
        let mut c = self;
        c.profile.bind.push((a.to_owned(), b.to_owned()));
        proof {
            assert(c.profile.bind.deep_view() =~= self.profile.bind.deep_view().push((a@, b@)));
        }
        c
    }

    /// Appends every given bind pair, in order.
    pub fn binds(self, pairs: &[(&str, &str)]) -> (r: Self)
        ensures
            r@ == (FireJailCommandView {
                profile: ProfileView {
                    bind: self@.profile.bind + pairs.deep_view(),
                    ..self@.profile
                },
                ..self@
            }),
    {
        let mut c = self;
        crate::strutil::push_all_pairs(&mut c.profile.bind, pairs);
        c
    }

    /// Appends one DNS server entry.
    pub fn dns(self, arg: &str) -> (r: Self)
        ensures
            r@ == (FireJailCommandView {
                profile: ProfileView { dns: self@.profile.dns.push(arg@), ..self@.profile },
                ..self@
            }),
    {
        let mut c = self;
        c.profile.dns.push(arg.to_owned());
        proof {
            assert(c.profile.dns.deep_view() =~= self.profile.dns.deep_view().push(arg@));
        }
        c
    }

    /// Appends every given DNS server entry, in order.
    pub fn dnss(self, args: &[&str]) -> (r: Self)
        ensures
            r@ == (FireJailCommandView {
                profile: ProfileView {
                    dns: self@.profile.dns + args.deep_view(),
                    ..self@.profile
                },
                ..self@
            }),
    {
        let mut c = self;
        crate::strutil::push_all_strs(&mut c.profile.dns, args);
        c
    }

    /// Appends one ignore entry.
    pub fn ignore(self, arg: &str) -> (r: Self)
        ensures
            r@ == (FireJailCommandView {
                profile: ProfileView { ignore: self@.profile.ignore.push(arg@), ..self@.profile },
                ..self@
            }),
    {
        let mut c = self;
        c.profile.ignore.push(arg.to_owned());
        proof {
            assert(c.profile.ignore.deep_view() =~= self.profile.ignore.deep_view().push(arg@));
        }
        c
    }

    /// Appends every given ignore entry, in order.
    pub fn ignores(self, args: &[&str]) -> (r: Self)
        ensures
            r@ == (FireJailCommandView {
                profile: ProfileView {
                    ignore: self@.profile.ignore + args.deep_view(),
                    ..self@.profile
                },
                ..self@
            }),
    {
        let mut c = self;
        crate::strutil::push_all_strs(&mut c.profile.ignore, args);
        c
    }

    /// Appends one argument for the target program.
    pub fn arg(self, arg: &str) -> (r: Self)
        ensures
            r@ == (FireJailCommandView { arg_vec: self@.arg_vec.push(arg@), ..self@ }),
    {
        let mut c = self;
        c.arg_vec.push(arg.to_owned());
        proof {
            assert(c.arg_vec.deep_view() =~= self.arg_vec.deep_view().push(arg@));
        }
        c
    }

    /// Appends every given target-program argument, in order.
    pub fn args(self, args: &[&str]) -> (r: Self)
        ensures
            r@ == (FireJailCommandView { arg_vec: self@.arg_vec + args.deep_view(), ..self@ }),
    {
        let mut c = self;
        crate::strutil::push_all_strs(&mut c.arg_vec, args);
        c
    }

    /// Installs a capability-drop request, replacing any earlier one.
    pub fn caps_drop(self, cfg: CapsDrop) -> (r: Self)
        ensures
            r@ == (FireJailCommandView {
                profile: ProfileView { caps_drop: cfg@, ..self@.profile },
                ..self@
            }),
    {
        let mut c = self;
        c.profile.caps_drop = cfg;
        c
    }

    /// Produces the complete, ordered launcher argument vector for this
    /// invocation: every profile flag in emission order, the separator,
    /// the target executable, and the target's own arguments.
    pub fn emit_args(&self) -> (r: Vec<String>)
        ensures
            r.deep_view() == emitted_args(self@),
    {
        let mut out: Vec<String> = Vec::new();
        proof {
            assert(out.deep_view() =~= Seq::<Seq<char>>::empty());
        }
        crate::emit::push_switch_flags(&mut out, &self.profile);
        proof {
            assert(out.deep_view() =~= switch_flags(self.profile@));
        }
        crate::emit::push_caps_flags(&mut out, &self.profile);
        crate::emit::push_scalar_flags(&mut out, &self.profile);
        crate::emit::push_cpu_flags(&mut out, &self.profile);
        crate::emit::push_bind_flags(&mut out, &self.profile.bind);
        crate::emit::push_prefixed_flags(&mut out, "--dns=", &self.profile.dns);
        crate::emit::push_prefixed_flags(&mut out, "--blacklist=", &self.profile.blacklists);
        crate::emit::push_prefixed_flags(&mut out, "--ignore=", &self.profile.ignore);
        let ghost dflags: Seq<Seq<char>> = out.deep_view();
        proof {
            assert(dflags =~= profile_flags(self@.profile));
        }
        crate::emit::push_flag(&mut out, "--");
        crate::emit::push_string_flag(&mut out, self.executable.clone());
        proof {
            assert(out.deep_view() =~= profile_flags(self@.profile) + seq![
                "--"@,
                self@.executable,
            ]);
        }
        crate::strutil::push_all_strings(&mut out, &self.arg_vec);
        proof {
            assert(out.deep_view() =~= emitted_args(self@));
        }
        out
    }
}

} // verus!
