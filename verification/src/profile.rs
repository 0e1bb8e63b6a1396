//! The aggregate configuration record of one launcher invocation and
//! its mathematical view.
//!
//! A `Profile` holds every supported option: boolean switches, optional
//! scalars, append-only lists and mode enums.  Every field has a legal
//! default meaning "not requested", so a profile is valid at every
//! point of its construction.  The options the builder can set stand
//! directly on `Profile`; the remaining ones — recorded but not yet
//! reachable through any builder method — are grouped in
//! [`ModeSettings`].

use crate::settings::CapsDrop;
use crate::settings::CapsDropView;
use crate::settings::InterfaceConfig;
use crate::settings::IpConfig;
use crate::settings::Join;
use crate::settings::Net;
use crate::settings::NetFilter;
use crate::settings::Overlay;
use crate::settings::Private;
use crate::settings::PrivateList;
use crate::settings::Seccomp;
use crate::settings::Shell;
use crate::settings::Timeout;
use crate::settings::X11;
use vstd::prelude::*;

verus! {

/// The options of a profile that no builder method fills yet: network,
/// namespace, filesystem, seccomp, shell, X11 and resource settings,
/// each at a legal "not requested" default.  They are carried so that
/// the data model is complete, and no flag is emitted for any of them.
pub struct ModeSettings {
    pub interface: Vec<String>,
    pub default_net: InterfaceConfig,
    pub networks: Net,
    pub ipc_namespace: bool,
    pub keep_dev_shm: bool,
    pub keep_var_tmp: bool,
    pub machine_id: bool,
    pub memory_deny_write_execute: bool,
    pub name: Option<String>,
    pub netfilter: NetFilter,
    pub netfilter6: NetFilter,
    pub join: Option<Join>,
    pub join_network: Option<Join>,
    pub join_fs: Option<Join>,
    pub join_or_start: Option<String>,
    pub netns: Option<String>,
    pub nice: Option<usize>,
    pub no3d: bool,
    pub noautopulse: bool,
    pub noblacklist: Vec<String>,
    pub nodbus: bool,
    pub nodvd: bool,
    pub noexec: Vec<String>,
    pub nogroups: bool,
    pub nonewprivs: bool,
    pub noprofile: bool,
    pub noroot: bool,
    pub nosound: bool,
    pub notv: bool,
    pub nou2f: bool,
    pub novideo: bool,
    pub nowhitelist: Vec<String>,
    pub output: Option<String>,
    pub output_stderr: Option<String>,
    pub overlay: Overlay,
    pub private: Private,
    pub private_bin: PrivateList,
    pub private_cache: bool,
    pub private_cwd: Private,
    pub private_dev: bool,
    pub private_etc: PrivateList,
    pub private_home: PrivateList,
    pub private_lib: PrivateList,
    pub private_opt: PrivateList,
    pub private_srv: PrivateList,
    pub private_tmp: bool,
    pub profile: Option<String>,
    pub protocal: Vec<String>,
    pub read_only: Vec<String>,
    pub read_write: Vec<String>,
    pub rlimit: Option<usize>,
    pub rlimit_cpu: Option<usize>,
    pub rlimit_fsize: Option<usize>,
    pub rlimit_nofile: Option<usize>,
    pub rlimit_nproc: Option<usize>,
    pub rlimit_sigpending: Option<usize>,
    pub remove_env: Vec<String>,
    pub seccomp: Seccomp,
    pub shell: Shell,
    pub timeout: Option<Timeout>,
    pub tmpfs: Vec<String>,
    pub tunnel: Option<String>,
    pub whitelist: Vec<String>,
    pub writable_etc: bool,
    pub writable_run_user: bool,
    pub writable_var: bool,
    pub writable_var_log: bool,
    pub x11: X11,
}

/// Every supported launcher option, fully defaulted to "not requested".
pub struct Profile {
    pub verbose: bool,
    pub allow_debuggers: bool,
    pub allusers: bool,
    pub apparmor: bool,
    pub appimage: bool,
    pub caps: bool,
    pub caps_drop: CapsDrop,
    pub bind: Vec<(String, String)>,
    pub blacklists: Vec<String>,
    pub cgroup: Option<String>,
    pub cpu: Vec<usize>,
    pub disable_mnt: bool,
    pub deterministic_exit_code: bool,
    pub dns: Vec<String>,
    pub hostname: Option<String>,
    pub hosts_file: Option<String>,
    pub ignore: Vec<String>,
    pub modes: ModeSettings,
}

/// Mathematical value of a [`Profile`].
///
/// The fields the builder can touch and the flag emitter reads are
/// abstracted to sequences of characters, so contracts about the
/// emitted argument vector can be stated purely over mathematical
/// values.  The mode settings have no setters and affect no emitted
/// flag; the view carries them as their concrete record, so contracts
/// can still pin them down.
#[verifier::ext_equal]
pub ghost struct ProfileView {
    pub verbose: bool,
    pub allow_debuggers: bool,
    pub allusers: bool,
    pub apparmor: bool,
    pub appimage: bool,
    pub caps: bool,
    pub caps_drop: CapsDropView,
    pub bind: Seq<(Seq<char>, Seq<char>)>,
    pub blacklists: Seq<Seq<char>>,
    pub cgroup: Option<Seq<char>>,
    pub cpu: Seq<usize>,
    pub disable_mnt: bool,
    pub deterministic_exit_code: bool,
    pub dns: Seq<Seq<char>>,
    pub hostname: Option<Seq<char>>,
    pub hosts_file: Option<Seq<char>>,
    pub ignore: Seq<Seq<char>>,
    pub modes: ModeSettings,
}

impl View for Profile {
    type V = ProfileView;

    open spec fn view(&self) -> ProfileView {
        ProfileView {
            verbose: self.verbose,
            allow_debuggers: self.allow_debuggers,
            allusers: self.allusers,
            apparmor: self.apparmor,
            appimage: self.appimage,
            caps: self.caps,
            caps_drop: self.caps_drop@,
            bind: self.bind.deep_view(),
            blacklists: self.blacklists.deep_view(),
            cgroup: self.cgroup.deep_view(),
            cpu: self.cpu@,
            disable_mnt: self.disable_mnt,
            deterministic_exit_code: self.deterministic_exit_code,
            dns: self.dns.deep_view(),
            hostname: self.hostname.deep_view(),
            hosts_file: self.hosts_file.deep_view(),
            ignore: self.ignore.deep_view(),
            modes: self.modes,
        }
    }
}

/// Holds exactly of a mode-settings record whose every option is at
/// its default: switches unset, scalars absent, lists empty and every
/// mode enum at its "do not emit" variant.
pub open spec fn modes_defaulted(m: ModeSettings) -> bool {
    &&& m.interface@ == Seq::<String>::empty()
    &&& m.default_net.default_gw is None
    &&& m.default_net.mac is None
    &&& m.default_net.ip6 is None
    &&& m.default_net.netmask is None
    &&& m.default_net.veth_name is None
    &&& m.default_net.ip_config is NotSpecified
    &&& m.default_net.mtu is None
    &&& m.networks is NotSpecfied
    &&& m.ipc_namespace == false
    &&& m.keep_dev_shm == false
    &&& m.keep_var_tmp == false
    &&& m.machine_id == false
    &&& m.memory_deny_write_execute == false
    &&& m.name is None
    &&& m.netfilter is Disable
    &&& m.netfilter6 is Disable
    &&& m.join is None
    &&& m.join_network is None
    &&& m.join_fs is None
    &&& m.join_or_start is None
    &&& m.netns is None
    &&& m.nice is None
    &&& m.no3d == false
    &&& m.noautopulse == false
    &&& m.noblacklist@ == Seq::<String>::empty()
    &&& m.nodbus == false
    &&& m.nodvd == false
    &&& m.noexec@ == Seq::<String>::empty()
    &&& m.nogroups == false
    &&& m.nonewprivs == false
    &&& m.noprofile == false
    &&& m.noroot == false
    &&& m.nosound == false
    &&& m.notv == false
    &&& m.nou2f == false
    &&& m.novideo == false
    &&& m.nowhitelist@ == Seq::<String>::empty()
    &&& m.output is None
    &&& m.output_stderr is None
    &&& m.overlay is NoSpecified
    &&& m.private is NoSpecified
    &&& m.private_bin is NoSpecified
    &&& m.private_cache == false
    &&& m.private_cwd is NoSpecified
    &&& m.private_dev == false
    &&& m.private_etc is NoSpecified
    &&& m.private_home is NoSpecified
    &&& m.private_lib is NoSpecified
    &&& m.private_opt is NoSpecified
    &&& m.private_srv is NoSpecified
    &&& m.private_tmp == false
    &&& m.profile is None
    &&& m.protocal@ == Seq::<String>::empty()
    &&& m.read_only@ == Seq::<String>::empty()
    &&& m.read_write@ == Seq::<String>::empty()
    &&& m.rlimit is None
    &&& m.rlimit_cpu is None
    &&& m.rlimit_fsize is None
    &&& m.rlimit_nofile is None
    &&& m.rlimit_nproc is None
    &&& m.rlimit_sigpending is None
    &&& m.remove_env@ == Seq::<String>::empty()
    &&& m.seccomp is NotSpecified
    &&& m.shell is NotSpecified
    &&& m.timeout is None
    &&& m.tmpfs@ == Seq::<String>::empty()
    &&& m.tunnel is None
    &&& m.whitelist@ == Seq::<String>::empty()
    &&& m.writable_etc == false
    &&& m.writable_run_user == false
    &&& m.writable_var == false
    &&& m.writable_var_log == false
    &&& m.x11 is NotSpecified
}

/// Holds exactly of a profile view whose every option is still at its
/// default: switches unset, scalars absent, lists empty, the
/// capability-drop mode at its "do not emit" variant, and every mode
/// setting at its default.
pub open spec fn profile_defaulted(p: ProfileView) -> bool {
    &&& p.verbose == false
    &&& p.allow_debuggers == false
    &&& p.allusers == false
    &&& p.apparmor == false
    &&& p.appimage == false
    &&& p.caps == false
    &&& p.caps_drop == CapsDropView::NotSpecified
    &&& p.bind == Seq::<(Seq<char>, Seq<char>)>::empty()
    &&& p.blacklists == Seq::<Seq<char>>::empty()
    &&& p.cgroup is None
    &&& p.cpu == Seq::<usize>::empty()
    &&& p.disable_mnt == false
    &&& p.deterministic_exit_code == false
    &&& p.dns == Seq::<Seq<char>>::empty()
    &&& p.hostname is None
    &&& p.hosts_file is None
    &&& p.ignore == Seq::<Seq<char>>::empty()
    &&& modes_defaulted(p.modes)
}

impl ModeSettings {
    /// A fresh mode-settings record with every option at its default.
    pub(crate) fn new_defaulted() -> (r: ModeSettings)
        ensures
            modes_defaulted(r),
    {
        ModeSettings {
            interface: Vec::new(),
            default_net: InterfaceConfig {
                default_gw: None,
                mac: None,
                ip_config: IpConfig::NotSpecified,
                ip6: None,
                mtu: None,
                netmask: None,
                veth_name: None,
            },
            networks: Net::NotSpecfied,
            ipc_namespace: false,
            keep_dev_shm: false,
            keep_var_tmp: false,
            machine_id: false,
            memory_deny_write_execute: false,
            name: None,
            netfilter: NetFilter::Disable,
            netfilter6: NetFilter::Disable,
            join: None,
            join_network: None,
            join_fs: None,
            join_or_start: None,
            netns: None,
            nice: None,
            no3d: false,
            noautopulse: false,
            noblacklist: Vec::new(),
            nodbus: false,
            nodvd: false,
            noexec: Vec::new(),
            nogroups: false,
            nonewprivs: false,
            noprofile: false,
            noroot: false,
            nosound: false,
            notv: false,
            nou2f: false,
            novideo: false,
            nowhitelist: Vec::new(),
            output: None,
            output_stderr: None,
            overlay: Overlay::NoSpecified,
            private: Private::NoSpecified,
            private_bin: PrivateList::NoSpecified,
            private_cache: false,
            private_cwd: Private::NoSpecified,
            private_dev: false,
            private_etc: PrivateList::NoSpecified,
            private_home: PrivateList::NoSpecified,
            private_lib: PrivateList::NoSpecified,
            private_opt: PrivateList::NoSpecified,
            private_srv: PrivateList::NoSpecified,
            private_tmp: false,
            profile: None,
            protocal: Vec::new(),
            read_only: Vec::new(),
            read_write: Vec::new(),
            rlimit: None,
            rlimit_cpu: None,
            rlimit_fsize: None,
            rlimit_nofile: None,
            rlimit_nproc: None,
            rlimit_sigpending: None,
            remove_env: Vec::new(),
            seccomp: Seccomp::NotSpecified,
            shell: Shell::NotSpecified,
            timeout: None,
            tmpfs: Vec::new(),
            tunnel: None,
            whitelist: Vec::new(),
            writable_etc: false,
            writable_run_user: false,
            writable_var: false,
            writable_var_log: false,
            x11: X11::NotSpecified,
        }
    }
}

impl Profile {
    /// A fresh profile with every option at its default.
    pub(crate) fn new_defaulted() -> (r: Profile)
        ensures
            profile_defaulted(r@),
    {
        let p = Profile {
            verbose: false,
            allow_debuggers: false,
            allusers: false,
            apparmor: false,
            appimage: false,
            caps: false,
            caps_drop: CapsDrop::NotSpecified,
            bind: Vec::new(),
            blacklists: Vec::new(),
            cgroup: None,
            cpu: Vec::new(),
            disable_mnt: false,
            deterministic_exit_code: false,
            dns: Vec::new(),
            hostname: None,
            hosts_file: None,
            ignore: Vec::new(),
            modes: ModeSettings::new_defaulted(),
        };
        proof {
            assert(p@.bind =~= Seq::<(Seq<char>, Seq<char>)>::empty());
            assert(p@.blacklists =~= Seq::<Seq<char>>::empty());
            assert(p@.dns =~= Seq::<Seq<char>>::empty());
            assert(p@.ignore =~= Seq::<Seq<char>>::empty());
        }
        p
    }
}

} // verus!
