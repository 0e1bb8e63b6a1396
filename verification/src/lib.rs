//! A builder for launching programs under the firejail sandbox launcher.
//!
//! The crate models the full configuration surface of a firejail
//! invocation: a profile of switches, scalar options, lists and mode
//! enums, a fluent builder ([`FireJailCommand`]) that fills the profile,
//! and a verified emitter that turns the finished profile into the exact
//! ordered argument vector handed to the launcher binary.
//!
//! Process creation itself (spawning the launcher, wiring its standard
//! streams and environment) is I/O and lives outside this crate; the
//! emitter's output is the complete, ordered `firejail` argument list up
//! to and including the target program and its arguments.

mod command;
mod emit;
mod laws;
mod profile;
mod settings;
mod strutil;

pub use command::FireJailCommand;
pub use command::FireJailCommandView;
pub use emit::bind_flags;
pub use emit::caps_flags;
pub use emit::cpu_flags;
pub use emit::emitted_args;
pub use emit::flags_of_table;
pub use emit::opt_flag;
pub use emit::opt_value_flag;
pub use emit::prefixed_flags;
pub use emit::profile_flags;
pub use emit::scalar_flags;
pub use emit::switch_flags;
pub use emit::switch_table;
pub use laws::bind_flags_offset;
pub use laws::blacklist_flags_offset;
pub use laws::dns_flags_offset;
pub use laws::ignore_flags_offset;
pub use laws::lemma_append_twice;
pub use laws::lemma_bind_flags_in_order;
pub use laws::lemma_caps_disabled;
pub use laws::lemma_caps_settings_flags;
pub use laws::lemma_list_families_in_place;
pub use laws::lemma_list_flags_in_order;
pub use laws::lemma_quiet_first;
pub use laws::lemma_verbose_no_quiet;
pub use laws::lemma_verbose_removes_only_quiet;
pub use profile::ModeSettings;
pub use profile::ProfileView;
pub use profile::modes_defaulted;
pub use profile::profile_defaulted;
pub use settings::CapsDrop;
pub use settings::CapsDropBuilder;
pub use settings::CapsDropBuilderView;
pub use settings::CapsDropView;
pub use settings::InterfaceConfig;
pub use settings::IpConfig;
pub use settings::Join;
pub use settings::Net;
pub use settings::NetFilter;
pub use settings::Overlay;
pub use settings::Private;
pub use settings::PrivateList;
pub use settings::Seccomp;
pub use settings::Shell;
pub use settings::Timeout;
pub use settings::X11;
pub use strutil::decimal;
pub use strutil::digit_char;
pub use strutil::join_comma;
