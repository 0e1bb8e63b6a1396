//! The closed option sets of the launcher configuration: capability
//! dropping with its sub-builder and mathematical view, and the mode
//! enums for networking, namespace joining, filesystem overlays,
//! seccomp, the login shell and X11 isolation.

use vstd::prelude::*;

verus! {

/// Capability-drop request: nothing, everything, or an explicit pair of
/// keep/drop lists assembled through [`CapsDropBuilder`].
pub enum CapsDrop {
    NotSpecified,
    DropAll,
    Settings { whitelist: Vec<String>, blacklist: Vec<String> },
}

/// Mathematical value of a [`CapsDrop`]: the two lists as sequences of
/// character sequences.
#[verifier::ext_equal]
pub ghost enum CapsDropView {
    NotSpecified,
    DropAll,
    Settings { whitelist: Seq<Seq<char>>, blacklist: Seq<Seq<char>> },
}

impl View for CapsDrop {
    type V = CapsDropView;

    open spec fn view(&self) -> CapsDropView {
        match self {
            CapsDrop::NotSpecified => CapsDropView::NotSpecified,
            CapsDrop::DropAll => CapsDropView::DropAll,
            CapsDrop::Settings { whitelist, blacklist } => CapsDropView::Settings {
                whitelist: whitelist.deep_view(),
                blacklist: blacklist.deep_view(),
            },
        }
    }
}

/// Accumulates a capability keep-list and drop-list independently of any
/// profile; [`CapsDropBuilder::build`] snapshots them into an immutable
/// [`CapsDrop::Settings`] value.
pub struct CapsDropBuilder(Vec<String>, Vec<String>);

/// Mathematical value of a [`CapsDropBuilder`]: the keep-list and the
/// drop-list gathered so far.
#[verifier::ext_equal]
pub ghost struct CapsDropBuilderView {
    pub whitelist: Seq<Seq<char>>,
    pub blacklist: Seq<Seq<char>>,
}

impl View for CapsDropBuilder {
    type V = CapsDropBuilderView;

    closed spec fn view(&self) -> CapsDropBuilderView {
        CapsDropBuilderView { whitelist: self.0.deep_view(), blacklist: self.1.deep_view() }
    }
}

impl CapsDrop {
    /// The request that drops every capability.
    pub fn drop_all() -> (r: Self)
        ensures
            r@ == CapsDropView::DropAll,
    {
        CapsDrop::DropAll
    }

    /// A fresh sub-builder with empty keep and drop lists.
    pub fn builder() -> (r: CapsDropBuilder)
        ensures
            r@ == (CapsDropBuilderView {
                whitelist: Seq::<Seq<char>>::empty(),
                blacklist: Seq::<Seq<char>>::empty(),
            }),
    {
        CapsDropBuilder(Vec::new(), Vec::new())
    }
}

impl CapsDropBuilder {
    /// Appends one capability name to the drop-list.
    pub fn blacklist(self, a: &str) -> (r: Self)
        ensures
            r@ == (CapsDropBuilderView { blacklist: self@.blacklist.push(a@), ..self@ }),
    {
        let mut b = self;
        b.1.push(a.to_owned());
        proof {
            assert(b@.blacklist =~= self@.blacklist.push(a@));
        }
        b
    }

    /// Appends one capability name to the keep-list.
    pub fn whilelist(self, a: &str) -> (r: Self)
        ensures
            r@ == (CapsDropBuilderView { whitelist: self@.whitelist.push(a@), ..self@ }),
    {
        let mut b = self;
        b.0.push(a.to_owned());
        proof {
            assert(b@.whitelist =~= self@.whitelist.push(a@));
        }
        b
    }

    /// Appends every given capability name to the drop-list, in order.
    pub fn blacklists(self, items: &[&str]) -> (r: Self)
        ensures
            r@ == (CapsDropBuilderView { blacklist: self@.blacklist + items.deep_view(), ..self@ }),
    {
        let mut b = self;
        crate::strutil::push_all_strs(&mut b.1, items);
        b
    }

    /// Appends every given capability name to the keep-list, in order.
    pub fn whilelists(self, items: &[&str]) -> (r: Self)
        ensures
            r@ == (CapsDropBuilderView { whitelist: self@.whitelist + items.deep_view(), ..self@ }),
    {
        let mut b = self;
        crate::strutil::push_all_strs(&mut b.0, items);
        b
    }

    /// Snapshots the two lists into an immutable [`CapsDrop::Settings`].
    pub fn build(&self) -> (r: CapsDrop)
        ensures
            r@ == (CapsDropView::Settings {
                whitelist: self@.whitelist,
                blacklist: self@.blacklist,
            }),
    {
        CapsDrop::Settings {
            whitelist: crate::strutil::clone_string_vec(&self.0),
            blacklist: crate::strutil::clone_string_vec(&self.1),
        }
    }
}


/// Per-interface IP address request: a single address or an address
/// range from which the launcher picks one.
pub enum IpConfig {
    NotSpecified,
    Address(String),
    AddressRange(String),
}

/// Network parameters of one interface handed to the launcher.
pub struct InterfaceConfig {
    pub default_gw: Option<String>,
    pub mac: Option<String>,
    pub ip_config: IpConfig,
    pub ip6: Option<String>,
    pub mtu: Option<usize>,
    pub netmask: Option<String>,
    pub veth_name: Option<String>,
}

/// Network mode: unset, fully disabled, or a set of configured
/// interfaces attached to a named network.
pub enum Net {
    NotSpecfied,
    Disabled,
    Interfaces((String, Vec<InterfaceConfig>)),
}

/// Netfilter mode: disabled, the launcher default, or a filter file
/// with optional arguments.
pub enum NetFilter {
    Disable,
    Default,
    WithSetting { path: String, args: Option<Vec<String>> },
}

/// Namespace-join target: an existing sandbox by process id or by name.
pub enum Join {
    Pid(usize),
    Name(String),
}

/// Filesystem overlay mode.
pub enum Overlay {
    NoSpecified,
    Tmp,
    Named(String),
}

/// Private-directory mode: unset, the launcher default, or a caller
/// supplied directory.
pub enum Private {
    NoSpecified,
    Default,
    Directory(String),
}

/// Private-list mode: unset, an empty private set, or an explicit list
/// of files.
pub enum PrivateList {
    NoSpecified,
    Empty,
    Files(Vec<String>),
}

/// Seccomp mode.
pub enum Seccomp {
    NotSpecified,
    Enable,
    BlockSecondary,
    List(Vec<String>),
    Drop(Vec<String>),
    Keep(Vec<String>),
}

/// Login-shell override.
pub enum Shell {
    NotSpecified,
    SetToNone,
    SetTo(String),
}

/// X11 isolation mode.
pub enum X11 {
    NotSpecified,
    Auto,
    Disable,
    Xephyr(Option<(usize, usize)>),
    Xorg,
    Xpra,
    Xvfb,
}

/// Launcher-enforced timeout as hours, minutes and seconds.
pub struct Timeout(pub usize, pub usize, pub usize);

} // verus!
