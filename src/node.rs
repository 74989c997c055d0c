//! Release descriptors and the per-release display state.
use vstd::prelude::*;
use crate::version::supported_name;

verus! {

/// What a release descriptor holds: its version name and its LTS label.
pub type ReleaseView = (Seq<char>, Option<Seq<char>>);

/// The LTS field of the remote index, which is either a flag or a label.
#[derive(Clone, Debug)]
pub enum Lts {
    Bool(bool),
    Str(String),
}

impl From<Lts> for Option<String> {
    /// A flag means no label; a label is kept as it is.
    fn from(status: Lts) -> (r: Option<String>) {
        match status {
            Lts::Bool(_) => None,
            Lts::Str(x) => Some(x),
        }
    }
}

impl vstd::std_specs::convert::FromSpecImpl<Lts> for Option<String> {
    open spec fn obeys_from_spec() -> bool {
        true
    }

    open spec fn from_spec(status: Lts) -> Option<String> {
        match status {
            Lts::Bool(_) => None,
            Lts::Str(x) => Some(x),
        }
    }
}

/// One release of the remote catalog.
#[derive(Clone, Debug)]
pub struct Node {
    pub version: String,
    pub lts: Option<String>,
}

/// The label of an optional text, as a value.
pub open spec fn label_view(l: Option<String>) -> Option<Seq<char>> {
    match l {
        Some(s) => Some(s@),
        None => None,
    }
}

impl View for Node {
    type V = ReleaseView;

    open spec fn view(&self) -> ReleaseView {
        (self.version@, label_view(self.lts))
    }
}

/// The values of a sequence of releases.
pub open spec fn release_views(s: Seq<Node>) -> Seq<ReleaseView> {
    s.map_values(|n: Node| n@)
}

/// Whether a release belongs to a supported line.
pub open spec fn kept_release(r: ReleaseView) -> bool {
    supported_name(r.0)
}

/// The releases of `s` that belong to supported lines, in their order.
pub open spec fn supported_releases(s: Seq<ReleaseView>) -> Seq<ReleaseView> {
    s.filter(|r: ReleaseView| kept_release(r))
}

impl Node {
    /// A release with a version name and an optional LTS label.
    pub fn new(version: String, lts: Option<String>) -> (r: Node)
        ensures
            r.version == version,
            r.lts == lts,
    {
        Node { version, lts }
    }

    /// A release whose LTS field arrived in either of its two forms.
    pub fn from_index(version: String, lts: Lts) -> (r: Node)
        ensures
            r.version == version,
            r.lts == match lts {
                Lts::Bool(_) => None,
                Lts::Str(x) => Some(x),
            },
    {
        Node { version, lts: Option::<String>::from(lts) }
    }

    /// A copy of this release.
    pub fn copy(&self) -> (r: Node)
        ensures
            r@ == self@,
    {
        let lts = match &self.lts {
            Some(s) => Some(s.clone()),
            None => None,
        };
        Node { version: self.version.clone(), lts }
    }
}

/// Where a release stands for the user, ordered from not installed to
/// active.
#[derive(Clone, Debug, PartialEq, Eq, PartialOrd, Ord, Structural)]
pub enum NodeStatus {
    Pendding,
    Downloading(usize),
    Ready,
    CurVer,
}

impl Default for NodeStatus {
    fn default() -> (r: NodeStatus)
        ensures
            r == NodeStatus::Pendding,
    {
        NodeStatus::Pendding
    }
}

/// Which releases the list shows: the whole catalog, or the installed ones.
#[derive(Clone, Copy, Debug, PartialEq, Eq, Structural)]
pub enum DisplayMode {
    Remote,
    Local,
}

impl Default for DisplayMode {
    fn default() -> (r: DisplayMode)
        ensures
            r == DisplayMode::Remote,
    {
        DisplayMode::Remote
    }
}

} // verus!
