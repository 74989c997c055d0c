//! The engine's shared state: the cached catalog and the installed versions.
use vstd::prelude::*;
use crate::node::{Node, ReleaseView, kept_release, release_views, supported_releases};
use crate::text::{contains_text, text_views};
use crate::version::{is_supported_name, is_version, version_of};

verus! {

/// One entry of the install root: its name, where it is valid UTF-8, and
/// whether it is a directory.
pub struct DirEntry {
    pub name: Option<String>,
    pub is_dir: bool,
}

/// What a directory entry holds.
pub type EntryView = (Option<Seq<char>>, bool);

impl View for DirEntry {
    type V = EntryView;

    open spec fn view(&self) -> EntryView {
        (
            match self.name {
                Some(n) => Some(n@),
                None => None,
            },
            self.is_dir,
        )
    }
}

/// The values of a sequence of directory entries.
pub open spec fn entry_views(s: Seq<DirEntry>) -> Seq<EntryView> {
    s.map_values(|e: DirEntry| e@)
}

/// Whether an entry is an installed version: a directory whose name parses
/// as a version once its leading `v` is dropped.
pub open spec fn is_install(e: EntryView) -> bool {
    e.1 && e.0 is Some && version_of(e.0->Some_0) is Some
}

/// The names of the installed versions among `entries`, in listing order,
/// each as it stands in the listing.
pub open spec fn local_names(entries: Seq<EntryView>) -> Seq<Seq<char>>
    decreases entries.len(),
{
    if entries.len() == 0 {
        Seq::empty()
    } else {
        let rest = local_names(entries.drop_last());
        let e = entries.last();
        if is_install(e) {
            rest.push(e.0->Some_0)
        } else {
            rest
        }
    }
}

/// The installed versions among the entries of the install root, each under
/// its own name.
pub fn local_versions_of(entries: &Vec<DirEntry>) -> (r: Vec<String>)
    ensures
        text_views(r@) == local_names(entry_views(entries@)),
{
    let mut r: Vec<String> = Vec::new();
    let mut i: usize = 0;
    while i < entries.len()
        invariant
            i <= entries@.len(),
            text_views(r@) == local_names(entry_views(entries@.subrange(0, i as int))),
        decreases entries@.len() - i,
    {
        let e = &entries[i];
        let ghost before = entry_views(entries@.subrange(0, i as int));
        proof {
            assert(entry_views(entries@.subrange(0, i + 1)).drop_last() =~= before);
            assert(entry_views(entries@.subrange(0, i + 1)).last() == e@);
        }
        match &e.name {
            Some(name) => {
                if e.is_dir && is_version(name.as_str()) {
                    r.push(name.clone());
                    proof {
                        assert(text_views(r@) =~= text_views(r@.drop_last()).push(name@));
                    }
                }
            },
            None => {},
        }
        i = i + 1;
    }
    assert(entries@.subrange(0, entries@.len() as int) =~= entries@);
    r
}

/// The releases of `nodes` that belong to supported lines, in their order.
pub fn filter_releases(nodes: &Vec<Node>) -> (r: Vec<Node>)
    ensures
        release_views(r@) == supported_releases(release_views(nodes@)),
{
    broadcast use Seq::lemma_filter_push;

    let mut r: Vec<Node> = Vec::new();
    let mut i: usize = 0;
    while i < nodes.len()
        invariant
            i <= nodes@.len(),
            release_views(r@) == supported_releases(release_views(nodes@.subrange(0, i as int))),
        decreases nodes@.len() - i,
    {
        let n = &nodes[i];
        proof {
            let before = release_views(nodes@.subrange(0, i as int));
            assert(release_views(nodes@.subrange(0, i + 1)) =~= before.push(n@));
            before.lemma_filter_push(n@, |r: ReleaseView| kept_release(r));
        }
        if is_supported_name(n.version.as_str()) {
            r.push(n.copy());
            proof {
                assert(release_views(r@) =~= release_views(r@.drop_last()).push(n@));
            }
        }
        i = i + 1;
    }
    assert(nodes@.subrange(0, nodes@.len() as int) =~= nodes@);
    r
}

/// The engine's shared state: the catalog, which holds supported releases
/// only, and the versions found installed at the last scan.
pub struct NodeState {
    all: Vec<Node>,
    local_versions: Vec<String>,
}

/// What the engine state holds: the catalog and the installed versions.
pub type StateView = (Seq<ReleaseView>, Seq<Seq<char>>);

impl View for NodeState {
    type V = StateView;

    closed spec fn view(&self) -> StateView {
        (release_views(self.all@), text_views(self.local_versions@))
    }
}

/// Whether every release of a catalog belongs to a supported line.
pub open spec fn all_supported(catalog: Seq<ReleaseView>) -> bool {
    forall|i: int| 0 <= i < catalog.len() ==> #[trigger] kept_release(catalog[i])
}

/// Whether every name is that of a version.
pub open spec fn all_versions(names: Seq<Seq<char>>) -> bool {
    forall|i: int| 0 <= i < names.len() ==> #[trigger] version_of(names[i]) is Some
}

/// The state after a scan of the install root found `entries`: the
/// installed versions are replaced whole, the catalog is kept.
pub open spec fn after_scan(s: StateView, entries: Seq<EntryView>) -> StateView {
    (s.0, local_names(entries))
}

/// Whether the active-version marker is announced as the active version:
/// it names a version, and that version is installed.
pub open spec fn confirmed(local: Seq<Seq<char>>, marker: Seq<char>) -> bool {
    version_of(marker) is Some && local.contains(marker)
}

/// Every name that a scan keeps is that of a version.
pub proof fn lemma_local_names_versions(entries: Seq<EntryView>)
    ensures
        all_versions(local_names(entries)),
    decreases entries.len(),
{
    if entries.len() > 0 {
        lemma_local_names_versions(entries.drop_last());
    }
}

/// Every release that survives catalog filtering parses as a version of a
/// supported line: major 4 or later, or major 0 with minor 10 or 12.
pub proof fn lemma_catalog_supported(fetched: Seq<ReleaseView>)
    ensures
        forall|i: int|
            0 <= i < supported_releases(fetched).len() ==> (#[trigger] version_of(
                supported_releases(fetched)[i].0,
            ) matches Some((major, minor, _)) && (major >= 4 || (major == 0 && (minor == 10
                || minor == 12)))),
{
    assert forall|i: int| 0 <= i < supported_releases(fetched).len() implies (#[trigger] version_of(
        supported_releases(fetched)[i].0,
    ) matches Some((major, minor, _)) && (major >= 4 || (major == 0 && (minor == 10 || minor
        == 12)))) by {
        fetched.lemma_filter_pred(|r: ReleaseView| kept_release(r), i);
    }
}

/// Scanning twice with no change to the install root between the scans
/// leaves the same state as scanning once.
pub proof fn lemma_scan_idempotent(s: StateView, entries: Seq<EntryView>)
    ensures
        after_scan(after_scan(s, entries), entries) == after_scan(s, entries),
        all_versions(after_scan(s, entries).1),
{
    lemma_local_names_versions(entries);
}

/// A marker that names no installed version is never announced as the
/// active version, whatever it holds.
pub proof fn lemma_stale_marker_silent(local: Seq<Seq<char>>, marker: Seq<char>)
    requires
        !local.contains(marker),
    ensures
        !confirmed(local, marker),
{
}

impl NodeState {
    /// Every state holds a catalog of supported releases and installed
    /// names that are versions.
    #[verifier::type_invariant]
    spec fn inv(&self) -> bool {
        &&& all_supported(release_views(self.all@))
        &&& all_versions(text_views(self.local_versions@))
    }

    /// An empty state: no catalog, nothing installed.
    pub fn new() -> (r: NodeState)
        ensures
            r@.0.len() == 0,
            r@.1.len() == 0,
    {
        let r = NodeState { all: Vec::new(), local_versions: Vec::new() };
        proof {
            assert(release_views(r.all@) =~= Seq::empty());
            assert(text_views(r.local_versions@) =~= Seq::empty());
        }
        r
    }

    /// Whether the catalog has to be fetched: nothing is cached yet.
    pub fn needs_fetch(&self) -> (r: bool)
        ensures
            r == (self@.0.len() == 0),
    {
        self.all.len() == 0
    }

    /// The cached catalog.
    pub fn catalog(&self) -> (r: &Vec<Node>)
        ensures
            release_views(r@) == self@.0,
            all_supported(release_views(r@)),
    {
        proof {
            use_type_invariant(self);
        }
        &self.all
    }

    /// Stores the supported releases of a freshly fetched index as the
    /// catalog.
    pub fn store_catalog(&mut self, fetched: &Vec<Node>)
        ensures
            final(self)@.0 == supported_releases(release_views(fetched@)),
            final(self)@.1 == old(self)@.1,
    {
        proof {
            use_type_invariant(&*self);
        }
        let kept = filter_releases(fetched);
        proof {
            let s = release_views(fetched@);
            assert forall|i: int| 0 <= i < supported_releases(s).len() implies #[trigger] kept_release(
                supported_releases(s)[i],
            ) by {
                s.lemma_filter_pred(|r: ReleaseView| kept_release(r), i);
            }
        }
        self.all = kept;
    }

    /// Forgets the cached catalog, so that the next listing fetches it again.
    pub fn invalidate_catalog(&mut self)
        ensures
            final(self)@.0.len() == 0,
            final(self)@.1 == old(self)@.1,
    {
        proof {
            use_type_invariant(&*self);
        }
        let empty: Vec<Node> = Vec::new();
        proof {
            assert(release_views(empty@) =~= Seq::empty());
        }
        self.all = empty;
    }

    /// The installed versions found at the last scan.
    pub fn local_versions(&self) -> (r: &Vec<String>)
        ensures
            text_views(r@) == self@.1,
            all_versions(text_views(r@)),
    {
        proof {
            use_type_invariant(self);
        }
        &self.local_versions
    }

    /// Replaces the installed versions with those that a scan of the install
    /// root found, and hands them back.
    pub fn store_scan(&mut self, entries: &Vec<DirEntry>) -> (r: Vec<String>)
        ensures
            final(self)@ == after_scan(old(self)@, entry_views(entries@)),
            text_views(r@) == final(self)@.1,
    {
        proof {
            use_type_invariant(&*self);
        }
        let found = local_versions_of(entries);
        proof {
            lemma_local_names_versions(entry_views(entries@));
        }
        let r = found.clone();
        proof {
            assert(text_views(r@) =~= text_views(found@));
        }
        self.local_versions = found;
        r
    }

    /// Whether the marker is announced as the active version: it names a
    /// version, and that version is installed. The marker itself is handed
    /// back to the caller either way.
    pub fn is_confirmed_active(&self, marker: &str) -> (r: bool)
        ensures
            r == confirmed(self@.1, marker@),
    {
        is_version(marker) && contains_text(&self.local_versions, marker)
    }
}

impl Default for NodeState {
    fn default() -> (r: NodeState)
        ensures
            r@.0.len() == 0,
            r@.1.len() == 0,
    {
        NodeState::new()
    }
}

} // verus!
