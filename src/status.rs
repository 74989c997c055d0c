//! What the release list shows of each release: its status and whether it
//! is hidden.
use vstd::prelude::*;
use crate::node::{DisplayMode, NodeStatus};
use crate::text::{contains_text, text_views};

verus! {

/// Whether `p` occurs in `s` as a run of consecutive characters.
pub open spec fn is_infix(p: Seq<char>, s: Seq<char>) -> bool {
    exists|i: int| 0 <= i && i + p.len() <= s.len() && #[trigger] s.subrange(i, i + p.len()) == p
}

/// Relies on `str::contains` with a `&str` pattern: whether the pattern
/// matches a sub-slice of the text.
#[verifier::external_body]
fn text_contains(s: &str, p: &str) -> (r: bool)
    ensures
        r == is_infix(p@, s@),
{
    s.contains(p)
}

/// The status of a release: active where it is installed and is the active
/// version, ready where it is installed, pending otherwise.
pub open spec fn status_of(version: Seq<char>, local: Seq<Seq<char>>, cur: Option<Seq<char>>) -> NodeStatus {
    if local.contains(version) {
        if cur == Some(version) {
            NodeStatus::CurVer
        } else {
            NodeStatus::Ready
        }
    } else {
        NodeStatus::Pendding
    }
}

/// Whether a release is hidden: its name does not contain the filter, or
/// only installed releases are shown and it is not installed.
pub open spec fn hidden_of(
    version: Seq<char>,
    mode: DisplayMode,
    local: Seq<Seq<char>>,
    filter: Seq<char>,
) -> bool {
    !is_infix(filter, version) || (mode == DisplayMode::Local && !local.contains(version))
}

/// The status of the release `version`, given the installed versions and
/// the active one.
pub fn node_status(version: &str, local_versions: &Vec<String>, cur_version: &Option<String>) -> (r:
    NodeStatus)
    ensures
        r == status_of(
            version@,
            text_views(local_versions@),
            match cur_version {
                Some(c) => Some(c@),
                None => None,
            },
        ),
{
    let mut status = NodeStatus::Pendding;
    if contains_text(local_versions, version) {
        status = NodeStatus::Ready;
        match cur_version {
            Some(cur) => {
                if crate::text::same_text(cur.as_str(), version) {
                    status = NodeStatus::CurVer;
                }
            },
            None => {},
        }
    }
    status
}

/// Whether the release `version` is hidden from the list.
pub fn node_hidden(
    version: &str,
    display_mode: DisplayMode,
    local_versions: &Vec<String>,
    filter_version: &str,
) -> (r: bool)
    ensures
        r == hidden_of(version@, display_mode, text_views(local_versions@), filter_version@),
{
    let mut hidden = false;
    if !text_contains(version, filter_version) {
        hidden = true;
    }
    if display_mode == DisplayMode::Local && !contains_text(local_versions, version) {
        hidden = true;
    }
    hidden
}

/// The status of a release while it downloads: the percentage received,
/// rounded down.
pub fn downloading_status(total: u64, progress: u64) -> (r: NodeStatus)
    requires
        total > 0,
        progress <= total,
    ensures
        r == NodeStatus::Downloading((progress as int * 100 / total as int) as usize),
        progress as int * 100 / total as int <= 100,
{
    let scaled: u128 = progress as u128 * 100;
    let percent: u128 = scaled / total as u128;
    assert(percent <= 100) by (nonlinear_arith)
        requires
            percent == scaled / total as u128,
            scaled == progress * 100,
            progress <= total,
            total > 0,
    ;
    NodeStatus::Downloading(percent as usize)
}

} // verus!
