//! Version strings: the leading `v` that release names carry, semantic
//! version parsing, and the whitelist of supported release lines.
use std::str::FromStr;
use vstd::prelude::*;

verus! {

/// `s` with every leading `'v'` removed.
pub open spec fn trim_v(s: Seq<char>) -> Seq<char>
    decreases s.len(),
{
    if s.len() > 0 && s[0] == 'v' {
        trim_v(s.drop_first())
    } else {
        s
    }
}

/// What `semver::Version::from_str` makes of a text: its major, minor and
/// patch numbers, or `None` where the text is no semantic version.
pub uninterp spec fn semver_core(s: Seq<char>) -> Option<(u64, u64, u64)>;

/// Relies on `semver::Version::from_str` (through `FromStr`): the numbers of a
/// parsed version, `None` on a parse error; an empty text is an error.
#[verifier::external_body]
fn semver_parse(s: &str) -> (r: Option<(u64, u64, u64)>)
    ensures
        r == semver_core(s@),
        s@.len() == 0 ==> r is None,
{
    match semver::Version::from_str(s) {
        Ok(v) => Some((v.major, v.minor, v.patch)),
        Err(_) => None,
    }
}

/// The version that a name such as `v18.16.0` stands for.
pub open spec fn version_of(name: Seq<char>) -> Option<(u64, u64, u64)> {
    semver_core(trim_v(name))
}

/// Whether a release line is one the manager supports: every line from 4
/// on, and of the legacy `0.x` lines only 0.10 and 0.12.
pub open spec fn supported(major: u64, minor: u64) -> bool {
    major >= 4 || (major == 0 && (minor == 10 || minor == 12))
}

/// Whether a parse result names a supported version.
pub open spec fn supported_parse(p: Option<(u64, u64, u64)>) -> bool {
    match p {
        Some((major, minor, _)) => supported(major, minor),
        None => false,
    }
}

/// Whether a release name is a version of a supported line.
pub open spec fn supported_name(name: Seq<char>) -> bool {
    supported_parse(version_of(name))
}

proof fn lemma_trim_v_suffix(s: Seq<char>, i: int)
    requires
        0 <= i <= s.len(),
        forall|j: int| 0 <= j < i ==> s[j] == 'v',
    ensures
        trim_v(s) == trim_v(s.subrange(i, s.len() as int)),
    decreases i,
{
    if i > 0 {
        assert(s.drop_first() =~= s.subrange(1, s.len() as int));
        lemma_trim_v_suffix(s.drop_first(), i - 1);
        assert(s.drop_first().subrange(i - 1, s.drop_first().len() as int) =~= s.subrange(
            i,
            s.len() as int,
        ));
    } else {
        assert(s.subrange(0, s.len() as int) =~= s);
    }
}

/// Drops every leading `'v'` of `s`.
pub fn trim_leading_v(s: &str) -> (r: &str)
    ensures
        r@ == trim_v(s@),
{
    let n = s.unicode_len();
    let mut i: usize = 0;
    while i < n && s.get_char(i) == 'v'
        invariant
            n == s@.len(),
            i <= n,
            forall|j: int| 0 <= j < i ==> s@[j] == 'v',
        decreases n - i,
    {
        i = i + 1;
    }
    proof {
        lemma_trim_v_suffix(s@, i as int);
    }
    s.substring_char(i, n)
}

/// Whether `major.minor` is a supported release line.
pub fn is_supported(major: u64, minor: u64) -> (r: bool)
    ensures
        r == supported(major, minor),
{
    major >= 4 || (major == 0 && (minor == 10 || minor == 12))
}

/// Whether a parse result names a supported version.
pub fn is_supported_parse(p: Option<(u64, u64, u64)>) -> (r: bool)
    ensures
        r == supported_parse(p),
{
    match p {
        Some((major, minor, _)) => is_supported(major, minor),
        None => false,
    }
}

/// Parses a version name, with or without its leading `v`.
pub fn parse_version(name: &str) -> (r: Option<(u64, u64, u64)>)
    ensures
        r == version_of(name@),
{
    semver_parse(trim_leading_v(name))
}

/// Whether a version name parses at all.
pub fn is_version(name: &str) -> (r: bool)
    ensures
        r == version_of(name@) is Some,
{
    parse_version(name).is_some()
}

/// Whether a release name is a version of a supported line.
pub fn is_supported_name(name: &str) -> (r: bool)
    ensures
        r == supported_name(name@),
{
    is_supported_parse(parse_version(name))
}

} // verus!
