//! The install pipeline's own decisions: download progress, the topic that
//! progress is published under, and where an unpacked archive ends up.
use vstd::prelude::*;
use crate::text::same_text;

verus! {

/// Download progress of one version: the advertised size (0 where none was
/// advertised) and the bytes received so far.
#[derive(Clone, Copy, Debug, PartialEq, Eq, Structural)]
pub struct Progress {
    pub total: u64,
    pub progress: u64,
}

impl Progress {
    /// The progress of a download that has not received anything yet.
    pub fn new(content_length: Option<u64>) -> (r: Progress)
        ensures
            r.total == match content_length {
                Some(n) => n,
                None => 0,
            },
            r.progress == 0,
    {
        let total = match content_length {
            Some(n) => n,
            None => 0,
        };
        Progress { total, progress: 0 }
    }

    /// Counts a chunk of `len` bytes as received.
    pub fn advance(&mut self, len: usize)
        requires
            old(self).progress + len <= u64::MAX,
        ensures
            final(self).total == old(self).total,
            final(self).progress == old(self).progress + len,
    {
        self.progress = self.progress + len as u64;
    }
}

/// The sum of chunk lengths.
pub open spec fn sum(lens: Seq<nat>) -> nat
    decreases lens.len(),
{
    if lens.len() == 0 {
        0
    } else {
        sum(lens.drop_last()) + lens.last()
    }
}

/// The progress reported after each chunk, starting from nothing received.
pub open spec fn reports(lens: Seq<nat>) -> Seq<nat>
    decreases lens.len(),
{
    if lens.len() == 0 {
        Seq::empty()
    } else {
        reports(lens.drop_last()).push(sum(lens))
    }
}

/// Progress reports over non-empty chunks strictly increase, one per chunk,
/// and the last one is the sum of all chunks.
pub proof fn lemma_reports_increase(lens: Seq<nat>)
    requires
        forall|i: int| 0 <= i < lens.len() ==> lens[i] > 0,
    ensures
        reports(lens).len() == lens.len(),
        forall|i: int, j: int| 0 <= i < j < lens.len() ==> reports(lens)[i] < reports(lens)[j],
        forall|i: int| 0 <= i < lens.len() ==> reports(lens)[i] <= sum(lens),
        lens.len() > 0 ==> reports(lens).last() == sum(lens),
    decreases lens.len(),
{
    if lens.len() > 0 {
        let rest = lens.drop_last();
        lemma_reports_increase(rest);
        assert(sum(lens) == sum(rest) + lens.last());
        assert(lens.last() == lens[lens.len() - 1]);
        let r = reports(lens);
        assert forall|i: int, j: int| 0 <= i < j < lens.len() implies r[i] < r[j] by {
            if j < lens.len() - 1 {
                assert(r[i] == reports(rest)[i]);
                assert(r[j] == reports(rest)[j]);
            } else {
                assert(r[i] == reports(rest)[i]);
            }
        }
        assert forall|i: int| 0 <= i < lens.len() implies r[i] <= sum(lens) by {
            if i < lens.len() - 1 {
                assert(r[i] == reports(rest)[i]);
            }
        }
    }
}

/// `s` with every `'.'` turned into `'-'`.
pub open spec fn dashed(s: Seq<char>) -> Seq<char> {
    s.map_values(|c: char| if c == '.' { '-' } else { c })
}

/// The topic under which the download progress of `version` is published.
pub open spec fn topic_of(version: Seq<char>) -> Seq<char> {
    "node_download:"@ + dashed(version)
}

/// The topic under which the download progress of `version` is published,
/// such as `node_download:v18-0-0`, so that downloads of different versions
/// do not mix.
pub fn progress_topic(version: &str) -> (r: String)
    ensures
        r@ == topic_of(version@),
{
    let n = version.unicode_len();
    let mut body = String::new();
    let mut i: usize = 0;
    while i < n
        invariant
            n == version@.len(),
            i <= n,
            body@ == dashed(version@.subrange(0, i as int)),
        decreases n - i,
    {
        let c = version.get_char(i);
        if c == '.' {
            body.append("-");
        } else {
            body.append(version.substring_char(i, i + 1));
        }
        proof {
            reveal_strlit("-");
            assert(body@ =~= dashed(version@.subrange(0, i + 1)));
        }
        i = i + 1;
    }
    assert(version@.subrange(0, n as int) =~= version@);
    let mut r = String::from_str("node_download:");
    r.append(body.as_str());
    r
}

/// The extension of the archives that are unpacked here.
pub const TAR_XZ: &'static str = ".tar.xz";

/// `s` with every trailing `.tar.xz` removed.
pub open spec fn trim_archive_ext(s: Seq<char>) -> Seq<char>
    decreases s.len(),
{
    if s.len() >= TAR_XZ@.len() && TAR_XZ@.len() > 0 && s.subrange(
        s.len() - TAR_XZ@.len(),
        s.len() as int,
    ) == TAR_XZ@ {
        trim_archive_ext(s.subrange(0, s.len() - TAR_XZ@.len()))
    } else {
        s
    }
}

/// The directory that an archive named `archive_name` unpacks to: its name
/// without the archive extension.
pub fn extracted_dir(archive_name: &str) -> (r: &str)
    ensures
        r@ == trim_archive_ext(archive_name@),
{
    proof {
        reveal_strlit(".tar.xz");
    }
    let n = archive_name.unicode_len();
    let mut end: usize = n;
    assert(archive_name@.subrange(0, n as int) =~= archive_name@);
    while end >= 7 && same_text(archive_name.substring_char(end - 7, end), TAR_XZ)
        invariant
            n == archive_name@.len(),
            end <= n,
            TAR_XZ@.len() == 7,
            trim_archive_ext(archive_name@) == trim_archive_ext(
                archive_name@.subrange(0, end as int),
            ),
        decreases end,
    {
        proof {
            let s = archive_name@.subrange(0, end as int);
            assert(s.subrange(end - 7, end as int) =~= archive_name@.subrange(end - 7, end as int));
            assert(s.subrange(0, end - 7) =~= archive_name@.subrange(0, end - 7));
        }
        end = end - 7;
    }
    proof {
        let s = archive_name@.subrange(0, end as int);
        if end >= 7 {
            assert(s.subrange(end - 7, end as int) =~= archive_name@.subrange(end - 7, end as int));
        }
    }
    archive_name.substring_char(0, end)
}

/// Where an unpacked archive is moved: from the directory the archive
/// unpacked to, to the directory named after the requested version, both
/// under the install root.
pub struct UnpackPlan {
    pub from: String,
    pub to: String,
}

/// Where the archive named `archive_name` of `version` unpacks to, and the
/// directory it is then renamed to: exactly the requested version's name.
pub fn unpack_plan(version: &str, archive_name: &str) -> (r: UnpackPlan)
    ensures
        r.from@ == trim_archive_ext(archive_name@),
        r.to@ == version@,
{
    UnpackPlan {
        from: String::from_str(extracted_dir(archive_name)),
        to: String::from_str(version),
    }
}

} // verus!
