use vstd::prelude::*;
use crate::digest::digest_of;
use core::cmp::Ordering;

verus! {

// ---------------------------------------------------------------------------
// Mathematical model
// ---------------------------------------------------------------------------

/// Model of a completed digest: a path paired with its 32-byte content digest.
pub struct HashV {
    pub path: Seq<char>,
    pub digest: Seq<u8>,
}

/// Model of one unit of work or one worker reply.
pub enum JobV {
    /// A file to hash, tagged with the id of the dispatch that discovered it.
    Digest { no: u64, path: Seq<char> },
    /// A directory to expand.
    Scan { no: u64, path: Seq<char> },
    /// A completed digest travelling back to the coordinator.
    HashRes { no: u64, hash: HashV },
    /// Terminal acknowledgment: the dispatch produced no further work.
    Done { no: u64 },
}

impl JobV {
    /// The job identifier carried by every variant.
    pub open spec fn no(self) -> u64 {
        match self {
            JobV::Digest { no, .. } => no,
            JobV::Scan { no, .. } => no,
            JobV::HashRes { no, .. } => no,
            JobV::Done { no } => no,
        }
    }

    /// The same job under a fresh identifier.
    pub open spec fn with_no(self, no: u64) -> JobV {
        match self {
            JobV::Digest { path, .. } => JobV::Digest { no, path },
            JobV::Scan { path, .. } => JobV::Scan { no, path },
            JobV::HashRes { hash, .. } => JobV::HashRes { no, hash },
            JobV::Done { .. } => JobV::Done { no },
        }
    }

    /// Scheduling priority: directories are expanded before files are
    /// hashed, so that the full amount of work becomes known as early as
    /// possible; replies never occupy the queue and rank below both.
    pub open spec fn rank(self) -> int {
        match self {
            JobV::Scan { .. } => 3,
            JobV::Digest { .. } => 2,
            JobV::HashRes { .. } => 1,
            JobV::Done { .. } => 0,
        }
    }

    /// Only discovery and hashing work is ever queued.
    pub open spec fn is_pending(self) -> bool {
        self is Scan || self is Digest
    }
}

/// The order two jobs compare under: by rank alone, ties are equal.
pub open spec fn rank_ordering(a: JobV, b: JobV) -> Ordering {
    if a.rank() < b.rank() {
        Ordering::Less
    } else if a.rank() == b.rank() {
        Ordering::Equal
    } else {
        Ordering::Greater
    }
}

// ---------------------------------------------------------------------------
// Executable types
// ---------------------------------------------------------------------------

/// A completed digest: the path of a regular file paired with the 32-byte
/// content digest computed for it.
#[derive(Debug)]
pub struct Hash {
    pub path: String,
    pub hash: Vec<u8>,
}

impl View for Hash {
    type V = HashV;

    open spec fn view(&self) -> HashV {
        HashV { path: self.path@, digest: self.hash@ }
    }
}

impl Hash {
    /// The digest field always holds exactly 32 bytes.
    pub open spec fn wf(&self) -> bool {
        self.hash@.len() == 32
    }

    pub fn new(p: &String, h: &[u8]) -> (r: Self)
        requires
            h@.len() == 32,
        ensures
            r@ == (HashV { path: p@, digest: h@ }),
            r.wf(),
    {
        Hash { path: p.clone(), hash: vstd::slice::slice_to_vec(h) }
    }
}

impl Clone for Hash {
    fn clone(&self) -> (r: Self)
        ensures
            r@ == self@,
    {
        Hash { path: self.path.clone(), hash: vstd::slice::slice_to_vec(self.hash.as_slice()) }
    }
}

/// A tagged work or reply unit. `Digest` and `Scan` are dispatched to
/// workers; `Hash` and `Done` are the replies workers send back.
#[derive(Debug)]
pub enum JobType {
    Digest(u64, String),
    Scan(u64, String),
    Hash(u64, Hash),
    Done(u64),
}

impl View for JobType {
    type V = JobV;

    open spec fn view(&self) -> JobV {
        match self {
            JobType::Digest(no, path) => JobV::Digest { no: *no, path: path@ },
            JobType::Scan(no, path) => JobV::Scan { no: *no, path: path@ },
            JobType::Hash(no, hash) => JobV::HashRes { no: *no, hash: hash@ },
            JobType::Done(no) => JobV::Done { no: *no },
        }
    }
}

impl Clone for JobType {
    fn clone(&self) -> (r: Self)
        ensures
            r@ == self@,
    {
        match self {
            JobType::Digest(no, path) => JobType::Digest(*no, path.clone()),
            JobType::Scan(no, path) => JobType::Scan(*no, path.clone()),
            JobType::Hash(no, hash) => JobType::Hash(*no, hash.clone()),
            JobType::Done(no) => JobType::Done(*no),
        }
    }
}

impl JobType {
    /// The job identifier carried by every variant.
    pub fn job_no(&self) -> (r: u64)
        ensures
            r == self@.no(),
    {
        match self {
            JobType::Digest(no, _) => *no,
            JobType::Scan(no, _) => *no,
            JobType::Hash(no, _) => *no,
            JobType::Done(no) => *no,
        }
    }

    /// A copy of `job` carrying the freshly minted identifier `job_no`;
    /// used at dispatch time, when a queued job is stamped with its id.
    pub fn new_from(job_no: u64, job: &JobType) -> (r: Self)
        ensures
            r@ == job@.with_no(job_no),
    {
        match job {
            JobType::Digest(_, file) => JobType::Digest(job_no, file.clone()),
            JobType::Scan(_, dir) => JobType::Scan(job_no, dir.clone()),
            JobType::Hash(_, hash) => JobType::Hash(job_no, hash.clone()),
            JobType::Done(_) => JobType::Done(job_no),
        }
    }

    /// The scheduling priority of this job, highest dispatched first.
    pub fn rank(&self) -> (r: u8)
        ensures
            r as int == self@.rank(),
    {
        match self {
            JobType::Scan(_, _) => 3,
            JobType::Digest(_, _) => 2,
            JobType::Hash(_, _) => 1,
            JobType::Done(_) => 0,
        }
    }

    /// Compares two jobs by scheduling priority alone: `Scan` above
    /// `Digest`, replies below both, ties within a variant equal.
    pub fn cmp(&self, other: &JobType) -> (r: Ordering)
        ensures
            r == rank_ordering(self@, other@),
    {
        let a = self.rank();
        let b = other.rank();
        if a < b {
            Ordering::Less
        } else if a == b {
            Ordering::Equal
        } else {
            Ordering::Greater
        }
    }
}

impl PartialEq for JobType {
    /// Jobs compare equal exactly when they are the same variant; the
    /// identifier and payload take no part, mirroring the scheduling
    /// order, which ranks variants only.
    fn eq(&self, other: &JobType) -> (r: bool)
    {
        self.rank() == other.rank()
    }
}

impl vstd::std_specs::cmp::PartialEqSpecImpl for JobType {
    open spec fn obeys_eq_spec() -> bool {
        true
    }

    open spec fn eq_spec(&self, other: &JobType) -> bool {
        self@.rank() == other@.rank()
    }
}

impl Eq for JobType {}

impl PartialOrd for JobType {
    fn partial_cmp(&self, other: &JobType) -> (r: Option<Ordering>)
    {
        Some(self.cmp(other))
    }
}

impl vstd::std_specs::cmp::PartialOrdSpecImpl for JobType {
    open spec fn obeys_partial_cmp_spec() -> bool {
        true
    }

    open spec fn partial_cmp_spec(&self, other: &JobType) -> Option<Ordering> {
        Some(rank_ordering(self@, other@))
    }
}

// ---------------------------------------------------------------------------
// Classification
// ---------------------------------------------------------------------------

/// What the filesystem metadata of a path showed, read without following
/// symlinks. `Missing` stands for a path whose metadata could not be read.
#[derive(Clone, Copy, Debug, PartialEq, Eq, Structural)]
pub enum PathKind {
    File,
    Dir,
    Symlink,
    Other,
    Missing,
}

/// A directory entry or root path as handed to classification: the path
/// and what kind of object its metadata showed.
pub struct DirEntry {
    pub path: String,
    pub kind: PathKind,
}

/// Model of a directory entry.
pub struct EntryV {
    pub path: Seq<char>,
    pub kind: PathKind,
}

impl View for DirEntry {
    type V = EntryV;

    open spec fn view(&self) -> EntryV {
        EntryV { path: self.path@, kind: self.kind }
    }
}

/// Classification of one path: a regular file becomes a `Digest` job, a
/// directory a `Scan` job; anything else — a symlink, a special file, a
/// missing path — is skipped.
pub open spec fn classify_v(e: EntryV) -> Option<JobV> {
    match e.kind {
        PathKind::File => Some(JobV::Digest { no: 0, path: e.path }),
        PathKind::Dir => Some(JobV::Scan { no: 0, path: e.path }),
        _ => None,
    }
}

/// Classification of a list of paths, keeping input order and dropping
/// every path that is neither a regular file nor a directory.
pub open spec fn classified(entries: Seq<EntryV>) -> Seq<JobV>
    decreases entries.len(),
{
    if entries.len() == 0 {
        Seq::empty()
    } else {
        let rest = classified(entries.drop_last());
        match classify_v(entries.last()) {
            Some(j) => rest.push(j),
            None => rest,
        }
    }
}

/// The views of a sequence of jobs.
pub open spec fn job_views(s: Seq<JobType>) -> Seq<JobV> {
    s.map_values(|j: JobType| j@)
}

/// The views of a sequence of entries.
pub open spec fn entry_views(s: Seq<DirEntry>) -> Seq<EntryV> {
    s.map_values(|e: DirEntry| e@)
}

/// Turns a list of paths, each with the kind its metadata showed, into
/// pending jobs: files to digest and directories to scan, in input order;
/// symlinks and every other kind produce nothing.
pub fn classify_paths(entries: &Vec<DirEntry>) -> (jobs: Vec<JobType>)
    ensures
        job_views(jobs@) == classified(entry_views(entries@)),
        forall|i: int| 0 <= i < jobs@.len() ==> (#[trigger] jobs@[i]@).is_pending(),
{
    let mut jobs: Vec<JobType> = Vec::new();
    let n = entries.len();
    assert(entry_views(entries@.take(0)) =~= Seq::<EntryV>::empty());
    for i in 0..n
        invariant
            n == entries@.len(),
            job_views(jobs@) == classified(entry_views(entries@.take(i as int))),
            forall|k: int| 0 <= k < jobs@.len() ==> (#[trigger] jobs@[k]@).is_pending(),
    {
        let e = &entries[i];
        let ghost prefix = entry_views(entries@.take(i as int));
        assert(entry_views(entries@.take(i + 1)).drop_last() =~= prefix);
        assert(entry_views(entries@.take(i + 1)).last() == e@);
        match e.kind {
            PathKind::File => {
                jobs.push(JobType::Digest(0, e.path.clone()));
                assert(job_views(jobs@) =~= classified(entry_views(entries@.take(i + 1))));
            },
            PathKind::Dir => {
                jobs.push(JobType::Scan(0, e.path.clone()));
                assert(job_views(jobs@) =~= classified(entry_views(entries@.take(i + 1))));
            },
            _ => {
                assert(job_views(jobs@) =~= classified(entry_views(entries@.take(i + 1))));
            },
        }
    }
    assert(entries@.take(n as int) =~= entries@);
    jobs
}

// ---------------------------------------------------------------------------
// Worker replies
// ---------------------------------------------------------------------------

/// The reply a worker owes for a dispatched `Digest` job: the digest of
/// the file's content when the file could be opened and read, or a bare
/// `Done` when it could not — a failed open is a silent, non-fatal outcome.
pub open spec fn digest_reply_v(no: u64, path: Seq<char>, content: Option<Seq<u8>>) -> JobV {
    match content {
        Some(bytes) => JobV::HashRes {
            no,
            hash: HashV { path, digest: digest_of(bytes) },
        },
        None => JobV::Done { no },
    }
}

/// Builds the reply for a `Digest` dispatch from what could be read of
/// the file: the whole content, or nothing when the open failed.
pub fn digest_reply(job_no: u64, path: &String, content: Option<&Vec<u8>>) -> (r: JobType)
    ensures
        r@ == digest_reply_v(job_no, path@, match content {
            Some(c) => Some(c@),
            None => None,
        }),
{
    match content {
        Some(bytes) => {
            let d = crate::digest::digest_bytes(bytes.as_slice());
            JobType::Hash(job_no, Hash::new(path, d.as_slice()))
        },
        None => JobType::Done(job_no),
    }
}

/// Classification completeness over file-only inputs: when every entry
/// is a regular file, classification drops nothing — there is exactly one
/// digest job per entry, in order, for exactly that entry's path.
pub proof fn lemma_classified_files(entries: Seq<EntryV>)
    requires
        forall|i: int| 0 <= i < entries.len() ==> (#[trigger] entries[i]).kind == PathKind::File,
    ensures
        classified(entries).len() == entries.len(),
        forall|i: int|
            0 <= i < entries.len() ==> classified(entries)[i] == (JobV::Digest {
                no: 0,
                path: entries[i].path,
            }),
    decreases entries.len(),
{
    if entries.len() > 0 {
        let rest = entries.drop_last();
        assert(forall|i: int| 0 <= i < rest.len() ==> rest[i] == entries[i]);
        lemma_classified_files(rest);
    }
}

/// Symlink exclusion: a symlink is never classified, so it produces no
/// job — neither a digest nor an expansion — wherever it is met.
pub proof fn lemma_symlink_never_classified(e: EntryV)
    requires
        e.kind == PathKind::Symlink,
    ensures
        classify_v(e) is None,
{
}

/// The replies a worker owes for a dispatched `Scan` job whose directory
/// could be listed: one job per classified child, each still tagged with
/// the dispatching id, followed by `Done` to mark the dispatch answered.
pub open spec fn scan_reply_v(no: u64, entries: Seq<EntryV>) -> Seq<JobV> {
    classified(entries).map_values(|j: JobV| j.with_no(no)).push(JobV::Done { no })
}

/// Builds the replies for a `Scan` dispatch from the directory's entries.
/// A directory that cannot be listed never reaches this point: that case
/// is a fatal run failure, not a worker reply.
pub fn scan_reply(job_no: u64, entries: &Vec<DirEntry>) -> (r: Vec<JobType>)
    ensures
        job_views(r@) == scan_reply_v(job_no, entry_views(entries@)),
{
    let mut out: Vec<JobType> = Vec::new();
    let children = classify_paths(entries);
    let n = children.len();
    let ghost cv = classified(entry_views(entries@));
    for i in 0..n
        invariant
            n == children@.len(),
            job_views(children@) == cv,
            job_views(out@) =~= cv.map_values(|j: JobV| j.with_no(job_no)).take(i as int),
    {
        let ghost prev = out@;
        out.push(JobType::new_from(job_no, &children[i]));
        proof {
            let f = |j: JobV| j.with_no(job_no);
            assert(children@[i as int]@ == cv[i as int]);
            assert(job_views(out@) =~= job_views(prev).push(cv[i as int].with_no(job_no)));
            assert(cv.map_values(f).take(i + 1) =~= cv.map_values(f).take(i as int).push(
                f(cv[i as int]),
            ));
        }
    }
    assert(cv.map_values(|j: JobV| j.with_no(job_no)).take(n as int) =~= cv.map_values(
        |j: JobV| j.with_no(job_no),
    ));
    out.push(JobType::Done(job_no));
    assert(job_views(out@) =~= scan_reply_v(job_no, entry_views(entries@)));
    out
}

} // verus!
