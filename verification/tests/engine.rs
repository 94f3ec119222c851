use bs::digest::digest_bytes;
use bs::job::{classify_paths, digest_reply, scan_reply};
use bs::queue::JobQueue;
use bs::{Coordinator, DirEntry, JobType, PathKind};
use sha2::Digest;
use std::cmp::Ordering;
use std::collections::{HashMap, VecDeque};

// An in-memory tree for driving the engine without touching any disk.
enum Node {
    File(Vec<u8>),
    // a path whose metadata says "regular file" but whose open fails
    UnopenableFile,
    Dir(Vec<String>),
    Unlistable,
    Symlink,
}

fn kind_of(fs: &HashMap<String, Node>, path: &str) -> PathKind {
    match fs.get(path) {
        Some(Node::File(_)) | Some(Node::UnopenableFile) => PathKind::File,
        Some(Node::Dir(_)) | Some(Node::Unlistable) => PathKind::Dir,
        Some(Node::Symlink) => PathKind::Symlink,
        None => PathKind::Missing,
    }
}

fn entries_for(fs: &HashMap<String, Node>, paths: &[String]) -> Vec<DirEntry> {
    paths
        .iter()
        .map(|p| DirEntry { path: p.clone(), kind: kind_of(fs, p) })
        .collect()
}

// One simulated worker step: consume a job, reply as the worker would.
fn work(
    fs: &HashMap<String, Node>,
    job: JobType,
    inbox: &mut VecDeque<JobType>,
) -> Result<(), bs::Error> {
    match job {
        JobType::Digest(no, path) => {
            let content = match fs.get(&path) {
                Some(Node::File(bytes)) => Some(bytes.clone()),
                _ => None,
            };
            inbox.push_back(digest_reply(no, &path, content.as_ref()));
            Ok(())
        }
        JobType::Scan(no, dir) => match fs.get(&dir) {
            Some(Node::Dir(children)) => {
                for reply in scan_reply(no, &entries_for(fs, children)) {
                    inbox.push_back(reply);
                }
                Ok(())
            }
            _ => Err(bs::Error::scan_failed(&dir)),
        },
        _ => unreachable!(),
    }
}

// Drives the engine to completion single-threadedly, modelling the pool:
// one bounded channel of capacity two per worker, a shared reply queue,
// and per cycle one dispatch attempt per worker, one job processed per
// worker and one reply ingested. `spy` watches the outstanding count and
// the done flag after every coordinator step.
fn run_engine(
    fs: &HashMap<String, Node>,
    roots: &[String],
    n_workers: usize,
    spy: &mut dyn FnMut(usize, usize, usize, bool),
) -> Result<Vec<bs::job::Hash>, bs::Error> {
    let initial = classify_paths(&entries_for(fs, roots));
    let mut c = Coordinator::new(initial);
    let mut channels: Vec<VecDeque<JobType>> = (0..n_workers).map(|_| VecDeque::new()).collect();
    let mut inbox: VecDeque<JobType> = VecDeque::new();
    loop {
        for ch in channels.iter_mut() {
            let job = match c.next_job() {
                Some(job) => job,
                None => break,
            };
            if ch.len() < 2 {
                ch.push_back(job);
                c.mark_dispatched();
            }
        }
        let held: usize = channels.iter().map(|ch| ch.len()).sum();
        spy(c.outstanding_count(), held, inbox.len(), c.is_done());
        for ch in channels.iter_mut() {
            if let Some(job) = ch.pop_front() {
                work(fs, job, &mut inbox)?;
            }
        }
        if let Some(msg) = inbox.pop_front() {
            assert!(c.total() < u64::MAX);
            c.ingest(msg);
            let held: usize = channels.iter().map(|ch| ch.len()).sum();
            spy(c.outstanding_count(), held, inbox.len(), c.is_done());
        }
        if c.is_done() {
            break;
        }
    }
    Ok(c.into_hashes())
}

fn run(fs: &HashMap<String, Node>, roots: &[String]) -> Result<Vec<bs::job::Hash>, bs::Error> {
    run_engine(fs, roots, 4, &mut |_, _, _, _| {})
}

fn result_set(hashes: Vec<bs::job::Hash>) -> Vec<(String, Vec<u8>)> {
    let mut v: Vec<(String, Vec<u8>)> = hashes.into_iter().map(|h| (h.path, h.hash)).collect();
    v.sort();
    v
}

fn s(x: &str) -> String {
    x.to_string()
}

#[test]
fn scenario_file_and_dir() {
    // roots ["/a.txt", "/d"], "/a.txt" holds "hi", "/d" holds "/d/b.txt"
    // with "bye": exactly those two files are hashed.
    let mut fs = HashMap::new();
    fs.insert(s("/a.txt"), Node::File(b"hi".to_vec()));
    fs.insert(s("/d"), Node::Dir(vec![s("/d/b.txt")]));
    fs.insert(s("/d/b.txt"), Node::File(b"bye".to_vec()));
    let got = result_set(run(&fs, &[s("/a.txt"), s("/d")]).unwrap());
    let want = vec![
        (s("/a.txt"), digest_bytes(b"hi")),
        (s("/d/b.txt"), digest_bytes(b"bye")),
    ];
    assert_eq!(got, want);
}

#[test]
fn scenario_missing_root() {
    // a root that does not exist is silently skipped; the run succeeds
    // with an empty result set.
    let fs = HashMap::new();
    let got = run(&fs, &[s("/missing")]).unwrap();
    assert!(got.is_empty());
}

#[test]
fn scenario_unlistable_dir() {
    // a directory that cannot be listed is fatal: the run fails and no
    // partial result is returned.
    let mut fs = HashMap::new();
    fs.insert(s("/d"), Node::Unlistable);
    let err = run(&fs, &[s("/d")]).unwrap_err();
    assert!(matches!(err, bs::Error::IoError(_)));
    assert_eq!(err.description().as_str(), "read_dir failed: /d");
}

#[test]
fn completeness_files_only() {
    // file-only roots: one entry per openable file, none for the
    // unopenable one.
    let mut fs = HashMap::new();
    fs.insert(s("/a"), Node::File(b"aaa".to_vec()));
    fs.insert(s("/b"), Node::File(b"bbb".to_vec()));
    fs.insert(s("/locked"), Node::UnopenableFile);
    let got = result_set(run(&fs, &[s("/a"), s("/b"), s("/locked")]).unwrap());
    let want = vec![
        (s("/a"), digest_bytes(b"aaa")),
        (s("/b"), digest_bytes(b"bbb")),
    ];
    assert_eq!(got, want);
}

#[test]
fn recursive_discovery() {
    // deep nesting: every regular file under the tree is found, no entry
    // for any directory, and a symlink on the way is never followed.
    let mut fs = HashMap::new();
    fs.insert(s("/d"), Node::Dir(vec![s("/d/e"), s("/d/top.txt"), s("/d/link")]));
    fs.insert(s("/d/e"), Node::Dir(vec![s("/d/e/f"), s("/d/e/x.txt")]));
    fs.insert(s("/d/e/f"), Node::Dir(vec![s("/d/e/f/deep.txt")]));
    fs.insert(s("/d/e/f/deep.txt"), Node::File(b"deep".to_vec()));
    fs.insert(s("/d/e/x.txt"), Node::File(b"x".to_vec()));
    fs.insert(s("/d/top.txt"), Node::File(b"top".to_vec()));
    fs.insert(s("/d/link"), Node::Symlink);
    let got = result_set(run(&fs, &[s("/d")]).unwrap());
    let want = vec![
        (s("/d/e/f/deep.txt"), digest_bytes(b"deep")),
        (s("/d/e/x.txt"), digest_bytes(b"x")),
        (s("/d/top.txt"), digest_bytes(b"top")),
    ];
    assert_eq!(got, want);
}

#[test]
fn symlink_root_excluded() {
    // a symlink root produces no entry and no expansion, even when a
    // file of the same name could be read through it.
    let mut fs = HashMap::new();
    fs.insert(s("/link"), Node::Symlink);
    let got = run(&fs, &[s("/link")]).unwrap();
    assert!(got.is_empty());
}

#[test]
fn done_reached_exactly_once() {
    // the outstanding ledger reaches empty exactly once, at run end,
    // however the replies are interleaved with dispatches.
    let mut fs = HashMap::new();
    fs.insert(s("/d"), Node::Dir(vec![s("/d/a"), s("/d/b"), s("/d/c")]));
    fs.insert(s("/d/a"), Node::File(b"a".to_vec()));
    fs.insert(s("/d/b"), Node::File(b"b".to_vec()));
    fs.insert(s("/d/c"), Node::File(b"c".to_vec()));
    let mut done_seen = 0usize;
    let mut steps = 0usize;
    let got = run_engine(&fs, &[s("/d")], 1, &mut |_, _, _, done| {
        steps += 1;
        if done {
            done_seen += 1;
        }
    })
    .unwrap();
    assert_eq!(done_seen, 1);
    assert!(steps > done_seen);
    assert_eq!(got.len(), 3);
}

#[test]
fn bounded_in_flight() {
    // with N workers behind channels of capacity two, the workers never
    // hold more than 2N jobs, and every unanswered dispatch is physically
    // accounted for: it sits in a worker channel or its reply is waiting
    // to be ingested — none is lost, none is counted twice.
    let mut fs = HashMap::new();
    fs.insert(
        s("/d"),
        Node::Dir(vec![s("/d/a"), s("/d/b"), s("/d/c"), s("/d/e"), s("/d/f")]),
    );
    for name in ["/d/a", "/d/b", "/d/c", "/d/e", "/d/f"] {
        fs.insert(s(name), Node::File(name.as_bytes().to_vec()));
    }
    let mut max_held = 0usize;
    let got = run_engine(&fs, &[s("/d")], 2, &mut |outstanding, held, inbox_len, _| {
        if held > max_held {
            max_held = held;
        }
        assert!(outstanding <= held + inbox_len);
    })
    .unwrap();
    assert!(max_held <= 2 * 2);
    assert_eq!(got.len(), 5);
}

#[test]
fn digest_deterministic_and_sensitive() {
    // same bytes, same digest — and one changed byte changes it.
    let a = digest_bytes(b"the same content");
    let b = digest_bytes(b"the same content");
    let c = digest_bytes(b"the same_content");
    assert_eq!(a, b);
    assert_ne!(a, c);
    assert_eq!(a.len(), 32);
}

#[test]
fn digest_matches_sha512_256() {
    // the digest is SHA-512/256: check the well-known value for "abc"
    // and, across the chunk boundary, agreement with the hash crate
    // driven in one shot.
    let abc = digest_bytes(b"abc");
    let expected = "53048e2681941ef99b2e29b76b4c7dabe4c2d0c634fc6d46e0e2f13107e7af23";
    let hex: String = abc.iter().map(|b| format!("{:02x}", b)).collect();
    assert_eq!(hex, expected);

    let big = vec![0x61u8; 20000];
    let mut h = sha2::Sha512Trunc256::new();
    h.update(&big);
    assert_eq!(digest_bytes(&big), h.finalize().to_vec());
}

#[test]
fn streaming_digest_matches_one_shot() {
    // feeding content piecewise digests the concatenation.
    let mut sd = bs::digest::StreamingDigest::new();
    sd.update(b"hello ");
    sd.update(b"world");
    assert_eq!(sd.finish(), digest_bytes(b"hello world"));
}

#[test]
fn classify_kinds() {
    let entries = vec![
        DirEntry { path: s("/f"), kind: PathKind::File },
        DirEntry { path: s("/d"), kind: PathKind::Dir },
        DirEntry { path: s("/l"), kind: PathKind::Symlink },
        DirEntry { path: s("/o"), kind: PathKind::Other },
        DirEntry { path: s("/m"), kind: PathKind::Missing },
    ];
    let jobs = classify_paths(&entries);
    assert_eq!(jobs.len(), 2);
    assert!(matches!(&jobs[0], JobType::Digest(0, p) if p == "/f"));
    assert!(matches!(&jobs[1], JobType::Scan(0, p) if p == "/d"));
}

#[test]
fn scan_reply_tags_children_and_retires() {
    let entries = vec![
        DirEntry { path: s("/d/f"), kind: PathKind::File },
        DirEntry { path: s("/d/l"), kind: PathKind::Symlink },
        DirEntry { path: s("/d/e"), kind: PathKind::Dir },
    ];
    let replies = scan_reply(7, &entries);
    assert_eq!(replies.len(), 3);
    assert!(matches!(&replies[0], JobType::Digest(7, p) if p == "/d/f"));
    assert!(matches!(&replies[1], JobType::Scan(7, p) if p == "/d/e"));
    assert!(matches!(&replies[2], JobType::Done(7)));
}

#[test]
fn digest_reply_outcomes() {
    let content = b"data".to_vec();
    let ok = digest_reply(3, &s("/p"), Some(&content));
    match ok {
        JobType::Hash(3, h) => {
            assert_eq!(h.path, "/p");
            assert_eq!(h.hash, digest_bytes(b"data"));
        }
        _ => panic!("expected a hash reply"),
    }
    assert!(matches!(digest_reply(4, &s("/p"), None), JobType::Done(4)));
}

#[test]
fn queue_prefers_scans() {
    let mut q = JobQueue::new();
    q.push(JobType::Digest(0, s("/f1")));
    q.push(JobType::Scan(0, s("/d")));
    q.push(JobType::Digest(0, s("/f2")));
    assert!(matches!(q.pop_max(), Some(JobType::Scan(0, p)) if p == "/d"));
    assert!(matches!(q.pop_max(), Some(JobType::Digest(0, p)) if p == "/f1"));
    assert!(matches!(q.pop_max(), Some(JobType::Digest(0, p)) if p == "/f2"));
    assert!(q.pop_max().is_none());
}

#[test]
fn job_ordering_table() {
    let scan = JobType::Scan(1, s("/d"));
    let digest = JobType::Digest(2, s("/f"));
    let hash = JobType::Hash(3, bs::job::Hash::new(&s("/f"), &[0u8; 32]));
    let done = JobType::Done(4);
    assert_eq!(scan.cmp(&digest), Ordering::Greater);
    assert_eq!(digest.cmp(&scan), Ordering::Less);
    assert_eq!(digest.cmp(&hash), Ordering::Greater);
    assert_eq!(hash.cmp(&done), Ordering::Greater);
    assert_eq!(done.cmp(&done), Ordering::Equal);
    assert_eq!(scan.cmp(&scan), Ordering::Equal);
    // equality goes by variant alone
    assert!(digest == JobType::Digest(9, s("/other")));
    assert!(digest != JobType::Done(2));
}

#[test]
fn job_numbers() {
    let job = JobType::Scan(0, s("/d"));
    let stamped = JobType::new_from(41, &job);
    assert_eq!(stamped.job_no(), 41);
    assert!(matches!(&stamped, JobType::Scan(41, p) if p == "/d"));
    assert_eq!(JobType::Done(9).job_no(), 9);
}

#[test]
fn hash_new_copies() {
    let h = bs::job::Hash::new(&s("/x"), &[7u8; 32]);
    assert_eq!(h.path, "/x");
    assert_eq!(h.hash, vec![7u8; 32]);
}

#[test]
fn coordinator_seeds_total_and_counts() {
    let initial = vec![JobType::Digest(0, s("/a")), JobType::Scan(0, s("/d"))];
    let mut c = Coordinator::new(initial);
    assert_eq!(c.total(), 2);
    assert_eq!(c.pending_count(), 2);
    assert_eq!(c.outstanding_count(), 0);
    assert!(c.is_done());
    // the scan is handed out first, stamped with id 1
    let first = c.next_job().unwrap();
    assert!(matches!(&first, JobType::Scan(1, p) if p == "/d"));
    c.mark_dispatched();
    assert_eq!(c.outstanding_count(), 1);
    assert!(!c.is_done());
    // a discovered file grows the total but answers nothing: the scan's
    // id stays outstanding until its own acknowledgment arrives
    c.ingest(JobType::Digest(1, s("/d/new.txt")));
    assert_eq!(c.total(), 3);
    assert_eq!(c.pending_count(), 2);
    assert_eq!(c.outstanding_count(), 1);
    assert!(!c.is_done());
    c.ingest(JobType::Done(1));
    assert_eq!(c.outstanding_count(), 0);
    assert!(c.is_done());
}

#[test]
fn digest_of_empty_input() {
    // the well-known SHA-512/256 value of the empty input, which also
    // exercises the zero-chunk path of the streaming loop
    let empty = digest_bytes(b"");
    let hex: String = empty.iter().map(|b| format!("{:02x}", b)).collect();
    assert_eq!(hex, "c672b8d1ef56ed28ab87c3622c5114069bdd3ad7b8f9737498d0c01ecef0967a");
    assert_eq!(bs::digest::StreamingDigest::new().finish(), empty);
}

#[test]
fn new_from_keeps_payloads() {
    let hash = bs::job::Hash::new(&s("/p"), &[8u8; 32]);
    let reply = JobType::Hash(1, hash);
    let restamped = JobType::new_from(17, &reply);
    match restamped {
        JobType::Hash(17, h) => {
            assert_eq!(h.path, "/p");
            assert_eq!(h.hash, vec![8u8; 32]);
        }
        _ => panic!("expected a hash reply"),
    }
    let cloned = JobType::Digest(5, s("/q")).clone();
    assert!(matches!(cloned, JobType::Digest(5, p) if p == "/q"));
}
