use vstd::prelude::*;
use crate::job::{job_views, HashV, JobType, JobV};
use crate::queue::{max_rank_idx, JobQueue};

verus! {

/// Removes the first occurrence of `id`, reporting whether one was there.
fn remove_first(ids: &mut Vec<u64>, id: u64) -> (found: bool)
    ensures
        found == old(ids)@.contains(id),
        found ==> exists|k: int|
            0 <= k < old(ids)@.len() && old(ids)@[k] == id && final(ids)@ == old(ids)@.remove(k),
        !found ==> final(ids)@ == old(ids)@,
{
    let n = ids.len();
    let mut i: usize = 0;
    while i < n
        invariant
            i <= n,
            n == ids@.len(),
            ids@ == old(ids)@,
            forall|k: int| 0 <= k < i ==> ids@[k] != id,
        decreases n - i,
    {
        if ids[i] == id {
            ids.remove(i);
            return true;
        }
        i = i + 1;
    }
    false
}

/// Removing one position keeps the remaining elements, their pairwise
/// distinctness and any upper bound they all obey.
proof fn lemma_unique_remove(s: Seq<u64>, k: int, bound: u64)
    requires
        0 <= k < s.len(),
        forall|i: int, j: int| 0 <= i < j < s.len() ==> s[i] != s[j],
        forall|i: int| 0 <= i < s.len() ==> (#[trigger] s[i]) < bound,
    ensures
        forall|i: int, j: int|
            0 <= i < j < s.remove(k).len() ==> s.remove(k)[i] != s.remove(k)[j],
        forall|i: int| 0 <= i < s.remove(k).len() ==> (#[trigger] s.remove(k)[i]) < bound,
{
    let t = s.remove(k);
    assert forall|i: int, j: int| 0 <= i < j < t.len() implies t[i] != t[j] by {
        let ii: int = if i < k { i } else { i + 1 };
        let jj: int = if j < k { j } else { j + 1 };
        assert(t[i] == s[ii]);
        assert(t[j] == s[jj]);
    }
    assert forall|i: int| 0 <= i < t.len() implies (#[trigger] t[i]) < bound by {
        let ii: int = if i < k { i } else { i + 1 };
        assert(t[i] == s[ii]);
    }
}

/// The single control loop's state: the queue of not-yet-dispatched work,
/// the ledger of dispatched-but-unanswered job identifiers, the counter
/// that mints identifiers, the collected digests, and the live total-work
/// count shown as progress. The engine is finished when the ledger is
/// empty *and* the queue is drained: the driver owes a dispatch phase
/// before each termination check, and then an empty ledger entails an
/// empty queue — anything still queued at the check would have just been
/// dispatched and be outstanding.
pub struct Coordinator {
    queue: JobQueue,
    outstanding: Vec<u64>,
    next_no: u64,
    total: u64,
    hashes: Vec<crate::job::Hash>,
    dispatched: Ghost<nat>,
    answered: Ghost<nat>,
}

impl Coordinator {
    /// The queued jobs, in insertion order.
    pub closed spec fn pending(&self) -> Seq<JobV> {
        self.queue@
    }

    /// The ledger: identifiers of dispatched jobs not yet answered, in
    /// dispatch order.
    pub closed spec fn outstanding_ids(&self) -> Seq<u64> {
        self.outstanding@
    }

    /// The identifier the next dispatch will carry.
    pub closed spec fn next_id(&self) -> u64 {
        self.next_no
    }

    /// The digests collected so far, in arrival order.
    pub closed spec fn results(&self) -> Seq<HashV> {
        self.hashes@.map_values(|h: crate::job::Hash| h@)
    }

    /// The live total-work count: seeded from the number of root jobs and
    /// grown by one for every file a scan discovers.
    pub closed spec fn spec_total(&self) -> u64 {
        self.total
    }

    /// How many dispatches were ever made.
    pub closed spec fn dispatched_count(&self) -> nat {
        self.dispatched@
    }

    /// How many received messages answered an outstanding identifier.
    pub closed spec fn answered_count(&self) -> nat {
        self.answered@
    }

    pub open spec fn wf(&self) -> bool {
        &&& forall|i: int| 0 <= i < self.pending().len() ==> (#[trigger] self.pending()[i]).is_pending()
        &&& self.next_id() >= 1
        &&& forall|i: int, j: int|
            0 <= i < j < self.outstanding_ids().len() ==> self.outstanding_ids()[i]
                != self.outstanding_ids()[j]
        &&& forall|i: int|
            0 <= i < self.outstanding_ids().len() ==> (#[trigger] self.outstanding_ids()[i])
                < self.next_id()
        &&& self.outstanding_ids().len() + self.answered_count() == self.dispatched_count()
        &&& forall|i: int|
            0 <= i < self.results().len() ==> (#[trigger] self.results()[i]).digest.len() == 32
    }

    /// The coordinator's well-formedness gives the queue its own.
    proof fn lemma_queue_wf(&self)
        requires
            forall|i: int|
                0 <= i < self.pending().len() ==> (#[trigger] self.pending()[i]).is_pending(),
        ensures
            self.queue.wf(),
    {
        assert forall|i: int| 0 <= i < self.queue@.len() implies (
        #[trigger] self.queue@[i]).is_pending() by {
            assert(self.pending()[i].is_pending());
        }
    }

    /// A fresh engine, its queue pre-loaded with the classification of the
    /// caller's root paths and its total-work count seeded from their
    /// number; nothing dispatched, nothing answered, nothing collected.
    pub fn new(initial: Vec<JobType>) -> (r: Self)
        requires
            forall|i: int| 0 <= i < initial@.len() ==> (#[trigger] initial@[i]@).is_pending(),
        ensures
            r.wf(),
            r.pending() == job_views(initial@),
            r.outstanding_ids() == Seq::<u64>::empty(),
            r.next_id() == 1,
            r.results() == Seq::<HashV>::empty(),
            r.spec_total() == initial@.len(),
            r.dispatched_count() == 0,
            r.answered_count() == 0,
    {
        let ghost orig = initial@;
        let total = initial.len() as u64;
        let mut queue = JobQueue::new();
        let mut initial = initial;
        let ghost d: int = 0;
        while initial.len() > 0
            invariant
                queue.wf(),
                0 <= d <= orig.len(),
                initial@ == orig.skip(d),
                queue@ == job_views(orig.take(d)),
                forall|k: int| 0 <= k < orig.len() ==> (#[trigger] orig[k]@).is_pending(),
            decreases initial.len(),
        {
            let ghost prev = queue@;
            let j = initial.remove(0);
            proof {
                assert(j == orig[d]);
                assert(initial@ =~= orig.skip(d + 1));
            }
            queue.push(j);
            proof {
                assert(job_views(orig.take(d + 1)) =~= prev.push(orig[d]@));
                d = d + 1;
            }
        }
        proof {
            assert(orig.take(d) =~= orig);
        }
        let r = Coordinator {
            queue,
            outstanding: Vec::new(),
            next_no: 1,
            total,
            hashes: Vec::new(),
            dispatched: Ghost(0),
            answered: Ghost(0),
        };
        proof {
            assert(r.results() =~= Seq::<HashV>::empty());
        }
        r
    }

    /// The job the dispatch phase would hand out next, already stamped
    /// with the identifier it will carry: the first queued job of maximal
    /// rank. Nothing is recorded until `mark_dispatched` confirms that a
    /// worker accepted it.
    pub fn next_job(&self) -> (r: Option<JobType>)
        ensures
            match r {
                Some(j) => self.pending().len() > 0 && j@ == self.pending()[max_rank_idx(
                    self.pending(),
                )].with_no(self.next_id()),
                None => self.pending().len() == 0,
            },
    {
        match self.queue.peek_max() {
            Some(j) => Some(JobType::new_from(self.next_no, j)),
            None => None,
        }
    }

    /// Records a successful dispatch of the job `next_job` returned: the
    /// job leaves the queue, its freshly minted identifier — never already
    /// in the ledger — enters the ledger, and the mint advances.
    pub fn mark_dispatched(&mut self)
        requires
            old(self).wf(),
            old(self).pending().len() > 0,
            old(self).next_id() < u64::MAX,
        ensures
            final(self).wf(),
            final(self).pending() == old(self).pending().remove(
                max_rank_idx(old(self).pending()),
            ),
            final(self).outstanding_ids() == old(self).outstanding_ids().push(
                old(self).next_id(),
            ),
            !old(self).outstanding_ids().contains(old(self).next_id()),
            final(self).next_id() == old(self).next_id() + 1,
            final(self).results() == old(self).results(),
            final(self).spec_total() == old(self).spec_total(),
            final(self).dispatched_count() == old(self).dispatched_count() + 1,
            final(self).answered_count() == old(self).answered_count(),
    {
        proof {
            self.lemma_queue_wf();
        }
        let ghost prev = self.outstanding@;
        let _ = self.queue.pop_max();
        self.outstanding.push(self.next_no);
        self.next_no = self.next_no + 1;
        proof {
            self.dispatched@ = self.dispatched@ + 1;
            assert forall|i: int, j: int|
                0 <= i < j < self.outstanding@.len() implies self.outstanding@[i]
                != self.outstanding@[j] by {
                if j == self.outstanding@.len() - 1 {
                    assert(prev[i] < old(self).next_no);
                }
            }
            assert forall|i: int|
                0 <= i < self.outstanding@.len() implies (#[trigger] self.outstanding@[i])
                < self.next_no by {
                if i < self.outstanding@.len() - 1 {
                    assert(prev[i] < old(self).next_no);
                }
            }
            assert forall|i: int|
                0 <= i < self.pending().len() implies (#[trigger] self.pending()[i]).is_pending() by {
                assert(self.queue@[i].is_pending());
            }
            assert(self.results() =~= old(self).results());
            assert forall|i: int|
                0 <= i < self.results().len() implies (#[trigger] self.results()[i]).digest.len()
                == 32 by {
                assert(old(self).results()[i].digest.len() == 32);
            }
        }
    }

    /// Ingests one message from the result channel. A terminal message —
    /// a completed digest or a `Done` acknowledgment — answers the
    /// dispatch whose identifier it carries: that identifier leaves the
    /// ledger (one not in the ledger leaves it unchanged). Newly
    /// discovered work — `Scan` and `Digest` payloads — joins the queue,
    /// a discovered file growing the live total; though such a payload
    /// carries the id of the scan that found it, it is no answer: the
    /// scan's id stays outstanding until its own acknowledgment arrives,
    /// so the run can never look finished while a scan's children are
    /// still on their way.
    pub fn ingest(&mut self, j: JobType)
        requires
            old(self).wf(),
            old(self).spec_total() < u64::MAX,
            j@ matches JobV::HashRes { hash, .. } ==> hash.digest.len() == 32,
        ensures
            final(self).wf(),
            final(self).next_id() == old(self).next_id(),
            final(self).dispatched_count() == old(self).dispatched_count(),
            // new work answers nothing; the ledger is untouched
            (j@ is Digest || j@ is Scan) ==> {
                &&& final(self).outstanding_ids() == old(self).outstanding_ids()
                &&& final(self).answered_count() == old(self).answered_count()
            },
            // a terminal message retires exactly the identifier it carries
            (j@ is HashRes || j@ is Done) ==> forall|v: u64|
                final(self).outstanding_ids().contains(v) <==> (
                old(self).outstanding_ids().contains(v) && v != j@.no()),
            (j@ is HashRes || j@ is Done) && old(self).outstanding_ids().contains(j@.no()) ==> {
                &&& final(self).outstanding_ids().len() == old(self).outstanding_ids().len() - 1
                &&& final(self).answered_count() == old(self).answered_count() + 1
            },
            (j@ is HashRes || j@ is Done) && !old(self).outstanding_ids().contains(j@.no()) ==> {
                &&& final(self).outstanding_ids() == old(self).outstanding_ids()
                &&& final(self).answered_count() == old(self).answered_count()
            },
            // what each payload contributes
            j@ is Digest ==> {
                &&& final(self).pending() == old(self).pending().push(j@)
                &&& final(self).spec_total() == old(self).spec_total() + 1
                &&& final(self).results() == old(self).results()
            },
            j@ is Scan ==> {
                &&& final(self).pending() == old(self).pending().push(j@)
                &&& final(self).spec_total() == old(self).spec_total()
                &&& final(self).results() == old(self).results()
            },
            j@ matches JobV::HashRes { hash, .. } ==> {
                &&& final(self).pending() == old(self).pending()
                &&& final(self).spec_total() == old(self).spec_total()
                &&& final(self).results() == old(self).results().push(hash)
            },
            j@ is Done ==> {
                &&& final(self).pending() == old(self).pending()
                &&& final(self).spec_total() == old(self).spec_total()
                &&& final(self).results() == old(self).results()
            },
    {
        let no = j.job_no();
        let ghost prev = self.outstanding@;
        let terminal = match &j {
            JobType::Hash(_, _) => true,
            JobType::Done(_) => true,
            _ => false,
        };
        let found = if terminal {
            remove_first(&mut self.outstanding, no)
        } else {
            false
        };
        proof {
            if found {
                self.answered@ = self.answered@ + 1;
                let k = choose|k: int|
                    0 <= k < prev.len() && prev[k] == no && self.outstanding@ == prev.remove(k);
                lemma_unique_remove(prev, k, old(self).next_no);
                assert forall|v: u64| self.outstanding@.contains(v) <==> (prev.contains(v) && v
                    != no) by {
                    if self.outstanding@.contains(v) {
                        let m = choose|m: int|
                            0 <= m < self.outstanding@.len() && self.outstanding@[m] == v;
                        if m < k {
                            assert(prev[m] == v);
                        } else {
                            assert(prev[m + 1] == v);
                        }
                    }
                    if prev.contains(v) && v != no {
                        let m = choose|m: int| 0 <= m < prev.len() && prev[m] == v;
                        if m < k {
                            assert(self.outstanding@[m] == v);
                        } else {
                            assert(m != k);
                            assert(self.outstanding@[m - 1] == v);
                        }
                    }
                }
            } else if terminal {
                assert forall|v: u64| self.outstanding@.contains(v) <==> (prev.contains(v) && v
                    != no) by {}
            }
        }
        proof {
            assert(self.pending() == old(self).pending());
            self.lemma_queue_wf();
        }
        match j {
            JobType::Digest(_, _) => {
                self.total = self.total + 1;
                self.queue.push(j);
            },
            JobType::Scan(_, _) => {
                self.queue.push(j);
            },
            JobType::Hash(_, h) => {
                let ghost rprev = self.results();
                self.hashes.push(h);
                proof {
                    assert(rprev == old(self).results());
                    assert(self.results() =~= rprev.push(h@));
                    assert forall|i: int|
                        0 <= i < self.results().len() implies (
                        #[trigger] self.results()[i]).digest.len() == 32 by {
                        if i < rprev.len() {
                            assert(rprev[i].digest.len() == 32);
                        } else {
                            assert(self.results()[i] == h@);
                        }
                    }
                }
            },
            JobType::Done(_) => {},
        }
        proof {
            assert(self.queue.wf());
            assert forall|i: int|
                0 <= i < self.pending().len() implies (#[trigger] self.pending()[i]).is_pending() by {
                assert(self.queue@[i].is_pending());
            }
            if !(j@ is HashRes) {
                assert(self.results() =~= old(self).results());
                assert forall|i: int|
                    0 <= i < self.results().len() implies (#[trigger] self.results()[i]).digest.len()
                    == 32 by {
                    assert(old(self).results()[i].digest.len() == 32);
                }
            }
        }
    }

    /// Whether every dispatched identifier has been answered. The driver
    /// consults this only after a dispatch phase; at that point an empty
    /// ledger also means no pending work remains — a queued job would
    /// have just been dispatched and still be outstanding — so this is
    /// the run's whole termination condition.
    pub fn is_done(&self) -> (r: bool)
        ensures
            r == (self.outstanding_ids().len() == 0),
    {
        self.outstanding.len() == 0
    }

    /// Yields the collected digests to the caller once the run is done.
    pub fn into_hashes(self) -> (r: Vec<crate::job::Hash>)
        ensures
            r@.map_values(|h: crate::job::Hash| h@) == self.results(),
    {
        self.hashes
    }

    pub fn outstanding_count(&self) -> (r: usize)
        ensures
            r == self.outstanding_ids().len(),
    {
        self.outstanding.len()
    }

    pub fn pending_count(&self) -> (r: usize)
        ensures
            r == self.pending().len(),
    {
        self.queue.len()
    }

    pub fn next_job_no(&self) -> (r: u64)
        ensures
            r == self.next_id(),
    {
        self.next_no
    }

    pub fn total(&self) -> (r: u64)
        ensures
            r == self.spec_total(),
    {
        self.total
    }
}

/// No duplicate dispatch: the ledger never holds an identifier twice, and
/// the identifier the next dispatch will mint is never already in it —
/// every dispatch is answered by removing exactly the entry it made, so
/// the ledger reaches empty exactly when every dispatch has been answered.
pub proof fn lemma_no_duplicate_dispatch(c: &Coordinator)
    requires
        c.wf(),
    ensures
        forall|i: int, j: int|
            0 <= i < j < c.outstanding_ids().len() ==> c.outstanding_ids()[i]
                != c.outstanding_ids()[j],
        !c.outstanding_ids().contains(c.next_id()),
{
    assert(forall|i: int|
        0 <= i < c.outstanding_ids().len() ==> (#[trigger] c.outstanding_ids()[i]) < c.next_id());
}

/// Run end is full settlement: the run is finished exactly when the
/// ledger is empty, and then as many answers were ingested as dispatches
/// were ever made — no dispatch was lost and none was answered twice.
pub proof fn lemma_done_means_settled(c: &Coordinator)
    requires
        c.wf(),
        c.outstanding_ids().len() == 0,
    ensures
        c.answered_count() == c.dispatched_count(),
{
}

/// Bounded concurrency, as the engine sees it: the jobs in flight are
/// exactly the dispatches not yet answered, so a driver that never lets
/// dispatches outrun answers by more than `n` never has more than `n`
/// jobs in flight.
pub proof fn lemma_bounded_in_flight(c: &Coordinator, n: nat)
    requires
        c.wf(),
        c.dispatched_count() - c.answered_count() <= n,
    ensures
        c.outstanding_ids().len() == c.dispatched_count() - c.answered_count(),
        c.outstanding_ids().len() <= n,
{
}

} // verus!
