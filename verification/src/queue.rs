use vstd::prelude::*;
use crate::job::{job_views, JobType, JobV};

verus! {

/// The position of the job that is dispatched next: the first job of
/// maximal rank. Ties within a rank keep the earliest position, though no
/// caller relies on which of two equal-ranked jobs leaves first.
pub open spec fn max_rank_idx(s: Seq<JobV>) -> int
    recommends
        s.len() > 0,
    decreases s.len(),
{
    if s.len() <= 1 {
        0
    } else {
        let rest = max_rank_idx(s.drop_last());
        if s.last().rank() > s[rest].rank() {
            s.len() - 1
        } else {
            rest
        }
    }
}

/// The job at `max_rank_idx` is in range and of maximal rank.
pub proof fn lemma_max_rank_idx(s: Seq<JobV>)
    requires
        s.len() > 0,
    ensures
        0 <= max_rank_idx(s) < s.len(),
        forall|i: int| 0 <= i < s.len() ==> (#[trigger] s[i].rank()) <= s[max_rank_idx(s)].rank(),
    decreases s.len(),
{
    if s.len() > 1 {
        let t = s.drop_last();
        lemma_max_rank_idx(t);
        assert(forall|i: int| 0 <= i < t.len() ==> t[i] == s[i]);
        assert forall|i: int| 0 <= i < s.len() implies (#[trigger] s[i].rank())
            <= s[max_rank_idx(s)].rank() by {
            if i < s.len() - 1 {
                assert(s[i].rank() <= t[max_rank_idx(t)].rank());
            }
        }
    }
}

/// The scheduling policy itself: whenever any scan is queued, the job
/// dispatched next is a scan — directories are expanded before any file
/// is hashed, so the full amount of work becomes known as early as the
/// queue allows.
pub proof fn lemma_scans_first(s: Seq<JobV>, i: int)
    requires
        0 <= i < s.len(),
        s[i] is Scan,
    ensures
        s[max_rank_idx(s)] is Scan,
{
    lemma_max_rank_idx(s);
    assert(s[i].rank() <= s[max_rank_idx(s)].rank());
}

/// A priority queue over the pending `Scan` and `Digest` jobs only;
/// worker replies never occupy it. Its view is the sequence of queued
/// jobs in insertion order; dispatch takes the first job of maximal rank,
/// so directories are always expanded before files are hashed.
pub struct JobQueue {
    items: Vec<JobType>,
}

impl View for JobQueue {
    type V = Seq<JobV>;

    closed spec fn view(&self) -> Seq<JobV> {
        job_views(self.items@)
    }
}

impl JobQueue {
    /// Every queued job is pending work, never a reply.
    pub open spec fn wf(&self) -> bool {
        forall|i: int| 0 <= i < self@.len() ==> (#[trigger] self@[i]).is_pending()
    }

    pub fn new() -> (r: Self)
        ensures
            r@ == Seq::<JobV>::empty(),
            r.wf(),
    {
        let r = JobQueue { items: Vec::new() };
        assert(r@ =~= Seq::<JobV>::empty());
        r
    }

    pub fn len(&self) -> (r: usize)
        ensures
            r == self@.len(),
    {
        self.items.len()
    }

    pub fn push(&mut self, j: JobType)
        requires
            old(self).wf(),
            j@.is_pending(),
        ensures
            final(self)@ == old(self)@.push(j@),
            final(self).wf(),
    {
        self.items.push(j);
        assert(self@ =~= old(self)@.push(j@));
    }

    /// The index of the first job of maximal rank, if any is queued.
    fn argmax(&self) -> (r: usize)
        requires
            self@.len() > 0,
        ensures
            r == max_rank_idx(self@),
    {
        let n = self.items.len();
        let mut best: usize = 0;
        let mut best_rank: u8 = self.items[0].rank();
        let mut i: usize = 1;
        while i < n
            invariant
                1 <= i <= n,
                n == self@.len(),
                best == max_rank_idx(self@.take(i as int)),
                best < i,
                best_rank as int == self@[best as int].rank(),
            decreases n - i,
        {
            let r = self.items[i].rank();
            proof {
                assert(self@.take(i + 1).drop_last() =~= self@.take(i as int));
                assert(self@.take(i + 1).last() == self@[i as int]);
            }
            if r > best_rank {
                best = i;
                best_rank = r;
            }
            i = i + 1;
        }
        proof {
            assert(self@.take(n as int) =~= self@);
        }
        best
    }

    /// A borrow of the job that would be dispatched next: the first
    /// queued job of maximal rank, or nothing while the queue is empty.
    pub fn peek_max(&self) -> (r: Option<&JobType>)
        ensures
            match r {
                Some(j) => self@.len() > 0 && j@ == self@[max_rank_idx(self@)],
                None => self@.len() == 0,
            },
    {
        if self.items.len() == 0 {
            None
        } else {
            proof {
                lemma_max_rank_idx(self@);
            }
            let i = self.argmax();
            Some(&self.items[i])
        }
    }

    /// Removes and returns the first queued job of maximal rank, or
    /// nothing while the queue is empty.
    pub fn pop_max(&mut self) -> (r: Option<JobType>)
        requires
            old(self).wf(),
        ensures
            final(self).wf(),
            match r {
                Some(j) => {
                    &&& old(self)@.len() > 0
                    &&& j@ == old(self)@[max_rank_idx(old(self)@)]
                    &&& final(self)@ == old(self)@.remove(max_rank_idx(old(self)@))
                },
                None => old(self)@.len() == 0 && final(self)@ == old(self)@,
            },
    {
        if self.items.len() == 0 {
            None
        } else {
            let i = self.argmax();
            proof {
                lemma_max_rank_idx(self@);
            }
            let j = self.items.remove(i);
            assert(self@ =~= old(self)@.remove(max_rank_idx(old(self)@)));
            Some(j)
        }
    }
}

} // verus!
