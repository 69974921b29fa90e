//! The sequential FIFO queue of processing jobs.
use vstd::prelude::*;
use crate::pipeline::job::{Job, JobSource};

verus! {

/// Whether `id` belongs to one of `jobs`.
pub open spec fn has_id<H>(jobs: Seq<Job<H>>, id: u64) -> bool {
    exists|i: int| 0 <= i < jobs.len() && jobs[i].id == id
}

/// The index of the job with id `id` in `jobs` (meaningful when there is
/// one).
pub open spec fn index_of_id<H>(jobs: Seq<Job<H>>, id: u64) -> int {
    choose|i: int| 0 <= i < jobs.len() && jobs[i].id == id
}

/// No two of `jobs` share an id.
pub open spec fn ids_unique<H>(jobs: Seq<Job<H>>) -> bool {
    forall|i: int, j: int| 0 <= i < jobs.len() && 0 <= j < jobs.len() && i != j ==> jobs[i].id
        != jobs[j].id
}

/// Sequential FIFO queue of processing jobs. Each enqueued job gets an id
/// that no job of this queue had before.
pub struct JobQueue<H> {
    jobs: Vec<Job<H>>,
    next_id: u64,
}

impl<H> View for JobQueue<H> {
    type V = Seq<Job<H>>;

    closed spec fn view(&self) -> Seq<Job<H>> {
        self.jobs@
    }
}

impl<H> JobQueue<H> {
    /// The id the next enqueued job gets.
    pub closed spec fn next_id(&self) -> u64 {
        self.next_id
    }

    /// Well-formedness: ids are unique, positive and below `next_id`.
    pub open spec fn wf(&self) -> bool {
        &&& ids_unique(self@)
        &&& self.next_id() >= 1
        &&& forall|i: int| 0 <= i < self@.len() ==> 1 <= #[trigger] self@[i].id < self.next_id()
    }

    /// Every queue is well-formed.
    #[verifier::type_invariant]
    closed spec fn inv(&self) -> bool {
        self.wf()
    }

    /// An empty queue.
    pub fn new() -> (q: JobQueue<H>)
        ensures
            q.wf(),
            q@ == Seq::<Job<H>>::empty(),
            q.next_id() == 1,
    {
        JobQueue { jobs: Vec::new(), next_id: 1 }
    }

    /// The id the next enqueued job gets.
    pub fn next_job_id(&self) -> (n: u64)
        ensures
            n == self.next_id(),
            self.wf(),
    {
        proof {
            use_type_invariant(self);
        }
        self.next_id
    }

    /// Add a job to the end of the queue and return its id.
    pub fn enqueue(&mut self, source: JobSource, handles: H) -> (id: u64)
        requires
            old(self).next_id() < u64::MAX,
        ensures
            final(self).wf(),
            id == old(self).next_id(),
            !has_id(old(self)@, id),
            final(self)@ == old(self)@.push(Job { id, source, handles }),
            final(self).next_id() == id + 1,
    {
        proof {
            use_type_invariant(&*self);
        }
        let id = self.next_id;
        let mut jobs: Vec<Job<H>> = Vec::new();
        std::mem::swap(&mut jobs, &mut self.jobs);
        jobs.push(Job { id, source, handles });
        self.next_id = id + 1;
        assert forall|i: int| 0 <= i < jobs@.len() implies 1 <= #[trigger] jobs@[i].id
            < id + 1 by {}
        self.jobs = jobs;
        id
    }

    /// Remove a job by id. Returns `true` if it was found and removed.
    pub fn remove(&mut self, id: u64) -> (found: bool)
        ensures
            final(self).wf(),
            found == has_id(old(self)@, id),
            found ==> final(self)@ == old(self)@.remove(index_of_id(old(self)@, id)),
            !found ==> final(self)@ == old(self)@,
            !has_id(final(self)@, id),
            final(self).next_id() == old(self).next_id(),
    {
        proof {
            use_type_invariant(&*self);
        }
        let mut i: usize = 0;
        while i < self.jobs.len()
            invariant
                i <= self.jobs.len(),
                old(self).wf(),
                self.jobs@ == old(self).jobs@,
                self.next_id == old(self).next_id,
                forall|j: int| 0 <= j < i ==> self.jobs@[j].id != id,
            decreases self.jobs.len() - i,
        {
            if self.jobs[i].id == id {
                assert(index_of_id(old(self)@, id) == i) by {
                    assert(has_id(old(self)@, id));
                    let k = index_of_id(old(self)@, id);
                    assert(0 <= k < old(self)@.len() && old(self)@[k].id == id);
                }
                let mut jobs: Vec<Job<H>> = Vec::new();
                std::mem::swap(&mut jobs, &mut self.jobs);
                jobs.remove(i);
                assert forall|j: int| 0 <= j < jobs@.len() implies 1 <= #[trigger] jobs@[j].id
                    < self.next_id by {
                    if j >= i {
                        assert(jobs@[j] == old(self)@[j + 1]);
                    } else {
                        assert(jobs@[j] == old(self)@[j]);
                    }
                }
                assert(ids_unique(jobs@)) by {
                    assert forall|a: int, b: int|
                        0 <= a < jobs@.len() && 0 <= b < jobs@.len() && a != b implies jobs@[a].id
                        != jobs@[b].id by {
                        let a2 = if a >= i { a + 1 } else { a };
                        let b2 = if b >= i { b + 1 } else { b };
                        assert(jobs@[a] == old(self)@[a2]);
                        assert(jobs@[b] == old(self)@[b2]);
                    }
                }
                self.jobs = jobs;
                assert(!has_id(self@, id)) by {
                    if has_id(self@, id) {
                        let k = choose|k: int| 0 <= k < self@.len() && self@[k].id == id;
                        if k >= i {
                            assert(old(self)@[k + 1].id == id);
                        }
                    }
                }
                return true;
            }
            i = i + 1;
        }
        false
    }

    /// Take the next job from the front of the queue.
    pub fn pop_front(&mut self) -> (r: Option<Job<H>>)
        ensures
            final(self).wf(),
            final(self).next_id() == old(self).next_id(),
            old(self)@.len() == 0 ==> r is None && final(self)@ == old(self)@,
            old(self)@.len() > 0 ==> r == Some(old(self)@[0]) && final(self)@ == old(
                self,
            )@.drop_first(),
    {
        proof {
            use_type_invariant(&*self);
        }
        if self.jobs.len() == 0 {
            None
        } else {
            let mut jobs: Vec<Job<H>> = Vec::new();
            std::mem::swap(&mut jobs, &mut self.jobs);
            let j = jobs.remove(0);
            assert forall|k: int| 0 <= k < jobs@.len() implies 1 <= #[trigger] jobs@[k].id
                < self.next_id by {
                assert(jobs@[k] == old(self)@[k + 1]);
            }
            assert(ids_unique(jobs@)) by {
                assert forall|a: int, b: int|
                    0 <= a < jobs@.len() && 0 <= b < jobs@.len() && a != b implies jobs@[a].id
                    != jobs@[b].id by {
                    assert(jobs@[a] == old(self)@[a + 1]);
                    assert(jobs@[b] == old(self)@[b + 1]);
                }
            }
            self.jobs = jobs;
            Some(j)
        }
    }

    /// All jobs, in queue order.
    pub fn as_slice(&self) -> (s: &[Job<H>])
        ensures
            s@ == self@,
            self.wf(),
    {
        proof {
            use_type_invariant(self);
        }
        self.jobs.as_slice()
    }

    /// The job with id `id`, if the queue holds one.
    pub fn find(&self, id: u64) -> (r: Option<&Job<H>>)
        ensures
            r is Some == has_id(self@, id),
            r matches Some(j) ==> *j == self@[index_of_id(self@, id)],
    {
        proof {
            use_type_invariant(self);
        }
        let mut i: usize = 0;
        while i < self.jobs.len()
            invariant
                i <= self.jobs.len(),
                self.wf(),
                forall|j: int| 0 <= j < i ==> self.jobs@[j].id != id,
            decreases self.jobs.len() - i,
        {
            if self.jobs[i].id == id {
                assert(index_of_id(self@, id) == i) by {
                    assert(has_id(self@, id));
                    let k = index_of_id(self@, id);
                    assert(0 <= k < self@.len() && self@[k].id == id);
                }
                return Some(&self.jobs[i]);
            }
            i = i + 1;
        }
        None
    }

    /// Number of jobs in the queue.
    pub fn len(&self) -> (n: usize)
        ensures
            n == self@.len(),
    {
        self.jobs.len()
    }

    /// Whether the queue holds no job.
    pub fn is_empty(&self) -> (b: bool)
        ensures
            b == (self@.len() == 0),
    {
        self.jobs.len() == 0
    }
}

impl<H> Default for JobQueue<H> {
    fn default() -> (q: JobQueue<H>)
        ensures
            q.wf(),
            q@ == Seq::<Job<H>>::empty(),
            q.next_id() == 1,
    {
        JobQueue::new()
    }
}

/// First in, first out: enqueueing at the back of a non-empty queue does not
/// change which job leaves next, and the jobs behind it keep their order
/// with the new one last.
pub proof fn fifo_order<H>(jobs: Seq<Job<H>>, job: Job<H>)
    requires
        jobs.len() > 0,
    ensures
        jobs.push(job)[0] == jobs[0],
        jobs.push(job).drop_first() == jobs.drop_first().push(job),
{
    assert(jobs.push(job).drop_first() =~= jobs.drop_first().push(job));
}

/// A job enqueued with a fresh id keeps ids unique and is found by that id
/// at the back of the queue.
pub proof fn enqueued_job_is_found<H>(jobs: Seq<Job<H>>, job: Job<H>)
    requires
        ids_unique(jobs),
        !has_id(jobs, job.id),
    ensures
        ids_unique(jobs.push(job)),
        has_id(jobs.push(job), job.id),
        index_of_id(jobs.push(job), job.id) == jobs.len(),
{
    let q = jobs.push(job);
    assert(q[jobs.len() as int].id == job.id);
    assert(has_id(q, job.id));
    let k = index_of_id(q, job.id);
    if k < jobs.len() {
        assert(jobs[k].id == job.id);
    }
}

/// Removing one job leaves every other job in the queue.
pub proof fn removal_keeps_other_jobs<H>(jobs: Seq<Job<H>>, id: u64, other: u64)
    requires
        ids_unique(jobs),
        has_id(jobs, id),
        other != id,
    ensures
        has_id(jobs.remove(index_of_id(jobs, id)), other) == has_id(jobs, other),
{
    let k = index_of_id(jobs, id);
    let r = jobs.remove(k);
    if has_id(jobs, other) {
        let j = choose|j: int| 0 <= j < jobs.len() && jobs[j].id == other;
        assert(j != k);
        if j < k {
            assert(r[j].id == other);
        } else {
            assert(r[j - 1].id == other);
        }
    }
    if has_id(r, other) {
        let j = choose|j: int| 0 <= j < r.len() && r[j].id == other;
        if j < k {
            assert(jobs[j].id == other);
        } else {
            assert(jobs[j + 1].id == other);
        }
    }
}

} // verus!
