//! The shared job queue that the worker pool draws from: jobs leave in the
//! order they were submitted, each exactly once.
use std::collections::VecDeque;
use vstd::prelude::*;

verus! {

/// Why a pool could not be set up.
#[derive(Clone, Copy, Debug, PartialEq, Eq, Structural)]
pub enum PoolError {
    /// A pool needs at least one worker.
    ZeroSize,
}

/// Checks the number of workers asked for: a pool has at least one.
pub fn check_pool_size(size: usize) -> (r: Result<usize, PoolError>)
    ensures
        size == 0 <==> r is Err,
        r matches Ok(n) ==> n == size,
        r matches Err(e) ==> e == PoolError::ZeroSize,
{
    if size == 0 {
        Err(PoolError::ZeroSize)
    } else {
        Ok(size)
    }
}

/// A first-in first-out queue of jobs that remembers, as ghost state, every
/// job submitted and every job handed out.
pub struct JobQueue<T> {
    jobs: VecDeque<T>,
    submitted: Ghost<Seq<T>>,
    delivered: Ghost<Seq<T>>,
}

impl<T> JobQueue<T> {
    /// The jobs waiting, oldest first.
    pub closed spec fn pending(&self) -> Seq<T> {
        self.jobs@
    }

    /// Every job submitted so far, in order.
    pub closed spec fn submitted(&self) -> Seq<T> {
        self.submitted@
    }

    /// Every job handed out so far, in order.
    pub closed spec fn delivered(&self) -> Seq<T> {
        self.delivered@
    }

    /// The jobs handed out and those waiting make up, in order, the jobs
    /// submitted.
    pub open spec fn well_formed(&self) -> bool {
        self.submitted() == self.delivered() + self.pending()
    }

    /// An empty queue.
    pub fn new() -> (r: Self)
        ensures
            r.well_formed(),
            r.submitted() == Seq::<T>::empty(),
            r.delivered() == Seq::<T>::empty(),
            r.pending() == Seq::<T>::empty(),
    {
        let r = JobQueue { jobs: VecDeque::new(), submitted: Ghost(Seq::empty()), delivered: Ghost(Seq::empty()) };
        proof {
            assert(r.submitted() =~= r.delivered() + r.pending());
        }
        r
    }

    /// Submits `job`; it waits behind every job submitted before it.
    pub fn execute(&mut self, job: T)
        requires
            old(self).well_formed(),
        ensures
            final(self).well_formed(),
            final(self).submitted() == old(self).submitted().push(job),
            final(self).delivered() == old(self).delivered(),
            final(self).pending() == old(self).pending().push(job),
    {
        self.jobs.push_back(job);
        self.submitted = Ghost(self.submitted@.push(job));
        proof {
            assert(self.submitted() =~= self.delivered() + self.pending());
        }
    }

    /// Hands out the oldest waiting job, or `None` where none waits.
    pub fn next_job(&mut self) -> (r: Option<T>)
        requires
            old(self).well_formed(),
        ensures
            final(self).well_formed(),
            final(self).submitted() == old(self).submitted(),
            old(self).pending().len() == 0 ==> r is None && final(self).delivered() == old(
                self,
            ).delivered() && final(self).pending() == old(self).pending(),
            old(self).pending().len() > 0 ==> r == Some(old(self).pending()[0])
                && final(self).delivered() == old(self).delivered().push(old(self).pending()[0])
                && final(self).pending() == old(self).pending().drop_first(),
    {
        let r = self.jobs.pop_front();
        match r {
            Some(job) => {
                proof {
                    self.delivered@ = self.delivered@.push(job);
                    assert(self.submitted() =~= self.delivered() + self.pending());
                }
                Some(job)
            },
            None => None,
        }
    }

    /// The number of jobs waiting.
    pub fn len(&self) -> (r: usize)
        ensures
            r == self.pending().len(),
    {
        self.jobs.len()
    }

    /// Whether no job waits.
    pub fn is_empty(&self) -> (r: bool)
        ensures
            r == (self.pending().len() == 0),
    {
        self.jobs.len() == 0
    }
}

/// However submissions and hand-outs interleave, once no job waits every job
/// submitted has been handed out exactly once, in the order of submission.
pub proof fn lemma_every_job_delivered_once<T>(queue: &JobQueue<T>)
    requires
        queue.well_formed(),
        queue.pending().len() == 0,
    ensures
        queue.delivered() == queue.submitted(),
        queue.delivered().len() == queue.submitted().len(),
{
    assert(queue.delivered() + queue.pending() =~= queue.delivered());
}

} // verus!
