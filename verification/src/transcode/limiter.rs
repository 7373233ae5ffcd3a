//! The limiter of transcoder runs: at most a fixed number of runs at a
//! time. A job that finds no free slot waits in line, and a run that ends
//! hands its slot to the job that has waited longest.
//!
//! The limiter decides; the caller starts the runs and reports their end.

use vstd::prelude::*;

verus! {

/// Bounds the number of transcoder runs that are under way at once.
pub struct Limiter<T> {
    limit: usize,
    running: usize,
    queue: Vec<T>,
}

impl<T> Limiter<T> {
    /// How many runs may be under way at once.
    pub closed spec fn spec_limit(self) -> nat {
        self.limit as nat
    }

    /// How many runs are under way.
    pub closed spec fn spec_running(self) -> nat {
        self.running as nat
    }

    /// The jobs that wait for a slot, the one that has waited longest first.
    pub closed spec fn spec_queue(self) -> Seq<T> {
        self.queue@
    }

    /// The invariant of the limiter: never more runs than the limit, and
    /// nobody waits while a slot is free.
    pub open spec fn wf(self) -> bool {
        &&& 1 <= self.spec_limit()
        &&& self.spec_running() <= self.spec_limit()
        &&& self.spec_queue().len() > 0 ==> self.spec_running() == self.spec_limit()
    }

    /// A limiter that lets `limit` runs be under way at once.
    pub fn new(limit: usize) -> (limiter: Limiter<T>)
        requires
            limit >= 1,
        ensures
            limiter.wf(),
            limiter.spec_limit() == limit,
            limiter.spec_running() == 0,
            limiter.spec_queue() == Seq::<T>::empty(),
    {
        Limiter { limit, running: 0, queue: Vec::new() }
    }

    /// How many runs may be under way at once.
    pub fn limit(&self) -> (limit: usize)
        ensures
            limit == self.spec_limit(),
    {
        self.limit
    }

    /// How many runs are under way.
    pub fn running(&self) -> (running: usize)
        ensures
            running == self.spec_running(),
    {
        self.running
    }

    /// How many jobs wait for a slot.
    pub fn waiting(&self) -> (waiting: usize)
        ensures
            waiting == self.spec_queue().len(),
    {
        self.queue.len()
    }

    /// Takes a job. Where a slot is free the job takes it and is handed
    /// back to be started now; else it is put at the end of the line.
    pub fn enter(&mut self, job: T) -> (start: Option<T>)
        requires
            old(self).wf(),
        ensures
            final(self).wf(),
            final(self).spec_limit() == old(self).spec_limit(),
            old(self).spec_running() < old(self).spec_limit() ==> {
                &&& start == Some(job)
                &&& final(self).spec_running() == old(self).spec_running() + 1
                &&& final(self).spec_queue() == old(self).spec_queue()
            },
            old(self).spec_running() >= old(self).spec_limit() ==> {
                &&& start is None
                &&& final(self).spec_running() == old(self).spec_running()
                &&& final(self).spec_queue() == old(self).spec_queue().push(job)
            },
    {
        if self.running < self.limit {
            self.running = self.running + 1;
            Some(job)
        } else {
            self.queue.push(job);
            None
        }
    }

    /// Takes the end of a run. Where jobs wait, the one that has waited
    /// longest inherits the slot and is handed back to be started now; else
    /// the slot falls free.
    pub fn release(&mut self) -> (start: Option<T>)
        requires
            old(self).wf(),
        ensures
            final(self).wf(),
            final(self).spec_limit() == old(self).spec_limit(),
            old(self).spec_queue().len() > 0 ==> {
                &&& start == Some(old(self).spec_queue()[0])
                &&& final(self).spec_queue() == old(self).spec_queue().drop_first()
                &&& final(self).spec_running() == old(self).spec_running()
            },
            old(self).spec_queue().len() == 0 ==> {
                &&& start is None
                &&& final(self).spec_queue() == old(self).spec_queue()
                &&& final(self).spec_running() == if old(self).spec_running() > 0 {
                    (old(self).spec_running() - 1) as nat
                } else {
                    0
                }
            },
    {
        if self.queue.len() > 0 {
            let next = self.queue.remove(0);
            assert(self.queue@ =~= old(self).queue@.drop_first());
            Some(next)
        } else {
            if self.running > 0 {
                self.running = self.running - 1;
            }
            None
        }
    }
}

} // verus!
