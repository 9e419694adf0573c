//! Admission control over a fixed number of execution slots and a bounded
//! first-in first-out backlog.
use vstd::prelude::*;

use std::collections::VecDeque;

verus! {

/// What admission control decides for an arriving job.
#[derive(Debug, Clone, Copy, PartialEq, Eq, Structural)]
pub enum Decision {
    /// A slot is idle: the job starts now.
    Run,
    /// Every slot is busy and the backlog has room: the job waits at its tail.
    Queue,
    /// Every slot is busy and the backlog is full: the job is turned away.
    Reject,
}

/// Abstract state of a [`WorkerPool`].
pub struct PoolModel<J> {
    /// Number of slots.
    pub capacity: nat,
    /// Largest number of jobs the backlog may hold.
    pub limit: nat,
    /// Number of slots running a job.
    pub busy: nat,
    /// Jobs waiting for a slot, oldest first.
    pub backlog: Seq<J>,
}

impl<J> PoolModel<J> {
    /// At least one slot, no more busy slots than slots, a backlog within its limit.
    pub open spec fn wf(self) -> bool {
        &&& self.capacity >= 1
        &&& self.busy <= self.capacity
        &&& self.backlog.len() <= self.limit
    }

    /// A pool of `capacity` idle slots and an empty backlog of at most `limit` jobs.
    pub open spec fn initial(capacity: nat, limit: nat) -> PoolModel<J> {
        PoolModel { capacity, limit, busy: 0, backlog: Seq::empty() }
    }

    /// The decision for a job that arrives now.
    pub open spec fn decide(self) -> Decision {
        if self.busy < self.capacity {
            Decision::Run
        } else if self.backlog.len() < self.limit {
            Decision::Queue
        } else {
            Decision::Reject
        }
    }

    /// The state after `job` arrives.
    pub open spec fn arrive(self, job: J) -> PoolModel<J> {
        match self.decide() {
            Decision::Run => PoolModel { busy: self.busy + 1, ..self },
            Decision::Queue => PoolModel { backlog: self.backlog.push(job), ..self },
            Decision::Reject => self,
        }
    }

    /// The state after a running job finishes.
    pub open spec fn release(self) -> PoolModel<J> {
        if self.busy > 0 {
            PoolModel { busy: (self.busy - 1) as nat, ..self }
        } else {
            self
        }
    }

    /// How many backlogged jobs a drain starts: as many as there are idle slots
    /// and waiting jobs.
    pub open spec fn drain_count(self) -> nat {
        let idle = if self.busy <= self.capacity {
            (self.capacity - self.busy) as nat
        } else {
            0
        };
        if idle < self.backlog.len() {
            idle
        } else {
            self.backlog.len()
        }
    }

    /// The jobs that a drain starts, oldest first.
    pub open spec fn drained(self) -> Seq<J> {
        self.backlog.take(self.drain_count() as int)
    }

    /// The state after a drain.
    pub open spec fn drain(self) -> PoolModel<J> {
        PoolModel {
            busy: self.busy + self.drain_count(),
            backlog: self.backlog.skip(self.drain_count() as int),
            ..self
        }
    }
}

/// What [`WorkerPool::execute`] did with a job.
#[derive(Debug)]
pub enum Admission<J> {
    /// A slot was idle and is now taken: run the job now.
    Run(J),
    /// The job waits in the backlog; a later drain hands it out.
    Queued,
    /// The pool is saturated: the job is handed back to be answered at once.
    Rejected(J),
}

/// The admission that a decision gives for `job`.
pub open spec fn admission_of<J>(d: Decision, job: J) -> Admission<J> {
    match d {
        Decision::Run => Admission::Run(job),
        Decision::Queue => Admission::Queued,
        Decision::Reject => Admission::Rejected(job),
    }
}

/// Slot accounting and backlog of a pool of workers.
///
/// The pool does not run jobs itself: it decides whether a job runs now, waits,
/// or is turned away, and hands jobs out in the order they are to run.
#[derive(Debug)]
pub struct WorkerPool<J> {
    capacity: usize,
    busy: usize,
    backlog_limit: usize,
    backlog: VecDeque<J>,
}

impl<J> View for WorkerPool<J> {
    type V = PoolModel<J>;

    closed spec fn view(&self) -> PoolModel<J> {
        PoolModel {
            capacity: self.capacity as nat,
            limit: self.backlog_limit as nat,
            busy: self.busy as nat,
            backlog: self.backlog@,
        }
    }
}

impl<J> WorkerPool<J> {
    /// The pool's state is well formed.
    pub open spec fn wf(&self) -> bool {
        self@.wf()
    }

    /// A pool of `capacity` idle slots whose backlog holds at most `backlog_limit` jobs.
    pub fn new(capacity: usize, backlog_limit: usize) -> (r: WorkerPool<J>)
        requires
            capacity >= 1,
        ensures
            r.wf(),
            r@ == PoolModel::<J>::initial(capacity as nat, backlog_limit as nat),
    {
        WorkerPool { capacity, busy: 0, backlog_limit, backlog: VecDeque::new() }
    }

    /// Number of slots.
    pub fn capacity(&self) -> (r: usize)
        ensures
            r == self@.capacity,
    {
        self.capacity
    }

    /// Number of slots running a job.
    pub fn busy(&self) -> (r: usize)
        ensures
            r == self@.busy,
    {
        self.busy
    }

    /// Largest number of jobs the backlog may hold.
    pub fn backlog_limit(&self) -> (r: usize)
        ensures
            r == self@.limit,
    {
        self.backlog_limit
    }

    /// Number of jobs waiting in the backlog.
    pub fn backlog_len(&self) -> (r: usize)
        ensures
            r == self@.backlog.len(),
    {
        self.backlog.len()
    }

    /// Whether some slot is idle.
    pub fn is_any_available(&self) -> (r: bool)
        ensures
            r == (self@.busy < self@.capacity),
    {
        self.busy < self.capacity
    }

    /// Takes an idle slot for `job`, or puts it at the tail of the backlog when
    /// every slot is busy, or hands it back when the backlog is full too.
    pub fn execute(&mut self, job: J) -> (r: Admission<J>)
        requires
            old(self).wf(),
        ensures
            final(self).wf(),
            final(self)@ == old(self)@.arrive(job),
            r == admission_of(old(self)@.decide(), job),
    {
        if self.busy < self.capacity {
            self.busy = self.busy + 1;
            Admission::Run(job)
        } else if self.backlog.len() < self.backlog_limit {
            self.backlog.push_back(job);
            Admission::Queued
        } else {
            Admission::Rejected(job)
        }
    }

    /// Marks a slot idle again once its job has finished.
    pub fn release(&mut self)
        requires
            old(self).wf(),
            old(self)@.busy > 0,
        ensures
            final(self).wf(),
            final(self)@ == old(self)@.release(),
    {
        self.busy = self.busy - 1;
    }

    /// Takes jobs from the head of the backlog, oldest first, while a slot is
    /// idle; each one taken occupies a slot. The rest stay queued in order.
    pub fn drain_backlog(&mut self) -> (r: Vec<J>)
        requires
            old(self).wf(),
        ensures
            final(self).wf(),
            r@ == old(self)@.drained(),
            final(self)@ == old(self)@.drain(),
    {
        let ghost start = self@;
        let mut out: Vec<J> = Vec::new();
        while self.busy < self.capacity && self.backlog.len() > 0
            invariant
                self@.wf(),
                self@.capacity == start.capacity,
                self@.limit == start.limit,
                self.busy == start.busy + out@.len(),
                out@ + self.backlog@ == start.backlog,
            decreases self.backlog@.len(),
        {
            let ghost before = self.backlog@;
            match self.backlog.pop_front() {
                Some(job) => {
                    out.push(job);
                    self.busy = self.busy + 1;
                    assert(before =~= seq![before[0]] + self.backlog@);
                },
                None => {},
            }
        }
        proof {
            let k = start.drain_count();
            assert(out@.len() == k);
            assert(out@ =~= start.backlog.take(k as int));
            assert(self.backlog@ =~= start.backlog.skip(k as int));
        }
        out
    }
}

} // verus!
