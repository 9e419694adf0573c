//! Runs of admission control over sequences of events, and what holds of every run.
use vstd::prelude::*;

use crate::pool::{Decision, PoolModel};

verus! {

/// An event that admission control reacts to.
pub enum Event<J> {
    /// A job arrives.
    Arrive(J),
    /// A running job finishes and frees its slot.
    Finish,
    /// Idle slots take jobs from the backlog.
    Drain,
}

impl<J> PoolModel<J> {
    /// The state after `e`.
    pub open spec fn step(self, e: Event<J>) -> PoolModel<J> {
        match e {
            Event::Arrive(job) => self.arrive(job),
            Event::Finish => self.release(),
            Event::Drain => self.drain(),
        }
    }

    /// The jobs that `e` hands out to be answered: started at once, turned
    /// away, or taken from the backlog.
    pub open spec fn handed_out(self, e: Event<J>) -> Seq<J> {
        match e {
            Event::Arrive(job) => if self.decide() == Decision::Queue {
                Seq::empty()
            } else {
                seq![job]
            },
            Event::Finish => Seq::empty(),
            Event::Drain => self.drained(),
        }
    }

    /// The jobs that `e` puts into the backlog.
    pub open spec fn queued(self, e: Event<J>) -> Seq<J> {
        match e {
            Event::Arrive(job) => if self.decide() == Decision::Queue {
                seq![job]
            } else {
                Seq::empty()
            },
            _ => Seq::empty(),
        }
    }

    /// The jobs that `e` takes out of the backlog.
    pub open spec fn dequeued(self, e: Event<J>) -> Seq<J> {
        match e {
            Event::Drain => self.drained(),
            _ => Seq::empty(),
        }
    }
}

/// The state after the events `es`, in order.
pub open spec fn run<J>(s: PoolModel<J>, es: Seq<Event<J>>) -> PoolModel<J>
    decreases es.len(),
{
    if es.len() == 0 {
        s
    } else {
        run(s.step(es[0]), es.drop_first())
    }
}

/// The jobs handed out to be answered during the events `es`, in order.
pub open spec fn all_handed_out<J>(s: PoolModel<J>, es: Seq<Event<J>>) -> Seq<J>
    decreases es.len(),
{
    if es.len() == 0 {
        Seq::empty()
    } else {
        s.handed_out(es[0]) + all_handed_out(s.step(es[0]), es.drop_first())
    }
}

/// The jobs put into the backlog during the events `es`, in order.
pub open spec fn all_queued<J>(s: PoolModel<J>, es: Seq<Event<J>>) -> Seq<J>
    decreases es.len(),
{
    if es.len() == 0 {
        Seq::empty()
    } else {
        s.queued(es[0]) + all_queued(s.step(es[0]), es.drop_first())
    }
}

/// The jobs taken out of the backlog during the events `es`, in order.
pub open spec fn all_dequeued<J>(s: PoolModel<J>, es: Seq<Event<J>>) -> Seq<J>
    decreases es.len(),
{
    if es.len() == 0 {
        Seq::empty()
    } else {
        s.dequeued(es[0]) + all_dequeued(s.step(es[0]), es.drop_first())
    }
}

/// Number of arrivals among the events `es`.
pub open spec fn arrivals<J>(es: Seq<Event<J>>) -> nat
    decreases es.len(),
{
    if es.len() == 0 {
        0
    } else {
        (if es[0] is Arrive {
            1nat
        } else {
            0nat
        }) + arrivals(es.drop_first())
    }
}

/// The state after the jobs `jobs` arrive one after another.
pub open spec fn arrive_all<J>(s: PoolModel<J>, jobs: Seq<J>) -> PoolModel<J>
    decreases jobs.len(),
{
    if jobs.len() == 0 {
        s
    } else {
        arrive_all(s, jobs.drop_last()).arrive(jobs.last())
    }
}

/// One event keeps the state well formed, and accounts for every job: what
/// arrives or waited is handed out or waits.
proof fn lemma_step<J>(s: PoolModel<J>, e: Event<J>)
    requires
        s.wf(),
    ensures
        s.step(e).wf(),
        (if e is Arrive {
            1nat
        } else {
            0nat
        }) + s.backlog.len() == s.handed_out(e).len() + s.step(e).backlog.len(),
        s.dequeued(e) + s.step(e).backlog == s.backlog + s.queued(e),
{
    match e {
        Event::Arrive(job) => {
            assert(s.backlog + Seq::<J>::empty() =~= s.backlog);
            assert(Seq::<J>::empty() + s.step(e).backlog =~= s.step(e).backlog);
        },
        Event::Finish => {
            assert(s.backlog + Seq::<J>::empty() =~= s.backlog);
            assert(Seq::<J>::empty() + s.step(e).backlog =~= s.step(e).backlog);
        },
        Event::Drain => {
            let k = s.drain_count() as int;
            assert(s.backlog.take(k) + s.backlog.skip(k) =~= s.backlog);
            assert(s.backlog + Seq::<J>::empty() =~= s.backlog);
        },
    }
}

/// No request is lost: over any run, every arrival and every job that was
/// waiting at the start is either handed out to be answered or still waits in
/// the backlog, and the state stays well formed.
pub proof fn lemma_no_request_lost<J>(s: PoolModel<J>, es: Seq<Event<J>>)
    requires
        s.wf(),
    ensures
        run(s, es).wf(),
        arrivals(es) + s.backlog.len() == all_handed_out(s, es).len() + run(s, es).backlog.len(),
    decreases es.len(),
{
    if es.len() > 0 {
        lemma_step(s, es[0]);
        lemma_no_request_lost(s.step(es[0]), es.drop_first());
    }
}

/// The backlog is first in, first out: over any run, the jobs taken from it,
/// followed by those still waiting, are the jobs that waited at the start
/// followed by those queued during the run, in the same order.
pub proof fn lemma_backlog_fifo<J>(s: PoolModel<J>, es: Seq<Event<J>>)
    requires
        s.wf(),
    ensures
        all_dequeued(s, es) + run(s, es).backlog == s.backlog + all_queued(s, es),
    decreases es.len(),
{
    if es.len() == 0 {
        assert(Seq::<J>::empty() + s.backlog =~= s.backlog + Seq::<J>::empty());
    } else {
        let e = es[0];
        let t = s.step(e);
        let rest = es.drop_first();
        lemma_step(s, e);
        lemma_backlog_fifo(t, rest);
        assert(s.dequeued(e) + all_dequeued(t, rest) + run(t, rest).backlog =~= s.dequeued(e) + (
        all_dequeued(t, rest) + run(t, rest).backlog));
        assert(s.backlog + (s.queued(e) + all_queued(t, rest)) =~= (s.backlog + s.queued(e))
            + all_queued(t, rest));
    }
}

/// Of two jobs that entered the backlog in turn (positions `a < b` in the order
/// of entry), the first is taken out no later than the second: whenever the
/// second has left, the first has left before it.
pub proof fn lemma_earlier_leaves_first<J>(s: PoolModel<J>, es: Seq<Event<J>>, a: int, b: int)
    requires
        s.wf(),
        0 <= a < b < (s.backlog + all_queued(s, es)).len(),
        b < all_dequeued(s, es).len(),
    ensures
        a < all_dequeued(s, es).len(),
        all_dequeued(s, es)[a] == (s.backlog + all_queued(s, es))[a],
        all_dequeued(s, es)[b] == (s.backlog + all_queued(s, es))[b],
{
    lemma_backlog_fifo(s, es);
    let d = all_dequeued(s, es);
    let w = run(s, es).backlog;
    assert((d + w)[a] == d[a]);
    assert((d + w)[b] == d[b]);
}

/// Finishing one job and then draining hands out the oldest waiting job.
proof fn lemma_finish_then_drain<J>(s: PoolModel<J>)
    requires
        s.wf(),
        s.backlog.len() > 0,
    ensures
        s.release().drain_count() >= 1,
{
}

/// Every waiting job is eventually answered: from any state there is a run
/// with no arrivals, where each finish frees a slot, after which the backlog is
/// empty, and the jobs handed out along it are exactly the waiting ones in
/// their order.
pub proof fn lemma_backlog_empties<J>(s: PoolModel<J>) -> (es: Seq<Event<J>>)
    requires
        s.wf(),
    ensures
        forall|i: int| 0 <= i < es.len() ==> !(#[trigger] es[i] is Arrive),
        run(s, es).backlog.len() == 0,
        all_handed_out(s, es) == s.backlog,
    decreases s.backlog.len(),
{
    if s.backlog.len() == 0 {
        assert(s.backlog =~= Seq::<J>::empty());
        Seq::empty()
    } else {
        let t = s.release();
        let u = t.drain();
        lemma_finish_then_drain(s);
        let rest = lemma_backlog_empties(u);
        let es = seq![Event::Finish, Event::Drain] + rest;
        assert(es[0] is Finish);
        assert(es.drop_first() =~= seq![Event::Drain] + rest);
        assert((seq![Event::Drain] + rest).drop_first() =~= rest);
        assert((seq![Event::Drain] + rest)[0] is Drain);
        let d1 = es.drop_first();
        assert(s.step(es[0]) == t);
        assert(t.step(d1[0]) == u);
        assert(run(s, es) == run(t, d1));
        assert(run(t, d1) == run(u, rest));
        assert(all_handed_out(t, d1) == t.drained() + all_handed_out(u, rest));
        assert(all_handed_out(s, es) == s.handed_out(es[0]) + all_handed_out(t, d1));
        assert(s.handed_out(es[0]) =~= Seq::<J>::empty());
        let k = t.drain_count() as int;
        assert(s.backlog =~= t.backlog.take(k) + t.backlog.skip(k));
        assert(all_handed_out(s, es) =~= s.backlog);
        assert forall|i: int| 0 <= i < es.len() implies !(#[trigger] es[i] is Arrive) by {
            if i >= 2 {
                assert(es[i] == rest[i - 2]);
            }
        }
        es
    }
}

/// Runs compose: the events `a` then `b` give the state, the jobs handed out,
/// queued and dequeued, and the arrivals of `a` followed by those of `b`.
pub proof fn lemma_run_append<J>(s: PoolModel<J>, a: Seq<Event<J>>, b: Seq<Event<J>>)
    ensures
        run(s, a + b) == run(run(s, a), b),
        all_handed_out(s, a + b) == all_handed_out(s, a) + all_handed_out(run(s, a), b),
        all_queued(s, a + b) == all_queued(s, a) + all_queued(run(s, a), b),
        all_dequeued(s, a + b) == all_dequeued(s, a) + all_dequeued(run(s, a), b),
        arrivals(a + b) == arrivals(a) + arrivals(b),
    decreases a.len(),
{
    if a.len() == 0 {
        assert(a + b =~= b);
        assert(Seq::<J>::empty() + all_handed_out(s, b) =~= all_handed_out(s, b));
        assert(Seq::<J>::empty() + all_queued(s, b) =~= all_queued(s, b));
        assert(Seq::<J>::empty() + all_dequeued(s, b) =~= all_dequeued(s, b));
    } else {
        let e = a[0];
        let t = s.step(e);
        assert((a + b)[0] == e);
        assert((a + b).drop_first() =~= a.drop_first() + b);
        lemma_run_append(t, a.drop_first(), b);
        assert(s.handed_out(e) + (all_handed_out(t, a.drop_first()) + all_handed_out(run(s, a), b))
            =~= (s.handed_out(e) + all_handed_out(t, a.drop_first())) + all_handed_out(run(s, a), b));
        assert(s.queued(e) + (all_queued(t, a.drop_first()) + all_queued(run(s, a), b))
            =~= (s.queued(e) + all_queued(t, a.drop_first())) + all_queued(run(s, a), b));
        assert(s.dequeued(e) + (all_dequeued(t, a.drop_first()) + all_dequeued(run(s, a), b))
            =~= (s.dequeued(e) + all_dequeued(t, a.drop_first())) + all_dequeued(run(s, a), b));
    }
}

/// The calls of the dispatcher as events: `handle` of a job is the event
/// `Arrive`, and `job_done` is `Finish` then `Drain`, with the same new state
/// and the same jobs started. With [`lemma_run_append`], any sequence of these
/// calls is a run, so the laws above hold of it.
pub proof fn lemma_calls_as_events<J>(s: PoolModel<J>, job: J)
    ensures
        run(s, seq![Event::Arrive(job)]) == s.arrive(job),
        all_dequeued(s, seq![Event::Arrive(job)]) == Seq::<J>::empty(),
        all_queued(s, seq![Event::Arrive(job)]) == (if s.decide() == Decision::Queue {
            seq![job]
        } else {
            Seq::<J>::empty()
        }),
        run(s, seq![Event::Finish, Event::Drain]) == s.release().drain(),
        all_dequeued(s, seq![Event::Finish, Event::Drain]) == s.release().drained(),
        all_handed_out(s, seq![Event::Finish, Event::Drain]) == s.release().drained(),
        all_queued(s, seq![Event::Finish, Event::Drain]) == Seq::<J>::empty(),
{
    let one = seq![Event::Arrive(job)];
    assert(one.drop_first() =~= Seq::<Event<J>>::empty());
    assert(one[0] == Event::Arrive(job));
    assert(run(s, one) == run(s.step(one[0]), one.drop_first()));
    assert(run(s.arrive(job), Seq::<Event<J>>::empty()) == s.arrive(job));
    assert(all_dequeued(s, one) == s.dequeued(one[0]) + all_dequeued(s.step(one[0]), one.drop_first()));
    assert(all_queued(s, one) == s.queued(one[0]) + all_queued(s.step(one[0]), one.drop_first()));
    assert(all_dequeued(s, one) =~= Seq::<J>::empty());
    assert(all_queued(s, one) =~= s.queued(one[0]));
    assert(s.dequeued(one[0]) + Seq::<J>::empty() =~= Seq::<J>::empty());
    assert(s.queued(one[0]) + Seq::<J>::empty() =~= s.queued(one[0]));
    let two = seq![Event::<J>::Finish, Event::Drain];
    let t = s.release();
    assert(two.drop_first() =~= seq![Event::<J>::Drain]);
    assert(seq![Event::<J>::Drain].drop_first() =~= Seq::<Event<J>>::empty());
    assert(run(s, two) == run(t, seq![Event::<J>::Drain]));
    let d = seq![Event::<J>::Drain];
    assert(d[0] is Drain);
    assert(all_dequeued(t, d) == t.dequeued(d[0]) + all_dequeued(t.step(d[0]), d.drop_first()));
    assert(all_handed_out(t, d) == t.handed_out(d[0]) + all_handed_out(t.step(d[0]), d.drop_first()));
    assert(t.drained() + Seq::<J>::empty() =~= t.drained());
    assert(all_dequeued(t, seq![Event::<J>::Drain]) =~= t.drained());
    assert(all_dequeued(s, two) =~= t.drained());
    assert(all_handed_out(t, seq![Event::<J>::Drain]) =~= t.drained());
    assert(all_handed_out(s, two) =~= t.drained());
    assert(all_queued(t, d) == t.queued(d[0]) + all_queued(t.step(d[0]), d.drop_first()));
    assert(all_queued(t, seq![Event::<J>::Drain]) =~= Seq::<J>::empty());
    assert(all_queued(s, two) =~= Seq::<J>::empty());
    assert(run(t, d) == run(t.step(d[0]), d.drop_first()));
    assert(run(t.drain(), Seq::<Event<J>>::empty()) == t.drain());
}

/// Saturation: with `n` slots and room for `m` waiting jobs, of `n + m + 1`
/// jobs that arrive at once the first `n` run, the next `m` wait, and the last
/// is turned away while the others are all still outstanding.
pub proof fn lemma_saturation<J>(n: nat, m: nat, jobs: Seq<J>)
    requires
        n >= 1,
        jobs.len() == n + m + 1,
    ensures
        forall|k: int|
            0 <= k < n ==> #[trigger] arrive_all(PoolModel::initial(n, m), jobs.take(k)).decide()
                == Decision::Run,
        forall|k: int|
            n <= k < n + m ==> #[trigger] arrive_all(PoolModel::initial(n, m), jobs.take(k)).decide()
                == Decision::Queue,
        arrive_all(PoolModel::initial(n, m), jobs.take((n + m) as int)).decide() == Decision::Reject,
        arrive_all(PoolModel::initial(n, m), jobs.take((n + m) as int)).busy == n,
        arrive_all(PoolModel::initial(n, m), jobs.take((n + m) as int)).backlog == jobs.subrange(
            n as int,
            (n + m) as int,
        ),
{
    let s0 = PoolModel::<J>::initial(n, m);
    assert forall|k: int| 0 <= k < n implies #[trigger] arrive_all(s0, jobs.take(k)).decide()
        == Decision::Run by {
        lemma_saturation_prefix(n, m, jobs, k as nat);
    }
    assert forall|k: int| n <= k < n + m implies #[trigger] arrive_all(s0, jobs.take(k)).decide()
        == Decision::Queue by {
        lemma_saturation_prefix(n, m, jobs, k as nat);
    }
    lemma_saturation_prefix(n, m, jobs, n + m);
}

/// Shape of the state after the first `k` of `jobs` arrive at an idle pool of
/// `n` slots with room for `m`, for `k <= n + m`.
pub open spec fn saturated_shape<J>(s: PoolModel<J>, n: nat, m: nat, jobs: Seq<J>, k: int) -> bool {
    &&& s.capacity == n
    &&& s.limit == m
    &&& s.busy == if k <= n {
        k as nat
    } else {
        n
    }
    &&& s.backlog == if k <= n {
        Seq::<J>::empty()
    } else {
        jobs.subrange(n as int, k)
    }
}

proof fn lemma_saturation_prefix<J>(n: nat, m: nat, jobs: Seq<J>, k: nat)
    requires
        n >= 1,
        jobs.len() == n + m + 1,
        k <= n + m,
    ensures
        saturated_shape(arrive_all(PoolModel::initial(n, m), jobs.take(k as int)), n, m, jobs, k as int),
    decreases k,
{
    let s0 = PoolModel::<J>::initial(n, m);
    if k > 0 {
        lemma_saturation_prefix(n, m, jobs, (k - 1) as nat);
        let p = jobs.take(k as int);
        assert(p.drop_last() =~= jobs.take(k - 1));
        assert(p.last() == jobs[k - 1]);
        let prev = arrive_all(s0, jobs.take(k - 1));
        assert(arrive_all(s0, p) == prev.arrive(jobs[k - 1]));
        if k > n {
            if k - 1 <= n {
                assert(jobs.subrange(n as int, k as int) =~= seq![jobs[k - 1]]);
            } else {
                assert(jobs.subrange(n as int, k as int) =~= jobs.subrange(n as int, k - 1).push(
                    jobs[k - 1],
                ));
            }
        }
    } else {
        assert(jobs.take(0) =~= Seq::<J>::empty());
    }
}

} // verus!
