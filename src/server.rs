//! The dispatcher: routes each request to its handler and applies admission
//! control over the worker pool.
use vstd::prelude::*;

use crate::job::Job;
use crate::method::{Method, Verb};
use crate::pool::{Admission, Decision, PoolModel, WorkerPool};
use crate::response::Response;
use crate::request::Request;

verus! {

/// Whether the server reports each request it receives.
#[derive(Debug, Clone, Copy, PartialEq, Eq, Structural)]
pub enum Debug {
    True,
    False,
}

impl From<bool> for Debug {
    fn from(value: bool) -> Debug {
        if value {
            Debug::True
        } else {
            Debug::False
        }
    }
}

impl vstd::std_specs::convert::FromSpecImpl<bool> for Debug {
    open spec fn obeys_from_spec() -> bool {
        true
    }

    open spec fn from_spec(v: bool) -> Debug {
        if v {
            Debug::True
        } else {
            Debug::False
        }
    }
}

/// The map from methods to handlers that a list of registrations builds; a
/// later entry for a method replaces an earlier one.
pub open spec fn route_map<H>(routes: Seq<(Method, H)>) -> Map<(Verb, Seq<char>), H>
    decreases routes.len(),
{
    if routes.len() == 0 {
        Map::empty()
    } else {
        route_map(routes.drop_last()).insert(routes.last().0@, routes.last().1)
    }
}

/// No method is registered twice.
pub open spec fn keys_unique<H>(routes: Seq<(Method, H)>) -> bool {
    forall|i: int, j: int| 0 <= i < j < routes.len() ==> routes[i].0@ != routes[j].0@
}

/// The handler that `routes` gives for `key`, or `fallback` when there is none.
pub open spec fn route_for<H>(routes: Map<(Verb, Seq<char>), H>, key: (Verb, Seq<char>), fallback: H) -> H {
    if routes.contains_key(key) {
        routes[key]
    } else {
        fallback
    }
}

proof fn lemma_route_map_at<H>(routes: Seq<(Method, H)>, i: int)
    requires
        keys_unique(routes),
        0 <= i < routes.len(),
    ensures
        route_map(routes).contains_key(routes[i].0@),
        route_map(routes)[routes[i].0@] == routes[i].1,
    decreases routes.len(),
{
    if i < routes.len() - 1 {
        let p = routes.drop_last();
        assert(p[i] == routes[i]);
        assert(keys_unique(p)) by {
            assert forall|a: int, b: int| 0 <= a < b < p.len() implies p[a].0@ != p[b].0@ by {
                assert(p[a] == routes[a] && p[b] == routes[b]);
            }
        }
        lemma_route_map_at(p, i);
    }
}

proof fn lemma_route_map_absent<H>(routes: Seq<(Method, H)>, key: (Verb, Seq<char>))
    requires
        forall|i: int| 0 <= i < routes.len() ==> routes[i].0@ != key,
    ensures
        !route_map(routes).contains_key(key),
    decreases routes.len(),
{
    if routes.len() > 0 {
        let p = routes.drop_last();
        assert forall|i: int| 0 <= i < p.len() implies p[i].0@ != key by {
            assert(p[i] == routes[i]);
        }
        lemma_route_map_absent(p, key);
    }
}

/// What [`WebServer::handle`] did with a request.
#[derive(Debug)]
pub enum Dispatch<C, H> {
    /// A slot was idle and is now taken: run the job now.
    Run(Job<C, H>),
    /// The job waits in the backlog; a later [`WebServer::job_done`] hands it out.
    Queued,
    /// The pool is saturated: the answer, `503 SERVICE UNAVAILABLE`, to send at once.
    Rejected(Response<C>),
}

/// The web server's dispatcher: handlers registered per method, a handler for
/// requests that match none, and the pool that decides when each job runs.
///
/// The server does not run handlers or touch connections: it hands out jobs,
/// each a request bound to its handler, for the caller to run and answer, and
/// the `503` answers to requests turned away under load, for the caller to send.
#[derive(Debug)]
pub struct WebServer<C, H> {
    cpt: usize,
    debug: bool,
    listeners: Vec<(Method, H)>,
    not_found: H,
    workers: WorkerPool<Job<C, H>>,
}

impl<C, H: Copy> WebServer<C, H> {
    /// The server's state is well formed.
    pub closed spec fn wf(&self) -> bool {
        &&& keys_unique(self.listeners@)
        &&& self.workers.wf()
    }

    /// The registered handlers, by method.
    pub closed spec fn routes(&self) -> Map<(Verb, Seq<char>), H> {
        route_map(self.listeners@)
    }

    /// Abstract state of the pool.
    pub closed spec fn pool_model(&self) -> PoolModel<Job<C, H>> {
        self.workers@
    }

    /// Handler for requests whose method has no handler.
    pub closed spec fn not_found_listener(&self) -> H {
        self.not_found
    }

    /// Whether debug reporting is on.
    pub closed spec fn spec_debug(&self) -> bool {
        self.debug
    }

    /// Number of requests handled so far, stopping at the largest `usize`.
    pub closed spec fn spec_count(&self) -> usize {
        self.cpt
    }

    /// A server with `amount_workers` slots, a backlog of at most `backlog_limit`
    /// jobs, no registered handler, and the handler for unrouted requests.
    pub fn new(
        amount_workers: usize,
        backlog_limit: usize,
        debug: Debug,
        not_found: H,
    ) -> (r: WebServer<C, H>)
        requires
            amount_workers >= 1,
        ensures
            r.wf(),
            r.routes() == Map::<(Verb, Seq<char>), H>::empty(),
            r.pool_model() == PoolModel::<Job<C, H>>::initial(
                amount_workers as nat,
                backlog_limit as nat,
            ),
            r.not_found_listener() == not_found,
            r.spec_debug() == (debug == Debug::True),
            r.spec_count() == 0,
    {
        WebServer {
            cpt: 0,
            debug: debug == Debug::True,
            listeners: Vec::new(),
            not_found,
            workers: WorkerPool::new(amount_workers, backlog_limit),
        }
    }

    /// Position of the registration of `method`, if there is one.
    fn find(&self, method: &Method) -> (r: Option<usize>)
        ensures
            match r {
                Some(i) => i < self.listeners@.len() && self.listeners@[i as int].0@ == method@,
                None => forall|i: int|
                    0 <= i < self.listeners@.len() ==> self.listeners@[i].0@ != method@,
            },
    {
        let mut i: usize = 0;
        while i < self.listeners.len()
            invariant
                i <= self.listeners@.len(),
                forall|j: int| 0 <= j < i ==> self.listeners@[j].0@ != method@,
            decreases self.listeners@.len() - i,
        {
            if self.listeners[i].0 == *method {
                return Some(i);
            }
            i = i + 1;
        }
        None
    }

    /// Whether a handler is registered for `method`.
    pub fn is_registered(&self, method: &Method) -> (r: bool)
        requires
            self.wf(),
        ensures
            r == self.routes().contains_key(method@),
    {
        match self.find(method) {
            Some(i) => {
                proof {
                    lemma_route_map_at(self.listeners@, i as int);
                }
                true
            },
            None => {
                proof {
                    lemma_route_map_absent(self.listeners@, method@);
                }
                false
            },
        }
    }

    /// Registers `listener` for `method`, which must not have a handler yet.
    pub fn add_listener(&mut self, method: Method, listener: H) -> (r: &mut WebServer<C, H>)
        requires
            old(self).wf(),
            !old(self).routes().contains_key(method@),
        ensures
            r.wf(),
            r.routes() == old(self).routes().insert(method@, listener),
            r.pool_model() == old(self).pool_model(),
            r.not_found_listener() == old(self).not_found_listener(),
            r.spec_debug() == old(self).spec_debug(),
            r.spec_count() == old(self).spec_count(),
            *final(self) == *final(r),
    {
        let ghost key = method@;
        let ghost before = self.listeners@;
        proof {
            if exists|i: int| 0 <= i < before.len() && before[i].0@ == key {
                let i = choose|i: int| 0 <= i < before.len() && before[i].0@ == key;
                lemma_route_map_at(before, i);
            }
        }
        self.listeners.push((method, listener));
        proof {
            let after = self.listeners@;
            assert(after.drop_last() =~= before);
            assert(keys_unique(after)) by {
                assert forall|a: int, b: int| 0 <= a < b < after.len() implies after[a].0@
                    != after[b].0@ by {
                    if b < before.len() {
                        assert(after[a] == before[a] && after[b] == before[b]);
                    } else {
                        assert(after[a] == before[a]);
                    }
                }
            }
        }
        self
    }

    /// The handler that answers a request of `method`: its registered handler,
    /// or the not-found handler.
    pub fn listener_for(&self, method: &Method) -> (r: H)
        requires
            self.wf(),
        ensures
            r == route_for(self.routes(), method@, self.not_found_listener()),
    {
        match self.find(method) {
            Some(i) => {
                proof {
                    lemma_route_map_at(self.listeners@, i as int);
                }
                self.listeners[i].1
            },
            None => {
                proof {
                    lemma_route_map_absent(self.listeners@, method@);
                }
                self.not_found
            },
        }
    }

    /// Binds `request` to its handler and applies admission control: the job
    /// runs at once on an idle slot, or waits at the tail of the backlog, or,
    /// with the backlog full, is dropped and the request gets a `503` answer to
    /// send at once. Never blocks.
    pub fn handle(&mut self, request: Request<C>) -> (r: Dispatch<C, H>)
        requires
            old(self).wf(),
        ensures
            final(self).wf(),
            final(self).routes() == old(self).routes(),
            final(self).not_found_listener() == old(self).not_found_listener(),
            final(self).spec_debug() == old(self).spec_debug(),
            final(self).spec_count() == if old(self).spec_count() < usize::MAX {
                (old(self).spec_count() + 1) as usize
            } else {
                old(self).spec_count()
            },
            final(self).pool_model() == old(self).pool_model().arrive(
                (Job {
                    request,
                    listener: route_for(
                        old(self).routes(),
                        request.spec_method()@,
                        old(self).not_found_listener(),
                    ),
                }),
            ),
            match old(self).pool_model().decide() {
                Decision::Run => r == Dispatch::Run(
                    (Job {
                        request,
                        listener: route_for(
                            old(self).routes(),
                            request.spec_method()@,
                            old(self).not_found_listener(),
                        ),
                    }),
                ),
                Decision::Queue => r is Queued,
                Decision::Reject => {
                    &&& r is Rejected
                    &&& r->Rejected_0.spec_status()@ == 503
                    &&& r->Rejected_0.spec_version() == request.spec_version()
                    &&& r->Rejected_0.spec_contents() == Seq::<char>::empty()
                    &&& r->Rejected_0.spec_stream() == request.spec_stream()
                },
            },
    {
        if self.cpt < usize::MAX {
            self.cpt = self.cpt + 1;
        }
        let listener = self.listener_for(request.method());
        match self.workers.execute(Job { request, listener }) {
            Admission::Run(job) => Dispatch::Run(job),
            Admission::Queued => Dispatch::Queued,
            Admission::Rejected(job) => Dispatch::Rejected(Response::service_unavailable(job.request)),
        }
    }

    /// Reacts to a finished job: frees its slot, then hands out backlogged jobs
    /// for the idle slots, oldest first.
    pub fn job_done(&mut self) -> (r: Vec<Job<C, H>>)
        requires
            old(self).wf(),
            old(self).pool_model().busy > 0,
        ensures
            final(self).wf(),
            r@ == old(self).pool_model().release().drained(),
            final(self).pool_model() == old(self).pool_model().release().drain(),
            final(self).routes() == old(self).routes(),
            final(self).not_found_listener() == old(self).not_found_listener(),
            final(self).spec_debug() == old(self).spec_debug(),
            final(self).spec_count() == old(self).spec_count(),
    {
        self.workers.release();
        self.workers.drain_backlog()
    }

    /// Hands out backlogged jobs, oldest first, for as long as a slot is idle;
    /// each one handed out takes a slot. The rest stay queued in order.
    pub fn drain_backlog(&mut self) -> (r: Vec<Job<C, H>>)
        requires
            old(self).wf(),
        ensures
            final(self).wf(),
            r@ == old(self).pool_model().drained(),
            final(self).pool_model() == old(self).pool_model().drain(),
            final(self).routes() == old(self).routes(),
            final(self).not_found_listener() == old(self).not_found_listener(),
            final(self).spec_debug() == old(self).spec_debug(),
            final(self).spec_count() == old(self).spec_count(),
    {
        self.workers.drain_backlog()
    }

    /// The pool's slot accounting and backlog.
    pub fn workers(&self) -> (r: &WorkerPool<Job<C, H>>)
        ensures
            r@ == self.pool_model(),
            self.wf() ==> r.wf(),
    {
        &self.workers
    }

    /// Whether debug reporting is on.
    pub fn is_debug(&self) -> (r: bool)
        ensures
            r == self.spec_debug(),
    {
        self.debug
    }

    /// Number of requests handled so far, stopping at the largest `usize`.
    pub fn request_count(&self) -> (r: usize)
        ensures
            r == self.spec_count(),
    {
        self.cpt
    }
}

} // verus!
