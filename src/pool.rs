//! Bookkeeping core of a fixed-size worker pool.
//!
//! `ThreadPool` decides everything the pool decides: which job an idle worker
//! takes next, when a worker must wait and when it must exit, what a fault
//! does to the worker that ran the job, and which worker handles a shutdown
//! still has to reclaim. Jobs are numbered in submission order; the queue is
//! first-in-first-out, so the queued jobs are always those numbered from
//! `dispatched` up to `submitted`. The threads, the job closures and the
//! blocking waits belong to the caller, which asks this core at each step.
use vstd::prelude::*;

verus! {

/// Returned when a pool is requested with zero workers; holds the rejected size.
pub struct PoolCreationError(pub usize);

/// Where a worker stands in its run loop.
#[derive(Clone, Copy, Debug, PartialEq, Eq, Structural)]
pub enum WorkerState {
    /// Blocked on the queue, waiting for a job or for the queue to close.
    Idle,
    /// Running the job with this number.
    Executing(u64),
    /// Left its loop cleanly after finding the queue closed and empty.
    Terminated,
    /// Left its loop because the job with this number raised a fault.
    Faulted(u64),
}

/// What a worker that asks for work has to do next.
#[derive(Clone, Copy, Debug, PartialEq, Eq, Structural)]
pub enum Action {
    /// Run the job with this number.
    Run(u64),
    /// Block until a job arrives or the queue closes, then ask again.
    Wait,
    /// Leave the run loop: the queue is closed and drained.
    Exit,
}

/// One worker's record: its id and its state. The execution unit it stands
/// for is held by the caller, under the same id.
pub struct Worker {
    pub id: usize,
    pub state: WorkerState,
    pub reclaimed: bool,
}

impl Worker {
    /// The worker's id, its position in the pool.
    pub fn id(&self) -> (r: usize)
        ensures
            r == self.id,
    {
        self.id
    }

    /// The worker's current state.
    pub fn state(&self) -> (r: WorkerState)
        ensures
            r == self.state,
    {
        self.state
    }
}

/// The whole pool as a mathematical value.
pub struct PoolView {
    pub states: Seq<WorkerState>,
    pub reclaimed: Seq<bool>,
    pub accepting: bool,
    pub submitted: nat,
    pub dispatched: nat,
    pub completed: nat,
}

/// Whether a worker in this state holds a job that it took from the queue
/// and did not finish normally.
pub open spec fn holds_job(s: WorkerState) -> bool {
    s is Executing || s is Faulted
}

/// The job a worker in this state holds.
pub open spec fn held_job(s: WorkerState) -> u64 {
    match s {
        WorkerState::Executing(j) => j,
        WorkerState::Faulted(j) => j,
        _ => 0,
    }
}

/// How many of the states satisfy `p`.
pub open spec fn count(ws: Seq<WorkerState>, p: spec_fn(WorkerState) -> bool) -> nat
    decreases ws.len(),
{
    if ws.len() == 0 {
        0
    } else {
        count(ws.drop_last(), p) + if p(ws.last()) {
            1nat
        } else {
            0nat
        }
    }
}

/// Number of workers holding a job.
pub open spec fn held(ws: Seq<WorkerState>) -> nat {
    count(ws, |s: WorkerState| holds_job(s))
}

/// Number of workers stopped by a fault.
pub open spec fn faults(ws: Seq<WorkerState>) -> nat {
    count(ws, |s: WorkerState| s is Faulted)
}

/// Changing one state changes the count by what that state contributed.
proof fn lemma_count_update(
    ws: Seq<WorkerState>,
    i: int,
    v: WorkerState,
    p: spec_fn(WorkerState) -> bool,
)
    requires
        0 <= i < ws.len(),
    ensures
        count(ws.update(i, v), p) + (if p(ws[i]) {
            1nat
        } else {
            0nat
        }) == count(ws, p) + (if p(v) {
            1nat
        } else {
            0nat
        }),
    decreases ws.len(),
{
    let u = ws.update(i, v);
    if i == ws.len() - 1 {
        assert(u.drop_last() =~= ws.drop_last());
    } else {
        assert(u.drop_last() =~= ws.drop_last().update(i, v));
        lemma_count_update(ws.drop_last(), i, v, p);
    }
}

/// No state satisfies `p`: the count is zero.
proof fn lemma_count_none(ws: Seq<WorkerState>, p: spec_fn(WorkerState) -> bool)
    requires
        forall|i: int| 0 <= i < ws.len() ==> !p(#[trigger] ws[i]),
    ensures
        count(ws, p) == 0,
    decreases ws.len(),
{
    if ws.len() > 0 {
        assert forall|i: int| 0 <= i < ws.drop_last().len() implies !p(
            #[trigger] ws.drop_last()[i],
        ) by {
            assert(ws.drop_last()[i] == ws[i]);
        }
        lemma_count_none(ws.drop_last(), p);
    }
}

impl PoolView {
    /// A freshly created pool of `size` idle workers with an open, empty queue.
    pub open spec fn initial(size: nat) -> PoolView {
        PoolView {
            states: Seq::new(size, |i: int| WorkerState::Idle),
            reclaimed: Seq::new(size, |i: int| false),
            accepting: true,
            submitted: 0,
            dispatched: 0,
            completed: 0,
        }
    }

    pub open spec fn size(self) -> nat {
        self.states.len()
    }

    /// The pool's invariant.
    pub open spec fn wf(self) -> bool {
        &&& self.size() > 0
        &&& self.reclaimed.len() == self.size()
        &&& self.dispatched <= self.submitted <= u64::MAX
        &&& self.completed + held(self.states) == self.dispatched
        &&& forall|i: int|
            0 <= i < self.size() && holds_job(#[trigger] self.states[i]) ==> held_job(
                self.states[i],
            ) < self.dispatched
        &&& forall|i: int, j: int|
            0 <= i < self.size() && 0 <= j < self.size() && i != j && holds_job(
                #[trigger] self.states[i],
            ) && holds_job(#[trigger] self.states[j]) ==> held_job(self.states[i]) != held_job(
                self.states[j],
            )
        &&& forall|i: int|
            0 <= i < self.size() && #[trigger] self.states[i] == WorkerState::Terminated
                ==> !self.accepting && self.dispatched == self.submitted
        &&& forall|i: int| 0 <= i < self.size() && #[trigger] self.reclaimed[i] ==> !self.accepting
    }

    /// Whether some worker was not ended by a fault, so that a job
    /// submitted while jobs are accepted can still be taken.
    pub open spec fn has_live_worker(self) -> bool {
        exists|i: int| 0 <= i < self.size() && !(#[trigger] self.states[i] is Faulted)
    }

    /// After one more job is enqueued.
    pub open spec fn submit(self) -> PoolView {
        PoolView { submitted: self.submitted + 1, ..self }
    }

    /// What worker `w`, idle, is told when it asks for work.
    pub open spec fn action_for(self, w: int) -> Action {
        if self.dispatched < self.submitted {
            Action::Run(self.dispatched as u64)
        } else if !self.accepting {
            Action::Exit
        } else {
            Action::Wait
        }
    }

    /// The pool after idle worker `w` asked for work.
    pub open spec fn after_ask(self, w: int) -> PoolView {
        match self.action_for(w) {
            Action::Run(j) => PoolView {
                states: self.states.update(w, WorkerState::Executing(j)),
                dispatched: self.dispatched + 1,
                ..self
            },
            Action::Exit => PoolView {
                states: self.states.update(w, WorkerState::Terminated),
                ..self
            },
            Action::Wait => self,
        }
    }

    /// The pool after worker `w`'s job returned, or raised a fault.
    pub open spec fn after_finish(self, w: int, faulted: bool) -> PoolView {
        if faulted {
            PoolView {
                states: self.states.update(w, WorkerState::Faulted(held_job(self.states[w]))),
                ..self
            }
        } else {
            PoolView {
                states: self.states.update(w, WorkerState::Idle),
                completed: self.completed + 1,
                ..self
            }
        }
    }

    /// The pool once submission is closed and every worker handle is taken.
    pub open spec fn after_shutdown(self) -> PoolView {
        PoolView {
            accepting: false,
            reclaimed: Seq::new(self.size(), |i: int| true),
            ..self
        }
    }

    /// `r` lists, in ascending order, the ids of the workers whose handles
    /// were not yet reclaimed.
    pub open spec fn lists_unreclaimed(self, r: Seq<usize>) -> bool {
        &&& forall|a: int, b: int| 0 <= a < b < r.len() ==> r[a] < r[b]
        &&& forall|i: int| 0 <= i < r.len() ==> r[i] < self.size() && !self.reclaimed[r[i] as int]
        &&& forall|i: int|
            0 <= i < self.size() && !self.reclaimed[i] ==> #[trigger] r.contains(i as usize)
    }

    /// Every worker has left its run loop.
    pub open spec fn all_terminated(self) -> bool {
        forall|i: int|
            0 <= i < self.size() ==> (#[trigger] self.states[i] == WorkerState::Terminated
                || self.states[i] is Faulted)
    }
}

/// Bookkeeping of a pool of workers that share one first-in-first-out job queue.
pub struct ThreadPool {
    workers: Vec<Worker>,
    accepting: bool,
    submitted: u64,
    dispatched: u64,
    completed: u64,
}

impl View for ThreadPool {
    type V = PoolView;

    closed spec fn view(&self) -> PoolView {
        PoolView {
            states: self.workers@.map_values(|w: Worker| w.state),
            reclaimed: self.workers@.map_values(|w: Worker| w.reclaimed),
            accepting: self.accepting,
            submitted: self.submitted as nat,
            dispatched: self.dispatched as nat,
            completed: self.completed as nat,
        }
    }
}

impl ThreadPool {
    /// The pool's invariant: its view is well formed and each worker's id is
    /// its position.
    pub closed spec fn wf(&self) -> bool {
        &&& self@.wf()
        &&& forall|i: int| 0 <= i < self.workers@.len() ==> (#[trigger] self.workers@[i]).id == i
    }

    /// Creates the bookkeeping for `size` idle workers, numbered from 0.
    pub fn new(size: usize) -> (r: ThreadPool)
        requires
            size > 0,
        ensures
            r.wf(),
            r@ == PoolView::initial(size as nat),
    {
        let mut workers: Vec<Worker> = Vec::with_capacity(size);
        let mut id: usize = 0;
        while id < size
            invariant
                id <= size,
                workers@.len() == id,
                forall|i: int|
                    0 <= i < id ==> (#[trigger] workers@[i]).id == i && workers@[i].state
                        == WorkerState::Idle && !workers@[i].reclaimed,
            decreases size - id,
        {
            workers.push(Worker { id, state: WorkerState::Idle, reclaimed: false });
            id = id + 1;
        }
        let r = ThreadPool { workers, accepting: true, submitted: 0, dispatched: 0, completed: 0 };
        assert(r@.states =~= PoolView::initial(size as nat).states);
        assert(r@.reclaimed =~= PoolView::initial(size as nat).reclaimed);
        proof {
            lemma_count_none(r@.states, |s: WorkerState| holds_job(s));
        }
        r
    }

    /// Creates the bookkeeping for `size` workers, or reports a size of zero.
    pub fn build(size: usize) -> (r: Result<ThreadPool, PoolCreationError>)
        ensures
            size > 0 <==> r is Ok,
            r matches Ok(p) ==> p.wf() && p@ == PoolView::initial(size as nat),
            r matches Err(e) ==> e.0 == size,
    {
        if size > 0 {
            Ok(ThreadPool::new(size))
        } else {
            Err(PoolCreationError(size))
        }
    }

    /// Number of workers.
    pub fn size(&self) -> (r: usize)
        ensures
            r == self@.size(),
    {
        self.workers.len()
    }

    /// Whether jobs are still accepted, that is, shutdown has not begun.
    pub fn is_accepting(&self) -> (r: bool)
        ensures
            r == self@.accepting,
    {
        self.accepting
    }

    /// Number of jobs ever enqueued.
    pub fn submitted(&self) -> (r: u64)
        ensures
            r == self@.submitted,
    {
        self.submitted
    }

    /// Number of jobs that returned normally.
    pub fn completed(&self) -> (r: u64)
        ensures
            r == self@.completed,
    {
        self.completed
    }

    /// The view of a well-formed pool satisfies the pool's invariant.
    pub proof fn lemma_view_wf(&self)
        requires
            self.wf(),
        ensures
            self@.wf(),
    {
    }

    /// Whether some worker was not ended by a fault. Submitting a job when
    /// none is left is a caller error, like submitting after shutdown.
    pub fn has_live_worker(&self) -> (r: bool)
        requires
            self.wf(),
        ensures
            r == self@.has_live_worker(),
    {
        let n = self.workers.len();
        let mut i: usize = 0;
        while i < n
            invariant
                n == self@.size(),
                i <= n,
                forall|k: int| 0 <= k < i ==> self@.states[k] is Faulted,
            decreases n - i,
        {
            if !matches!(self.workers[i].state, WorkerState::Faulted(_)) {
                assert(!(self@.states[i as int] is Faulted));
                return true;
            }
            i = i + 1;
        }
        false
    }

    /// Number of jobs enqueued and not yet taken by a worker.
    pub fn pending(&self) -> (r: u64)
        requires
            self.wf(),
        ensures
            r == self@.submitted - self@.dispatched,
    {
        self.submitted - self.dispatched
    }

    /// The record of worker `w`.
    pub fn worker(&self, w: usize) -> (r: &Worker)
        requires
            self.wf(),
            w < self@.size(),
        ensures
            r.id == w,
            r.state == self@.states[w as int],
            r.reclaimed == self@.reclaimed[w as int],
    {
        &self.workers[w]
    }

    /// Enqueues one job and returns its number. Submitting after shutdown
    /// has begun is a caller error.
    pub fn execute(&mut self) -> (job: u64)
        requires
            old(self).wf(),
            old(self)@.accepting,
            old(self)@.has_live_worker(),
            old(self)@.submitted < u64::MAX,
        ensures
            final(self).wf(),
            job == old(self)@.submitted,
            final(self)@ == old(self)@.submit(),
    {
        let job = self.submitted;
        self.submitted = self.submitted + 1;
        assert(self@ =~= old(self)@.submit());
        job
    }

    /// Worker `w`, idle, asks for work: it is handed the oldest queued job,
    /// told to wait while the queue is open and empty, or told to exit once
    /// it is closed and empty.
    pub fn next_action(&mut self, w: usize) -> (r: Action)
        requires
            old(self).wf(),
            w < old(self)@.size(),
            old(self)@.states[w as int] == WorkerState::Idle,
        ensures
            final(self).wf(),
            r == old(self)@.action_for(w as int),
            final(self)@ == old(self)@.after_ask(w as int),
            r matches Action::Run(j) ==> j == old(self)@.dispatched && j < old(self)@.submitted
                && forall|i: int|
                0 <= i < old(self)@.size() && holds_job(#[trigger] old(self)@.states[i])
                    ==> held_job(old(self)@.states[i]) < j,
    {
        let ghost pre = self@;
        if self.dispatched < self.submitted {
            let job = self.dispatched;
            self.workers.set(
                w,
                Worker { id: w, state: WorkerState::Executing(job), reclaimed: self.workers[w].reclaimed },
            );
            self.dispatched = self.dispatched + 1;
            proof {
                lemma_count_update(pre.states, w as int, WorkerState::Executing(job), |s: WorkerState| holds_job(s));
            }
            assert(self@.states =~= pre.states.update(w as int, WorkerState::Executing(job)));
            assert(self@.reclaimed =~= pre.reclaimed);
            assert(self@ =~= pre.after_ask(w as int));
            Action::Run(job)
        } else if !self.accepting {
            self.workers.set(
                w,
                Worker { id: w, state: WorkerState::Terminated, reclaimed: self.workers[w].reclaimed },
            );
            proof {
                lemma_count_update(pre.states, w as int, WorkerState::Terminated, |s: WorkerState| holds_job(s));
            }
            assert(self@.states =~= pre.states.update(w as int, WorkerState::Terminated));
            assert(self@.reclaimed =~= pre.reclaimed);
            assert(self@ =~= pre.after_ask(w as int));
            Action::Exit
        } else {
            Action::Wait
        }
    }

    /// Worker `w`'s job returned (`faulted` false) or raised a fault
    /// (`faulted` true). A fault ends that worker only; the job counts as
    /// not completed.
    pub fn finish_job(&mut self, w: usize, faulted: bool)
        requires
            old(self).wf(),
            w < old(self)@.size(),
            old(self)@.states[w as int] is Executing,
        ensures
            final(self).wf(),
            final(self)@ == old(self)@.after_finish(w as int, faulted),
    {
        let ghost pre = self@;
        let job = match self.workers[w].state {
            WorkerState::Executing(j) => j,
            _ => 0,
        };
        let reclaimed = self.workers[w].reclaimed;
        if faulted {
            self.workers.set(w, Worker { id: w, state: WorkerState::Faulted(job), reclaimed });
            proof {
                lemma_count_update(pre.states, w as int, WorkerState::Faulted(job), |s: WorkerState| holds_job(s));
            }
            assert(self@.states =~= pre.states.update(w as int, WorkerState::Faulted(job)));
        } else {
            self.workers.set(w, Worker { id: w, state: WorkerState::Idle, reclaimed });
            proof {
                lemma_count_update(pre.states, w as int, WorkerState::Idle, |s: WorkerState| holds_job(s));
            }
            self.completed = self.completed + 1;
            assert(self@.states =~= pre.states.update(w as int, WorkerState::Idle));
        }
        assert(self@.reclaimed =~= pre.reclaimed);
        assert(self@ =~= pre.after_finish(w as int, faulted));
    }

    /// Closes submission and takes every worker handle not yet taken. The
    /// result lists those workers' ids in ascending order: the caller joins
    /// each of them once. A second call closes nothing and lists no worker.
    pub fn shutdown(&mut self) -> (r: Vec<usize>)
        requires
            old(self).wf(),
        ensures
            final(self).wf(),
            final(self)@ == old(self)@.after_shutdown(),
            old(self)@.lists_unreclaimed(r@),
    {
        let ghost pre = self@;
        self.accepting = false;
        let mut r: Vec<usize> = Vec::new();
        let n = self.workers.len();
        let mut i: usize = 0;
        while i < n
            invariant
                n == self.workers@.len() == pre.size(),
                i <= n,
                !self.accepting,
                self.submitted == pre.submitted,
                self.dispatched == pre.dispatched,
                self.completed == pre.completed,
                forall|k: int| 0 <= k < n ==> (#[trigger] self.workers@[k]).id == k,
                forall|k: int| 0 <= k < n ==> (#[trigger] self.workers@[k]).state == pre.states[k],
                forall|k: int| 0 <= k < i ==> (#[trigger] self.workers@[k]).reclaimed,
                pre.reclaimed.len() == n,
                forall|k: int| i <= k < n ==> (#[trigger] self.workers@[k]).reclaimed == pre.reclaimed[k],
                forall|a: int, b: int| 0 <= a < b < r@.len() ==> r@[a] < r@[b],
                forall|k: int| 0 <= k < r@.len() ==> r@[k] < i && !pre.reclaimed[r@[k] as int],
                forall|k: int| 0 <= k < i && !pre.reclaimed[k] ==> #[trigger] r@.contains(k as usize),
            decreases n - i,
        {
            let ghost r0 = r@;
            assert(self.workers@[i as int].reclaimed == pre.reclaimed[i as int]);
            if !self.workers[i].reclaimed {
                let state = self.workers[i].state;
                self.workers.set(i, Worker { id: i, state, reclaimed: true });
                r.push(i);
                assert(r@[r@.len() - 1] == i);
            }
            proof {
                assert forall|k: int| 0 <= k < i + 1 && !pre.reclaimed[k] implies #[trigger] r@.contains(
                    k as usize,
                ) by {
                    if k < i {
                        assert(r0.contains(k as usize));
                        let x = choose|x: int| 0 <= x < r0.len() && r0[x] == k as usize;
                        assert(r@[x] == k as usize);
                    } else {
                        assert(r@[r@.len() - 1] == i);
                    }
                }
            }
            i = i + 1;
        }
        assert(self@.states =~= pre.states);
        assert(self@.reclaimed =~= pre.after_shutdown().reclaimed);
        assert(self@ =~= pre.after_shutdown());
        r
    }
}

/// Counting with two predicates that agree on every state gives one number.
proof fn lemma_count_same(
    ws: Seq<WorkerState>,
    p: spec_fn(WorkerState) -> bool,
    q: spec_fn(WorkerState) -> bool,
)
    requires
        forall|i: int| 0 <= i < ws.len() ==> p(#[trigger] ws[i]) == q(ws[i]),
    ensures
        count(ws, p) == count(ws, q),
    decreases ws.len(),
{
    if ws.len() > 0 {
        assert forall|i: int| 0 <= i < ws.drop_last().len() implies p(
            #[trigger] ws.drop_last()[i],
        ) == q(ws.drop_last()[i]) by {
            assert(ws.drop_last()[i] == ws[i]);
        }
        lemma_count_same(ws.drop_last(), p, q);
    }
}

/// A new pool has `size` workers, every one of them idle, with an open and
/// empty queue.
pub proof fn lemma_new_pool_is_idle(size: nat)
    requires
        size > 0,
    ensures
        PoolView::initial(size).wf(),
        PoolView::initial(size).size() == size,
        forall|i: int| 0 <= i < size ==> PoolView::initial(size).states[i] == WorkerState::Idle,
        PoolView::initial(size).accepting,
        PoolView::initial(size).submitted == 0,
{
    let v = PoolView::initial(size);
    lemma_count_none(v.states, |s: WorkerState| holds_job(s));
}

/// When every worker has exited cleanly, every job ever submitted was
/// handed to a worker and returned: none is lost.
pub proof fn lemma_drained_pool_ran_every_job(v: PoolView)
    requires
        v.wf(),
        forall|i: int| 0 <= i < v.size() ==> v.states[i] == WorkerState::Terminated,
    ensures
        v.dispatched == v.submitted,
        v.completed == v.submitted,
{
    assert(v.states[0] == WorkerState::Terminated);
    lemma_count_none(v.states, |s: WorkerState| holds_job(s));
}

/// A worker is told to exit only when submission is closed and every queued
/// job has been handed out, so shutdown never abandons the backlog.
pub proof fn lemma_exit_only_when_drained(v: PoolView, w: int)
    requires
        v.wf(),
        0 <= w < v.size(),
        v.action_for(w) == Action::Exit,
    ensures
        !v.accepting,
        v.dispatched == v.submitted,
{
}

/// A fault ends only the worker whose job raised it: that worker stops
/// holding the job as a fault, every other worker keeps its state, and the
/// queue and submission are untouched.
pub proof fn lemma_fault_ends_only_its_worker(v: PoolView, w: int)
    requires
        v.wf(),
        0 <= w < v.size(),
        v.states[w] is Executing,
    ensures
        v.after_finish(w, true).states[w] == WorkerState::Faulted(held_job(v.states[w])),
        forall|i: int|
            0 <= i < v.size() && i != w ==> v.after_finish(w, true).states[i] == v.states[i],
        v.after_finish(w, true).submitted == v.submitted,
        v.after_finish(w, true).dispatched == v.dispatched,
        v.after_finish(w, true).completed == v.completed,
        v.after_finish(w, true).accepting == v.accepting,
{
}

/// Shutting down twice is the same as shutting down once, and the second
/// time no worker is left to join.
pub proof fn lemma_shutdown_twice(v: PoolView, r: Seq<usize>)
    requires
        v.wf(),
        v.after_shutdown().lists_unreclaimed(r),
    ensures
        v.after_shutdown().after_shutdown() == v.after_shutdown(),
        r.len() == 0,
{
    let s = v.after_shutdown();
    assert(s.after_shutdown().reclaimed =~= s.reclaimed);
    assert(s.after_shutdown() =~= s);
    if r.len() > 0 {
        assert(s.reclaimed[r[0] as int]);
    }
}

/// One call a pool's owner or one of its workers can make.
#[derive(Clone, Copy, Debug, PartialEq, Eq, Structural)]
pub enum Step {
    /// `execute`.
    Submit,
    /// `next_action` by this worker.
    Ask(usize),
    /// `finish_job` by this worker, with whether its job faulted.
    Finish(usize, bool),
    /// `shutdown`.
    Shutdown,
}

impl PoolView {
    /// Whether `step` may be taken from this state: the call's `requires`.
    pub open spec fn enabled(self, step: Step) -> bool {
        match step {
            Step::Submit => self.accepting && self.has_live_worker() && self.submitted < u64::MAX,
            Step::Ask(w) => w < self.size() && self.states[w as int] == WorkerState::Idle,
            Step::Finish(w, _) => w < self.size() && self.states[w as int] is Executing,
            Step::Shutdown => true,
        }
    }

    /// The state after `step`: the call's `ensures`.
    pub open spec fn apply(self, step: Step) -> PoolView {
        match step {
            Step::Submit => self.submit(),
            Step::Ask(w) => self.after_ask(w as int),
            Step::Finish(w, faulted) => self.after_finish(w as int, faulted),
            Step::Shutdown => self.after_shutdown(),
        }
    }

    /// The state after taking `steps` in order.
    pub open spec fn run(self, steps: Seq<Step>) -> PoolView
        decreases steps.len(),
    {
        if steps.len() == 0 {
            self
        } else {
            self.run(steps.drop_last()).apply(steps.last())
        }
    }

    /// Whether each of `steps` is enabled when it is taken.
    pub open spec fn valid_run(self, steps: Seq<Step>) -> bool
        decreases steps.len(),
    {
        if steps.len() == 0 {
            true
        } else {
            self.valid_run(steps.drop_last()) && self.run(steps.drop_last()).enabled(steps.last())
        }
    }

    /// The jobs handed to workers while taking `steps`, in the order they
    /// were handed out.
    pub open spec fn handed_out(self, steps: Seq<Step>) -> Seq<u64>
        decreases steps.len(),
    {
        if steps.len() == 0 {
            Seq::empty()
        } else {
            let before = self.run(steps.drop_last());
            let earlier = self.handed_out(steps.drop_last());
            match steps.last() {
                Step::Ask(w) => match before.action_for(w as int) {
                    Action::Run(j) => earlier.push(j),
                    _ => earlier,
                },
                _ => earlier,
            }
        }
    }
}

/// How many of `steps` submit a job.
pub open spec fn submissions(steps: Seq<Step>) -> nat
    decreases steps.len(),
{
    if steps.len() == 0 {
        0
    } else {
        submissions(steps.drop_last()) + if steps.last() == Step::Submit {
            1nat
        } else {
            0nat
        }
    }
}

/// Every enabled step keeps the pool's invariant.
pub proof fn lemma_step_keeps_wf(v: PoolView, step: Step)
    requires
        v.wf(),
        v.enabled(step),
    ensures
        v.apply(step).wf(),
{
    match step {
        Step::Submit => {
            assert forall|i: int| 0 <= i < v.size() implies #[trigger] v.states[i]
                != WorkerState::Terminated by {
                if v.states[i] == WorkerState::Terminated {
                    assert(!v.accepting);
                }
            }
        },
        Step::Ask(w) => {
            let p = |s: WorkerState| holds_job(s);
            match v.action_for(w as int) {
                Action::Run(j) => {
                    lemma_count_update(v.states, w as int, WorkerState::Executing(j), p);
                },
                Action::Exit => {
                    lemma_count_update(v.states, w as int, WorkerState::Terminated, p);
                },
                Action::Wait => {},
            }
        },
        Step::Finish(w, faulted) => {
            let p = |s: WorkerState| holds_job(s);
            let j = held_job(v.states[w as int]);
            if faulted {
                lemma_count_update(v.states, w as int, WorkerState::Faulted(j), p);
            } else {
                lemma_count_update(v.states, w as int, WorkerState::Idle, p);
            }
        },
        Step::Shutdown => {},
    }
}

/// Along any run of enabled steps from a new pool, the invariant holds,
/// the jobs submitted are those the run submitted, and the jobs handed out
/// are exactly the first `dispatched` ones, each once, in order.
pub proof fn lemma_run_from_new_pool(size: nat, steps: Seq<Step>)
    requires
        size > 0,
        PoolView::initial(size).valid_run(steps),
    ensures
        PoolView::initial(size).run(steps).wf(),
        PoolView::initial(size).run(steps).size() == size,
        PoolView::initial(size).run(steps).submitted == submissions(steps),
        PoolView::initial(size).handed_out(steps) == Seq::new(
            PoolView::initial(size).run(steps).dispatched,
            |i: int| i as u64,
        ),
    decreases steps.len(),
{
    let v0 = PoolView::initial(size);
    if steps.len() == 0 {
        lemma_new_pool_is_idle(size);
        assert(v0.handed_out(steps) =~= Seq::new(0, |i: int| i as u64));
    } else {
        let prefix = steps.drop_last();
        lemma_run_from_new_pool(size, prefix);
        let before = v0.run(prefix);
        lemma_step_keeps_wf(before, steps.last());
        let after = v0.run(steps);
        assert(before.dispatched <= before.submitted);
        match steps.last() {
            Step::Ask(w) => {
                match before.action_for(w as int) {
                    Action::Run(j) => {
                        assert(v0.handed_out(steps) =~= Seq::new(after.dispatched, |i: int| i as u64));
                    },
                    _ => {
                        assert(v0.handed_out(steps) =~= Seq::new(after.dispatched, |i: int| i as u64));
                    },
                }
            },
            _ => {
                assert(v0.handed_out(steps) =~= Seq::new(after.dispatched, |i: int| i as u64));
            },
        }
    }
}

/// Submit any number of jobs to a new pool, interleaved in any way with
/// the workers' calls and with shutdown: once every worker has exited
/// cleanly, every submitted job was handed out exactly once, in submission
/// order, and every one of them completed.
pub proof fn lemma_every_job_runs_exactly_once(size: nat, steps: Seq<Step>)
    requires
        size > 0,
        PoolView::initial(size).valid_run(steps),
        forall|i: int|
            0 <= i < size ==> PoolView::initial(size).run(steps).states[i] == WorkerState::Terminated,
    ensures
        PoolView::initial(size).handed_out(steps) == Seq::new(submissions(steps), |i: int| i as u64),
        PoolView::initial(size).run(steps).completed == submissions(steps),
{
    lemma_run_from_new_pool(size, steps);
    lemma_drained_pool_ran_every_job(PoolView::initial(size).run(steps));
}

/// When some jobs fault, the others are not lost: once every worker has
/// left its loop and at least one did so cleanly, every submitted job was
/// handed out exactly once, and the jobs that completed are all the
/// submitted ones but one per faulted worker.
pub proof fn lemma_faults_cost_only_their_jobs(size: nat, steps: Seq<Step>)
    requires
        size > 0,
        PoolView::initial(size).valid_run(steps),
        PoolView::initial(size).run(steps).all_terminated(),
        exists|i: int|
            0 <= i < size && PoolView::initial(size).run(steps).states[i] == WorkerState::Terminated,
    ensures
        PoolView::initial(size).handed_out(steps) == Seq::new(submissions(steps), |i: int| i as u64),
        PoolView::initial(size).run(steps).completed + faults(PoolView::initial(size).run(steps).states)
            == submissions(steps),
{
    let u = PoolView::initial(size).run(steps);
    lemma_run_from_new_pool(size, steps);
    let i = choose|i: int| 0 <= i < size && u.states[i] == WorkerState::Terminated;
    assert(u.states[i] == WorkerState::Terminated);
    lemma_count_same(u.states, |s: WorkerState| holds_job(s), |s: WorkerState| s is Faulted);
}

/// Once a run has shut the pool down, every later state has submission
/// closed and every worker handle taken: however many more times shutdown
/// is called, it lists no worker, so no worker is ever joined twice.
pub proof fn lemma_shutdown_reclaims_for_good(size: nat, steps: Seq<Step>, k: int)
    requires
        size > 0,
        PoolView::initial(size).valid_run(steps),
        0 <= k < steps.len(),
        steps[k] == Step::Shutdown,
    ensures
        !PoolView::initial(size).run(steps).accepting,
        forall|i: int| 0 <= i < size ==> #[trigger] PoolView::initial(size).run(steps).reclaimed[i],
        forall|r: Seq<usize>| #[trigger] PoolView::initial(size).run(steps).lists_unreclaimed(r) ==> r.len() == 0,
    decreases steps.len(),
{
    let v0 = PoolView::initial(size);
    let u = v0.run(steps);
    lemma_run_from_new_pool(size, steps);
    if k < steps.len() - 1 {
        let prefix = steps.drop_last();
        assert(prefix[k] == Step::Shutdown);
        lemma_shutdown_reclaims_for_good(size, prefix, k);
        let before = v0.run(prefix);
        assert(forall|i: int| 0 <= i < size ==> #[trigger] before.reclaimed[i]);
        match steps.last() {
            Step::Ask(w) => {
                assert(u.reclaimed == before.reclaimed);
            },
            Step::Finish(w, f) => {
                assert(u.reclaimed == before.reclaimed);
            },
            _ => {},
        }
    }
    assert forall|r: Seq<usize>| #[trigger] u.lists_unreclaimed(r) implies r.len() == 0 by {
        if r.len() > 0 {
            assert(u.reclaimed[r[0] as int]);
        }
    }
}

} // verus!
