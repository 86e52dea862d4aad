//! The dispatch rules of a fixed-size worker pool.
//!
//! Tasks are numbered by tickets in the order they are submitted and wait in
//! one queue. Each of the `size` workers, when idle, asks what to do next and
//! is told to run the oldest waiting task, to wait, or (once the pool is shut
//! down and the queue has drained) to stop. A task's end, whether it completed
//! or faulted, returns its worker to idle.
use std::collections::VecDeque;
use vstd::prelude::*;

verus! {

/// What a worker is doing.
#[derive(Clone, Copy, Debug, PartialEq, Eq, Structural)]
pub enum WorkerState {
    Idle,
    Running(u64),
    Terminated,
}

/// How a task ended.
#[derive(Clone, Copy, Debug, PartialEq, Eq, Structural)]
pub enum TaskOutcome {
    Completed,
    Faulted,
}

/// What an idle worker is told to do next.
#[derive(Clone, Copy, Debug, PartialEq, Eq, Structural)]
pub enum WorkerAction {
    /// Run the task with this ticket.
    Run(u64),
    /// Block until a task is submitted or the pool shuts down.
    Wait,
    /// Leave the run loop for good.
    Stop,
}

/// Why the pool refused.
#[derive(Clone, Copy, Debug, PartialEq, Eq, Structural)]
pub enum PoolError {
    /// A pool needs at least one worker.
    ZeroWorkers,
    /// The pool has been shut down and takes no more tasks.
    Closed,
}

/// The abstract state of a pool.
pub ghost struct PoolView {
    pub size: nat,
    /// Tickets of the tasks submitted and not yet started, oldest first.
    pub queue: Seq<u64>,
    /// One state per worker, indexed `0..size`.
    pub workers: Seq<WorkerState>,
    /// Whether submissions are still accepted.
    pub open: bool,
    /// The ticket the next submission receives.
    pub next_ticket: nat,
}

impl PoolView {
    /// A fresh pool of `n` idle workers with an empty, open queue.
    pub open spec fn initial(n: nat) -> PoolView {
        PoolView {
            size: n,
            queue: Seq::empty(),
            workers: Seq::new(n, |i: int| WorkerState::Idle),
            open: true,
            next_ticket: 0,
        }
    }

    pub open spec fn wf(self) -> bool {
        &&& self.size >= 1
        &&& self.workers.len() == self.size
        &&& self.next_ticket <= u64::MAX
        // queued tickets are strictly increasing and already handed out
        &&& forall|i: int, j: int|
            0 <= i < j < self.queue.len() ==> self.queue[i] < self.queue[j]
        &&& forall|i: int| 0 <= i < self.queue.len() ==> self.queue[i] < self.next_ticket
        // every running task is older than every queued one
        &&& forall|w: int, i: int|
            0 <= w < self.size && self.workers[w] is Running && 0 <= i < self.queue.len()
                ==> self.workers[w]->Running_0 < self.queue[i]
        &&& forall|w: int| 0 <= w < self.size && self.workers[w] is Running ==> self.workers[w]->Running_0 < self.next_ticket
        // no task runs on two workers
        &&& forall|v: int, w: int|
            0 <= v < self.size && 0 <= w < self.size && v != w && self.workers[v] is Running && self.workers[w] is Running
                ==> self.workers[v]->Running_0 != self.workers[w]->Running_0
        // a worker stops only once the pool is closed and drained
        &&& forall|w: int|
            0 <= w < self.size && self.workers[w] is Terminated ==> !self.open && self.queue.len() == 0
    }

    /// The state after a submission: while open, the next ticket joins the
    /// back of the queue; once closed, nothing changes.
    pub open spec fn submitted(self) -> PoolView {
        if self.open {
            PoolView {
                queue: self.queue.push(self.next_ticket as u64),
                next_ticket: self.next_ticket + 1,
                ..self
            }
        } else {
            self
        }
    }

    /// What idle worker `w` is told: the oldest queued task if there is one;
    /// otherwise to stop once the pool is closed, and to wait while it is open.
    pub open spec fn dispatch_action(self, w: int) -> WorkerAction {
        if self.queue.len() > 0 {
            WorkerAction::Run(self.queue[0])
        } else if !self.open {
            WorkerAction::Stop
        } else {
            WorkerAction::Wait
        }
    }

    /// The state after idle worker `w` asked for work.
    pub open spec fn dispatched(self, w: int) -> PoolView {
        if self.queue.len() > 0 {
            PoolView {
                queue: self.queue.drop_first(),
                workers: self.workers.update(w, WorkerState::Running(self.queue[0])),
                ..self
            }
        } else if !self.open {
            PoolView { workers: self.workers.update(w, WorkerState::Terminated), ..self }
        } else {
            self
        }
    }

    /// The state after worker `w`'s task ended: the worker is idle again,
    /// whatever the outcome.
    pub open spec fn finished(self, w: int, outcome: TaskOutcome) -> PoolView {
        PoolView { workers: self.workers.update(w, WorkerState::Idle), ..self }
    }

    /// The state after shutdown began: no more submissions.
    pub open spec fn closed(self) -> PoolView {
        PoolView { open: false, ..self }
    }

    /// Every worker has left its run loop.
    pub open spec fn all_terminated(self) -> bool {
        forall|w: int| 0 <= w < self.size ==> self.workers[w] is Terminated
    }

    /// How many workers are running a task.
    pub open spec fn running_count(self) -> nat {
        self.workers.filter(|s: WorkerState| s is Running).len()
    }

    /// The state after `k` submissions in a row.
    pub open spec fn submitted_times(self, k: nat) -> PoolView
        decreases k,
    {
        if k == 0 {
            self
        } else {
            self.submitted_times((k - 1) as nat).submitted()
        }
    }

    /// The state after workers `0`, `1`, ..., `k - 1` asked for work, in turn.
    pub open spec fn dispatched_in_turn(self, k: nat) -> PoolView
        decreases k,
    {
        if k == 0 {
            self
        } else {
            self.dispatched_in_turn((k - 1) as nat).dispatched(k - 1)
        }
    }
}

pub proof fn lemma_initial_wf(n: nat)
    requires
        n >= 1,
    ensures
        PoolView::initial(n).wf(),
{
}

pub proof fn lemma_submitted_wf(m: PoolView)
    requires
        m.wf(),
        m.open ==> m.next_ticket < u64::MAX,
    ensures
        m.submitted().wf(),
{
}

pub proof fn lemma_dispatched_wf(m: PoolView, w: int)
    requires
        m.wf(),
        0 <= w < m.size,
        m.workers[w] is Idle,
    ensures
        m.dispatched(w).wf(),
{
    let d = m.dispatched(w);
    if m.queue.len() > 0 {
        assert forall|v: int, i: int|
            0 <= v < d.size && d.workers[v] is Running && 0 <= i < d.queue.len()
                implies d.workers[v]->Running_0 < d.queue[i] by {
            assert(d.queue[i] == m.queue[i + 1]);
        }
        assert forall|v: int, u: int|
            0 <= v < d.size && 0 <= u < d.size && v != u && d.workers[v] is Running && d.workers[u] is Running
                implies d.workers[v]->Running_0 != d.workers[u]->Running_0 by {
            if v != w && u != w {
                assert(d.workers[v]->Running_0 == m.workers[v]->Running_0);
            } else if v == w {
                assert(m.workers[u]->Running_0 < m.queue[0]);
            } else {
                assert(m.workers[v]->Running_0 < m.queue[0]);
            }
        }
    }
}

pub proof fn lemma_finished_wf(m: PoolView, w: int, outcome: TaskOutcome)
    requires
        m.wf(),
        0 <= w < m.size,
        m.workers[w] is Running,
    ensures
        m.finished(w, outcome).wf(),
{
    let f = m.finished(w, outcome);
    assert forall|v: int, u: int|
        0 <= v < f.size && 0 <= u < f.size && v != u && f.workers[v] is Running && f.workers[u] is Running
            implies f.workers[v]->Running_0 != f.workers[u]->Running_0 by {
        assert(m.workers[v] is Running && m.workers[u] is Running);
    }
}

pub proof fn lemma_closed_wf(m: PoolView)
    requires
        m.wf(),
    ensures
        m.closed().wf(),
{
}

proof fn lemma_fresh_submissions(n: nat, k: nat)
    requires
        n >= 1,
        k <= u64::MAX,
    ensures
        PoolView::initial(n).submitted_times(k) == (PoolView {
            queue: Seq::new(k, |i: int| i as u64),
            next_ticket: k,
            ..PoolView::initial(n)
        }),
    decreases k,
{
    if k > 0 {
        lemma_fresh_submissions(n, (k - 1) as nat);
        assert(Seq::new((k - 1) as nat, |i: int| i as u64).push((k - 1) as u64)
            =~= Seq::new(k, |i: int| i as u64));
    } else {
        assert(Seq::new(0, |i: int| i as u64) =~= Seq::<u64>::empty());
    }
}

proof fn lemma_idle_workers_take_queue_front(m: PoolView, k: nat)
    requires
        k <= m.size,
        k <= m.queue.len(),
        m.workers.len() == m.size,
        forall|w: int| 0 <= w < m.size ==> m.workers[w] is Idle,
    ensures
        m.dispatched_in_turn(k).queue == m.queue.subrange(k as int, m.queue.len() as int),
        m.dispatched_in_turn(k).workers.len() == m.size,
        forall|w: int| 0 <= w < k ==> m.dispatched_in_turn(k).workers[w] == WorkerState::Running(m.queue[w]),
        forall|w: int| k <= w < m.size ==> m.dispatched_in_turn(k).workers[w] is Idle,
        m.dispatched_in_turn(k).size == m.size,
    decreases k,
{
    if k > 0 {
        lemma_idle_workers_take_queue_front(m, (k - 1) as nat);
        let p = m.dispatched_in_turn((k - 1) as nat);
        assert(p.queue[0] == m.queue[k - 1]);
        assert(p.queue.drop_first() =~= m.queue.subrange(k as int, m.queue.len() as int));
    }
}

/// A fresh pool of `n` workers, given `n` tasks, runs all of them at once:
/// once each worker has asked for work, worker `w` runs the task with
/// ticket `w` and nothing is left waiting.
pub proof fn lemma_fresh_pool_runs_n_tasks_at_once(n: nat)
    requires
        n >= 1,
        n <= u64::MAX,
    ensures
        PoolView::initial(n).submitted_times(n).dispatched_in_turn(n).size == n,
        PoolView::initial(n).submitted_times(n).dispatched_in_turn(n).queue.len() == 0,
        forall|w: int| 0 <= w < n ==>
            PoolView::initial(n).submitted_times(n).dispatched_in_turn(n).workers[w]
                == WorkerState::Running(w as u64),
{
    lemma_fresh_submissions(n, n);
    let m = PoolView::initial(n).submitted_times(n);
    lemma_idle_workers_take_queue_front(m, n);
}

/// In every well-formed state, no more tasks run at once than the pool has
/// workers.
pub proof fn lemma_at_most_size_running(m: PoolView)
    requires
        m.wf(),
    ensures
        m.running_count() <= m.size,
{
    m.workers.lemma_filter_len(|s: WorkerState| s is Running);
}

/// While every worker is busy, a new submission returns at once, waits at
/// the back of the queue, and starts nothing: the workers stay as they were
/// and still no more than the pool's size run.
pub proof fn lemma_excess_task_waits(m: PoolView)
    requires
        m.wf(),
        m.open,
        m.next_ticket < u64::MAX,
        forall|w: int| 0 <= w < m.size ==> m.workers[w] is Running,
    ensures
        m.submitted().running_count() <= m.size,
        m.submitted().workers == m.workers,
        m.submitted().queue == m.queue.push(m.next_ticket as u64),
        forall|w: int| 0 <= w < m.size ==> !(m.submitted().workers[w] is Idle),
{
    lemma_submitted_wf(m);
    lemma_at_most_size_running(m.submitted());
}

proof fn lemma_submitted_times_keeps_workers(m: PoolView, k: nat)
    requires
        m.wf(),
        m.next_ticket + k <= u64::MAX,
    ensures
        m.submitted_times(k).wf(),
        m.submitted_times(k).workers == m.workers,
        m.submitted_times(k).size == m.size,
        m.submitted_times(k).next_ticket <= m.next_ticket + k,
    decreases k,
{
    if k > 0 {
        lemma_submitted_times_keeps_workers(m, (k - 1) as nat);
        lemma_submitted_wf(m.submitted_times((k - 1) as nat));
    }
}

/// Tasks start in the order they were submitted: when a worker starts a
/// task, and later (after any number `k` of further submissions) another
/// worker starts one, the second one's ticket is the larger.
pub proof fn lemma_tasks_start_in_submission_order(m: PoolView, v: int, w: int, k: nat)
    requires
        m.wf(),
        0 <= v < m.size,
        0 <= w < m.size,
        m.workers[v] is Idle,
        m.dispatch_action(v) is Run,
        m.dispatched(v).submitted_times(k).workers[w] is Idle,
        m.dispatched(v).submitted_times(k).dispatch_action(w) is Run,
        m.next_ticket + k <= u64::MAX,
    ensures
        m.dispatch_action(v)->Run_0 < m.dispatched(v).submitted_times(k).dispatch_action(w)->Run_0,
{
    lemma_dispatched_wf(m, v);
    let d = m.dispatched(v);
    lemma_submitted_times_keeps_workers(d, k);
    let e = d.submitted_times(k);
    assert(e.workers[v] == WorkerState::Running(m.queue[0]));
    assert(e.queue.len() > 0);
}

/// A faulting task is contained: its worker is idle again exactly as after
/// a task that completed, the pool stays as open as it was, and the next
/// task submitted to an open pool is started by that worker.
pub proof fn lemma_fault_is_contained(m: PoolView, w: int)
    requires
        m.wf(),
        0 <= w < m.size,
        m.workers[w] is Running,
    ensures
        m.finished(w, TaskOutcome::Faulted) == m.finished(w, TaskOutcome::Completed),
        m.finished(w, TaskOutcome::Faulted).wf(),
        m.finished(w, TaskOutcome::Faulted).workers[w] is Idle,
        m.finished(w, TaskOutcome::Faulted).open == m.open,
        m.finished(w, TaskOutcome::Faulted).queue == m.queue,
        m.open && m.next_ticket < u64::MAX
            ==> m.finished(w, TaskOutcome::Faulted).submitted().dispatch_action(w) is Run,
{
    lemma_finished_wf(m, w, TaskOutcome::Faulted);
}

/// After shutdown begins, submissions are refused and change nothing, a
/// second shutdown changes nothing, running tasks keep running, queued
/// tasks still start, and an idle worker is told to stop only once the
/// queue is empty.
pub proof fn lemma_shutdown_refuses_and_drains(m: PoolView, w: int)
    requires
        m.wf(),
        0 <= w < m.size,
    ensures
        m.closed().wf(),
        m.closed().submitted() == m.closed(),
        m.closed().closed() == m.closed(),
        m.closed().workers == m.workers,
        m.closed().queue == m.queue,
        m.queue.len() > 0 ==> m.closed().dispatch_action(w) == WorkerAction::Run(m.queue[0]),
        m.queue.len() == 0 ==> m.closed().dispatch_action(w) == WorkerAction::Stop,
{
    lemma_closed_wf(m);
}

/// Once every worker has stopped, no task is running, none is waiting, and
/// the pool accepts no more.
pub proof fn lemma_all_stopped_means_drained(m: PoolView)
    requires
        m.wf(),
        m.all_terminated(),
    ensures
        !m.open,
        m.queue.len() == 0,
        forall|w: int| 0 <= w < m.size ==> !(m.workers[w] is Running),
{
    assert(m.workers[0] is Terminated);
}

/// The dispatch state of a pool of worker threads.
///
/// Its owner runs the threads: a worker that is idle calls `next_action` and
/// does what it is told, reporting the end of each task with `task_done`;
/// submitters call `submit` and keep the task under the returned ticket.
pub struct PoolCore {
    size: usize,
    queue: VecDeque<u64>,
    workers: Vec<WorkerState>,
    open: bool,
    next_ticket: u64,
}

impl View for PoolCore {
    type V = PoolView;

    closed spec fn view(&self) -> PoolView {
        PoolView {
            size: self.size as nat,
            queue: self.queue@,
            workers: self.workers@,
            open: self.open,
            next_ticket: self.next_ticket as nat,
        }
    }
}

impl PoolCore {
    /// A pool of `n` idle workers; refused when `n` is zero.
    pub fn new(n: usize) -> (r: Result<PoolCore, PoolError>)
        ensures
            n == 0 <==> r is Err,
            r is Err ==> r->Err_0 == PoolError::ZeroWorkers,
            r is Ok ==> r->Ok_0@ == PoolView::initial(n as nat) && r->Ok_0@.wf(),
    {
        if n == 0 {
            return Err(PoolError::ZeroWorkers);
        }
        let mut workers: Vec<WorkerState> = Vec::new();
        let mut i: usize = 0;
        while i < n
            invariant
                i <= n,
                workers@.len() == i,
                forall|k: int| 0 <= k < i ==> workers@[k] == WorkerState::Idle,
            decreases n - i,
        {
            workers.push(WorkerState::Idle);
            i = i + 1;
        }
        let core = PoolCore { size: n, queue: VecDeque::new(), workers, open: true, next_ticket: 0 };
        assert(core@.workers =~= PoolView::initial(n as nat).workers);
        assert(core@ == PoolView::initial(n as nat));
        proof {
            lemma_initial_wf(n as nat);
        }
        Ok(core)
    }

    /// Submits one task: while the pool is open it is queued under the
    /// returned ticket; after shutdown it is refused and nothing changes.
    pub fn submit(&mut self) -> (r: Result<u64, PoolError>)
        requires
            old(self)@.wf(),
            old(self)@.open ==> old(self)@.next_ticket < u64::MAX,
        ensures
            final(self)@ == old(self)@.submitted(),
            final(self)@.wf(),
            r is Ok <==> old(self)@.open,
            r is Ok ==> r->Ok_0 == old(self)@.next_ticket,
            r is Err ==> r->Err_0 == PoolError::Closed,
    {
        proof {
            lemma_submitted_wf(self@);
        }
        if !self.open {
            return Err(PoolError::Closed);
        }
        let t = self.next_ticket;
        self.queue.push_back(t);
        self.next_ticket = t + 1;
        Ok(t)
    }

    /// Tells idle worker `w` what to do next, and records it.
    pub fn next_action(&mut self, w: usize) -> (r: WorkerAction)
        requires
            old(self)@.wf(),
            w < old(self)@.size,
            old(self)@.workers[w as int] is Idle,
        ensures
            r == old(self)@.dispatch_action(w as int),
            final(self)@ == old(self)@.dispatched(w as int),
            final(self)@.wf(),
    {
        proof {
            lemma_dispatched_wf(self@, w as int);
        }
        match self.queue.pop_front() {
            Some(t) => {
                self.workers.set(w, WorkerState::Running(t));
                WorkerAction::Run(t)
            },
            None => {
                if !self.open {
                    self.workers.set(w, WorkerState::Terminated);
                    WorkerAction::Stop
                } else {
                    WorkerAction::Wait
                }
            },
        }
    }

    /// Records that worker `w`'s task ended; the worker is idle again
    /// whether the task completed or faulted.
    pub fn task_done(&mut self, w: usize, outcome: TaskOutcome)
        requires
            old(self)@.wf(),
            w < old(self)@.size,
            old(self)@.workers[w as int] is Running,
        ensures
            final(self)@ == old(self)@.finished(w as int, outcome),
            final(self)@.wf(),
    {
        proof {
            lemma_finished_wf(self@, w as int, outcome);
        }
        self.workers.set(w, WorkerState::Idle);
    }

    /// Begins shutdown: no more submissions are accepted. Queued tasks still
    /// run; each worker stops once the queue is empty. Calling it again
    /// changes nothing.
    pub fn shutdown(&mut self)
        requires
            old(self)@.wf(),
        ensures
            final(self)@ == old(self)@.closed(),
            final(self)@.wf(),
    {
        proof {
            lemma_closed_wf(self@);
        }
        self.open = false;
    }

    /// Whether every worker has stopped.
    pub fn is_finished(&self) -> (r: bool)
        requires
            self@.wf(),
        ensures
            r == self@.all_terminated(),
    {
        let mut i: usize = 0;
        while i < self.size
            invariant
                self@.wf(),
                i <= self.size,
                forall|k: int| 0 <= k < i ==> self.workers@[k] is Terminated,
            decreases self.size - i,
        {
            if !matches!(self.workers[i], WorkerState::Terminated) {
                return false;
            }
            i = i + 1;
        }
        true
    }

    /// The number of workers.
    pub fn size(&self) -> (r: usize)
        ensures
            r == self@.size,
    {
        self.size
    }

    /// What worker `w` is doing.
    pub fn worker_state(&self, w: usize) -> (r: WorkerState)
        requires
            self@.wf(),
            w < self@.size,
        ensures
            r == self@.workers[w as int],
    {
        self.workers[w]
    }

    /// How many submitted tasks have not started yet.
    pub fn queued(&self) -> (r: usize)
        ensures
            r == self@.queue.len(),
    {
        self.queue.len()
    }

    /// Whether submissions are still accepted.
    pub fn is_open(&self) -> (r: bool)
        ensures
            r == self@.open,
    {
        self.open
    }

    /// The ticket the next submission will receive.
    pub fn next_ticket(&self) -> (r: u64)
        ensures
            r == self@.next_ticket,
    {
        self.next_ticket
    }
}

} // verus!
