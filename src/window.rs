//! The concurrency window of one core worker: a bounded set of outstanding
//! bulk requests, filled to its bound and then drained to empty.
//!
//! The window decides; the caller acts. It asks `next_action`, performs it
//! (issues one bulk request, or awaits one outstanding request), and reports
//! the outcome with `on_submitted` or `on_completed`.
use vstd::prelude::*;

verus! {

/// What the submission loop does next.
#[derive(Debug, Clone, Copy, PartialEq, Eq, Structural)]
pub enum Action {
    /// Build one more batch and issue it as a bulk request.
    Submit,
    /// Await one outstanding request, in any completion order.
    AwaitCompletion,
}

/// The mathematical state of a window.
pub ghost struct WindowState {
    /// The bound on outstanding requests (the configured chunk size).
    pub capacity: nat,
    /// Requests issued and not yet resolved.
    pub pending: nat,
    /// Whether the window is draining to empty.
    pub draining: bool,
    /// Requests issued so far.
    pub issued: nat,
    /// Requests resolved so far, success or failure alike.
    pub completed: nat,
}

/// A fresh window with bound `k`.
pub open spec fn initial(k: nat) -> WindowState {
    WindowState { capacity: k, pending: 0, draining: false, issued: 0, completed: 0 }
}

/// Issue while filling; await while draining.
pub open spec fn next_action_of(s: WindowState) -> Action {
    if s.draining {
        Action::AwaitCompletion
    } else {
        Action::Submit
    }
}

/// One more request is outstanding; reaching the bound starts the drain.
pub open spec fn after_submit(s: WindowState) -> WindowState {
    WindowState {
        pending: s.pending + 1,
        draining: s.pending + 1 == s.capacity,
        issued: s.issued + 1,
        ..s
    }
}

/// One outstanding request resolved; an empty window fills again.
pub open spec fn after_completion(s: WindowState) -> WindowState {
    WindowState {
        pending: (s.pending - 1) as nat,
        draining: s.pending - 1 > 0,
        completed: s.completed + 1,
        ..s
    }
}

/// One step of the submission loop: the action taken and its outcome.
pub open spec fn step(s: WindowState) -> WindowState {
    if s.draining {
        after_completion(s)
    } else {
        after_submit(s)
    }
}

/// The state after `n` steps of the submission loop.
pub open spec fn run(s: WindowState, n: nat) -> WindowState
    decreases n,
{
    if n == 0 {
        s
    } else {
        run(step(s), (n - 1) as nat)
    }
}

/// The invariant of a window: it never holds more than its bound, it drains
/// only while something is outstanding, it fills only below its bound, and
/// every issued request is either outstanding or resolved.
pub open spec fn well_formed(s: WindowState) -> bool {
    &&& s.capacity > 0
    &&& s.pending <= s.capacity
    &&& s.draining ==> s.pending > 0
    &&& !s.draining ==> s.pending < s.capacity
    &&& s.issued == s.completed + s.pending
}

/// The window of one core worker.
pub struct ConcurrencyWindow {
    capacity: usize,
    pending: usize,
    draining: bool,
    issued: Ghost<nat>,
    completed: Ghost<nat>,
}

impl View for ConcurrencyWindow {
    type V = WindowState;

    closed spec fn view(&self) -> WindowState {
        WindowState {
            capacity: self.capacity as nat,
            pending: self.pending as nat,
            draining: self.draining,
            issued: self.issued@,
            completed: self.completed@,
        }
    }
}

impl ConcurrencyWindow {
    /// An empty window that allows `capacity` outstanding requests.
    pub fn new(capacity: usize) -> (r: ConcurrencyWindow)
        requires
            capacity > 0,
        ensures
            r@ == initial(capacity as nat),
            well_formed(r@),
    {
        ConcurrencyWindow {
            capacity,
            pending: 0,
            draining: false,
            issued: Ghost(0),
            completed: Ghost(0),
        }
    }

    /// The bound on outstanding requests.
    pub fn capacity(&self) -> (r: usize)
        ensures
            r as nat == self@.capacity,
    {
        self.capacity
    }

    /// The number of outstanding requests.
    pub fn pending(&self) -> (r: usize)
        ensures
            r as nat == self@.pending,
    {
        self.pending
    }

    /// Whether the window is draining to empty.
    pub fn is_draining(&self) -> (r: bool)
        ensures
            r == self@.draining,
    {
        self.draining
    }

    /// What the submission loop must do next.
    pub fn next_action(&self) -> (r: Action)
        ensures
            r == next_action_of(self@),
    {
        if self.draining {
            Action::AwaitCompletion
        } else {
            Action::Submit
        }
    }

    /// Records that one bulk request was issued.
    pub fn on_submitted(&mut self)
        requires
            well_formed(old(self)@),
            next_action_of(old(self)@) == Action::Submit,
        ensures
            final(self)@ == after_submit(old(self)@),
            well_formed(final(self)@),
    {
        self.pending = self.pending + 1;
        self.draining = self.pending == self.capacity;
        self.issued = Ghost(self.issued@ + 1);
    }

    /// Records that one outstanding bulk request resolved, whatever its
    /// outcome.
    pub fn on_completed(&mut self)
        requires
            well_formed(old(self)@),
            next_action_of(old(self)@) == Action::AwaitCompletion,
        ensures
            final(self)@ == after_completion(old(self)@),
            well_formed(final(self)@),
    {
        self.pending = self.pending - 1;
        self.draining = self.pending > 0;
        self.completed = Ghost(self.completed@ + 1);
    }
}

/// One step keeps a window well formed.
pub proof fn lemma_step_well_formed(s: WindowState)
    requires
        well_formed(s),
    ensures
        well_formed(step(s)),
{
}

/// Any number of steps keeps a window well formed.
pub proof fn lemma_run_well_formed(s: WindowState, n: nat)
    requires
        well_formed(s),
    ensures
        well_formed(run(s, n)),
        run(s, n).capacity == s.capacity,
    decreases n,
{
    if n > 0 {
        lemma_step_well_formed(s);
        lemma_run_well_formed(step(s), (n - 1) as nat);
    }
}

/// For every bound `k > 0` and every point of the submission loop, the
/// window holds at most `k` outstanding requests, and once it holds `k` the
/// next action is to await one of them, never to issue another.
pub proof fn lemma_window_bounded(k: nat, n: nat)
    requires
        k > 0,
    ensures
        run(initial(k), n).pending <= k,
        run(initial(k), n).pending == k ==> next_action_of(run(initial(k), n))
            == Action::AwaitCompletion,
{
    lemma_run_well_formed(initial(k), n);
}

/// Running `a` steps and then `b` steps is running `a + b` steps.
pub proof fn lemma_run_add(s: WindowState, a: nat, b: nat)
    ensures
        run(s, a + b) == run(run(s, a), b),
    decreases a,
{
    if a > 0 {
        lemma_run_add(step(s), (a - 1) as nat, b);
        assert((a + b - 1) as nat == (a - 1) as nat + b);
    }
}

/// Filling: from a filling window, `j` steps issue `j` requests.
proof fn lemma_fill(s: WindowState, j: nat)
    requires
        !s.draining,
        s.pending + j <= s.capacity,
        s.pending < s.capacity,
    ensures
        run(s, j) == (WindowState {
            pending: s.pending + j,
            draining: s.pending + j == s.capacity,
            issued: s.issued + j,
            ..s
        }),
    decreases j,
{
    if j > 0 {
        if j > 1 {
            lemma_fill(step(s), (j - 1) as nat);
        } else {
            assert(run(step(s), 0) == step(s));
        }
    }
}

/// Draining: from a draining window, `j` steps resolve `j` requests.
proof fn lemma_drain(s: WindowState, j: nat)
    requires
        s.draining,
        j <= s.pending,
    ensures
        run(s, j) == (WindowState {
            pending: (s.pending - j) as nat,
            draining: if j == 0 { s.draining } else { s.pending - j > 0 },
            completed: s.completed + j,
            ..s
        }),
    decreases j,
{
    if j > 0 {
        if j > 1 {
            lemma_drain(step(s), (j - 1) as nat);
        } else {
            assert(run(step(s), 0) == step(s));
        }
    }
}

/// One full fill-then-drain cycle from an empty filling window issues and
/// resolves exactly `capacity` requests and leaves the window empty again.
pub proof fn lemma_one_cycle(s: WindowState)
    requires
        s.capacity > 0,
        s.pending == 0,
        !s.draining,
    ensures
        run(s, 2 * s.capacity) == (WindowState {
            issued: s.issued + s.capacity,
            completed: s.completed + s.capacity,
            ..s
        }),
{
    let k = s.capacity;
    lemma_fill(s, k);
    let full = run(s, k);
    lemma_drain(full, k);
    lemma_run_add(s, k, k);
    assert(k + k == 2 * k);
}

/// The completion count never decreases from one step to the next, and
/// after `w` full fill-then-drain cycles with bound `k` exactly `w * k` bulk
/// requests have been issued and resolved, none is outstanding, and the next
/// action is to issue.
pub proof fn lemma_counter_after_cycles(k: nat, w: nat)
    requires
        k > 0,
    ensures
        forall|n: nat| #[trigger] run(initial(k), n).completed <= run(initial(k), n + 1).completed,
        run(initial(k), 2 * k * w) == (WindowState {
            capacity: k,
            pending: 0,
            draining: false,
            issued: w * k,
            completed: w * k,
        }),
        next_action_of(run(initial(k), 2 * k * w)) == Action::Submit,
    decreases w,
{
    assert forall|n: nat| #[trigger] run(initial(k), n).completed <= run(initial(k), n + 1).completed by {
        lemma_run_add(initial(k), n, 1);
        let here = run(initial(k), n);
        assert(run(step(here), 0) == step(here));
        assert(run(here, 1) == step(here));
    }
    if w > 0 {
        lemma_counter_after_cycles(k, (w - 1) as nat);
        let before = run(initial(k), 2 * k * (w - 1) as nat);
        lemma_one_cycle(before);
        lemma_run_add(initial(k), 2 * k * (w - 1) as nat, 2 * k);
        assert(2 * k * (w - 1) as nat + 2 * k == 2 * k * w) by (nonlinear_arith)
            requires
                w > 0,
        ;
        assert((w - 1) as nat * k + k == w * k) by (nonlinear_arith)
            requires
                w > 0,
        ;
    } else {
        assert(2 * k * w == 0) by (nonlinear_arith)
            requires
                w == 0,
        ;
        assert(w * k == 0) by (nonlinear_arith)
            requires
                w == 0,
        ;
    }
}

/// Full fill-then-drain cycles completed, summed over the core workers.
pub open spec fn total_cycles(cycles: Seq<nat>) -> nat
    decreases cycles.len(),
{
    if cycles.len() == 0 {
        0
    } else {
        total_cycles(cycles.drop_last()) + cycles.last()
    }
}

/// Requests resolved over all core workers with bound `k`, where worker `i`
/// has completed `cycles[i]` full fill-then-drain cycles.
pub open spec fn completed_across(k: nat, cycles: Seq<nat>) -> nat
    decreases cycles.len(),
{
    if cycles.len() == 0 {
        0
    } else {
        completed_across(k, cycles.drop_last()) + run(initial(k), 2 * k * cycles.last()).completed
    }
}

/// Over all core workers with bound `k`, the progress count after `W` full
/// fill-then-drain cycles in all is exactly `W * k`: bulk requests are
/// counted, not documents.
pub proof fn lemma_counter_across_cores(k: nat, cycles: Seq<nat>)
    requires
        k > 0,
    ensures
        completed_across(k, cycles) == total_cycles(cycles) * k,
    decreases cycles.len(),
{
    if cycles.len() > 0 {
        lemma_counter_across_cores(k, cycles.drop_last());
        lemma_counter_after_cycles(k, cycles.last());
        let rest = total_cycles(cycles.drop_last());
        let w = cycles.last();
        assert(run(initial(k), 2 * k * w).completed == w * k);
        assert(completed_across(k, cycles) == completed_across(k, cycles.drop_last()) + w * k);
        assert(total_cycles(cycles) == rest + w);
        assert(rest * k + w * k == (rest + w) * k) by (nonlinear_arith);
    } else {
        assert(0 * k == 0);
    }
}

} // verus!
