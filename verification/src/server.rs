//! The server core's lifecycle state machine.
//!
//! `ServerCore` models the two pieces of state the accept loop and the
//! shutdown path share: the running flag and the registry of spawned
//! connection tasks (by task id, in spawn order). Each transition is an
//! executable method whose contract pins the next state and the action the
//! caller must perform.

use vstd::prelude::*;

verus! {

/// The mathematical state of the server core.
#[verifier::ext_equal]
pub ghost struct CoreView {
    /// The running flag: true between `start` and `stop`.
    pub running: bool,
    /// The ids of spawned, not yet joined, connection tasks, in spawn order.
    pub tasks: Seq<u64>,
    /// The id the next spawned task will get.
    pub next_task: u64,
}

/// The server core's own state: the running flag and the task registry.
pub struct ServerCore {
    running: bool,
    tasks: Vec<u64>,
    next_task: u64,
}

impl View for ServerCore {
    type V = CoreView;

    closed spec fn view(&self) -> CoreView {
        CoreView { running: self.running, tasks: self.tasks@, next_task: self.next_task }
    }
}

impl CoreView {
    /// Well-formed state: registered ids are strictly increasing and all
    /// below the next id to hand out, so every id is registered at most once.
    pub open spec fn wf(self) -> bool {
        &&& forall|i: int, j: int|
            0 <= i < j < self.tasks.len() ==> self.tasks[i] < self.tasks[j]
        &&& forall|i: int| 0 <= i < self.tasks.len() ==> self.tasks[i] < self.next_task
    }

    /// The state of a freshly constructed core: stopped, no tasks.
    pub open spec fn initial() -> CoreView {
        CoreView { running: false, tasks: Seq::empty(), next_task: 0 }
    }

    /// The server is fully shut down: not running and every task joined.
    pub open spec fn shutdown_complete(self) -> bool {
        !self.running && self.tasks.len() == 0
    }
}

/// What the accept loop observed in one non-blocking accept poll.
#[derive(Clone, Copy, PartialEq, Eq, Structural, Debug)]
pub enum AcceptEvent {
    /// A new connection is ready.
    Incoming,
    /// No connection is ready yet; not an error.
    WouldBlock,
    /// The accept failed with an error other than would-block.
    Error,
}

/// What the accept loop must do next.
#[derive(Clone, Copy, PartialEq, Eq, Structural, Debug)]
pub enum AcceptAction {
    /// Spawn a task with this id to own the new connection.
    Spawn(u64),
    /// Sleep briefly before polling again, to avoid busy-spinning.
    Sleep,
    /// Log the accept error and keep looping; it is not fatal.
    Ignore,
    /// The running flag is cleared: accept no more and drain the registry.
    StopAccepting,
}

/// The `stop` transition: clears the running flag and touches nothing else.
pub open spec fn spec_stop(s: CoreView) -> CoreView {
    CoreView { running: false, tasks: s.tasks, next_task: s.next_task }
}

/// The accept-loop transition: with the flag cleared nothing is accepted and
/// the state is unchanged; while running, an incoming connection registers a
/// fresh task id, and would-block or a non-fatal error leaves the state
/// unchanged.
pub open spec fn spec_accept(s: CoreView, event: AcceptEvent) -> (CoreView, AcceptAction) {
    if !s.running {
        (s, AcceptAction::StopAccepting)
    } else {
        match event {
            AcceptEvent::Incoming => (
                CoreView {
                    running: s.running,
                    tasks: s.tasks.push(s.next_task),
                    next_task: (s.next_task + 1) as u64,
                },
                AcceptAction::Spawn(s.next_task),
            ),
            AcceptEvent::WouldBlock => (s, AcceptAction::Sleep),
            AcceptEvent::Error => (s, AcceptAction::Ignore),
        }
    }
}

/// The shutdown-drain transition: hands out the most recently spawned task
/// still registered, removing it, or `None` once the registry is empty.
pub open spec fn spec_next_to_join(s: CoreView) -> (CoreView, Option<u64>) {
    if s.tasks.len() == 0 {
        (s, None)
    } else {
        (
            CoreView { running: s.running, tasks: s.tasks.drop_last(), next_task: s.next_task },
            Some(s.tasks.last()),
        )
    }
}

impl ServerCore {
    /// A new core: not running, with an empty task registry.
    pub fn new() -> (core: ServerCore)
        ensures
            core@ == CoreView::initial(),
            core@.wf(),
    {
        let core = ServerCore { running: false, tasks: Vec::new(), next_task: 0 };
        proof {
            assert(core@ =~= CoreView::initial());
        }
        core
    }

    /// Whether the server should keep accepting and serving. Connection tasks
    /// read this between round trips; the accept loop reads it each turn.
    pub fn is_running(&self) -> (r: bool)
        ensures
            r == self@.running,
    {
        self.running
    }

    /// The id the next spawned task will get. Callers of `accept_step` check
    /// this against the id space's end before polling.
    pub fn next_task_id(&self) -> (id: u64)
        ensures
            id == self@.next_task,
    {
        self.next_task
    }

    /// Sets the running flag: the first thing `run` does, before its first
    /// accept poll.
    pub fn start(&mut self)
        ensures
            final(self)@ == (CoreView {
                running: true,
                tasks: old(self)@.tasks,
                next_task: old(self)@.next_task,
            }),
    {
        self.running = true;
        proof {
            assert(final(self)@ =~= CoreView {
                running: true,
                tasks: old(self)@.tasks,
                next_task: old(self)@.next_task,
            });
        }
    }

    /// Requests shutdown: clears the running flag and touches nothing else,
    /// so a second call is a no-op. Returns whether this call produced the
    /// stop-requested signal, i.e. whether the server was still running.
    pub fn stop(&mut self) -> (signaled: bool)
        ensures
            final(self)@ == spec_stop(old(self)@),
            signaled == old(self)@.running,
    {
        let was_running = self.running;
        self.running = false;
        proof {
            assert(final(self)@ =~= spec_stop(old(self)@));
        }
        was_running
    }

    /// One turn of the accept loop: decides, from the running flag and the
    /// result of one accept poll, what the loop does next. While running, an
    /// incoming connection is assigned a fresh task id, registered, and owed
    /// a spawned task; once the flag is cleared no connection is ever
    /// registered again.
    pub fn accept_step(&mut self, event: AcceptEvent) -> (action: AcceptAction)
        requires
            old(self)@.next_task < u64::MAX,
        ensures
            final(self)@ == spec_accept(old(self)@, event).0,
            action == spec_accept(old(self)@, event).1,
            old(self)@.wf() ==> final(self)@.wf(),
    {
        if !self.running {
            return AcceptAction::StopAccepting;
        }
        match event {
            AcceptEvent::Incoming => {
                let id = self.next_task;
                self.tasks.push(id);
                self.next_task = id + 1;
                AcceptAction::Spawn(id)
            },
            AcceptEvent::WouldBlock => AcceptAction::Sleep,
            AcceptEvent::Error => AcceptAction::Ignore,
        }
    }

    /// One turn of the shutdown drain: hands out the most recently spawned
    /// task still registered, for the caller to join, or `None` once every
    /// registered task has been handed out.
    pub fn next_to_join(&mut self) -> (task: Option<u64>)
        ensures
            final(self)@ == spec_next_to_join(old(self)@).0,
            task == spec_next_to_join(old(self)@).1,
            old(self)@.wf() ==> final(self)@.wf(),
    {
        let task = self.tasks.pop();
        proof {
            assert(final(self)@ =~= spec_next_to_join(old(self)@).0);
        }
        task
    }

    /// The server is fully shut down: not running, every task joined.
    pub fn shutdown_complete(&self) -> (done: bool)
        ensures
            done == self@.shutdown_complete(),
    {
        !self.running && self.tasks.len() == 0
    }
}

} // verus!
