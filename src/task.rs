use vstd::prelude::*;

use futures::future::AbortHandle;

verus! {

/// A tracked unit of asynchronous work. Its result is held as JSON text.
pub enum Task {
    /// The work is running or queued. The registry's own copy holds the handle
    /// that cancels it; a snapshot handed out by the registry holds `None`.
    InProgress { abort_handle: Option<AbortHandle> },
    /// A cancellation was accepted: no result will ever be recorded.
    Cancelled,
    /// The work ran to its end; `data` is its outcome, success or failure.
    Completed { data: String },
}

/// What a task is, with the handle left out.
pub enum TaskState {
    InProgress,
    Cancelled,
    Completed { data: Seq<char> },
}

impl View for Task {
    type V = TaskState;

    open spec fn view(&self) -> TaskState {
        match self {
            Task::InProgress { .. } => TaskState::InProgress,
            Task::Cancelled => TaskState::Cancelled,
            Task::Completed { data } => TaskState::Completed { data: data@ },
        }
    }
}

impl Task {
    /// A copy of the task's state without its cancellation handle.
    pub fn snapshot(&self) -> (r: Task)
        ensures
            r@ == self@,
            r matches Task::InProgress { abort_handle } ==> abort_handle is None,
    {
        match self {
            Task::InProgress { .. } => Task::InProgress { abort_handle: None },
            Task::Cancelled => Task::Cancelled,
            Task::Completed { data } => Task::Completed { data: data.clone() },
        }
    }

    pub fn is_in_progress(&self) -> (r: bool)
        ensures
            r == (self@ is InProgress),
    {
        matches!(self, Task::InProgress { .. })
    }

    pub fn is_cancelled(&self) -> (r: bool)
        ensures
            r == (self@ is Cancelled),
    {
        matches!(self, Task::Cancelled)
    }
}

/// A terminal state is one that no operation leaves.
pub open spec fn is_terminal(s: TaskState) -> bool {
    !(s is InProgress)
}

/// `b` may be observed after `a` for the same task: only an in-progress task
/// changes state.
pub open spec fn may_follow(a: TaskState, b: TaskState) -> bool {
    a == b || a is InProgress
}

/// Every task of `pre` is still in `post`, in a state that may follow its old one.
pub open spec fn evolves(pre: Map<u32, TaskState>, post: Map<u32, TaskState>) -> bool {
    forall|id: u32| #[trigger]
        pre.contains_key(id) ==> post.contains_key(id) && may_follow(pre[id], post[id])
}

/// The tasks after registering `id` as in progress.
pub open spec fn registered(m: Map<u32, TaskState>, id: u32) -> Map<u32, TaskState> {
    m.insert(id, TaskState::InProgress)
}

/// The tasks after a completion of `id` with `data`: only an in-progress task
/// takes it; an unknown, cancelled or completed one is left as it was.
pub open spec fn completed(m: Map<u32, TaskState>, id: u32, data: Seq<char>) -> Map<
    u32,
    TaskState,
> {
    if m.contains_key(id) && m[id] is InProgress {
        m.insert(id, TaskState::Completed { data })
    } else {
        m
    }
}

/// The tasks after a cancellation of `id`: only an in-progress task is cancelled.
pub open spec fn cancelled(m: Map<u32, TaskState>, id: u32) -> Map<u32, TaskState> {
    if m.contains_key(id) && m[id] is InProgress {
        m.insert(id, TaskState::Cancelled)
    } else {
        m
    }
}

/// Over any run of registry operations, each of which evolves the tasks, a task
/// once seen is never forgotten, and a later observation of it may follow the
/// earlier one: a completed task is never seen cancelled, nor the other way round.
pub proof fn lemma_observations_monotone(
    history: Seq<Map<u32, TaskState>>,
    id: u32,
    i: int,
    j: int,
)
    requires
        forall|k: int| 0 <= k < history.len() - 1 ==> evolves(#[trigger] history[k], history[k + 1]),
        0 <= i <= j < history.len(),
        history[i].contains_key(id),
    ensures
        history[j].contains_key(id),
        may_follow(history[i][id], history[j][id]),
    decreases j - i,
{
    if i < j {
        lemma_observations_monotone(history, id, i, j - 1);
        assert(evolves(history[j - 1], history[j]));
        assert(history[j - 1].contains_key(id));
    }
}

/// Once a task is seen cancelled, every later observation in a run of registry
/// operations sees it cancelled: no completion can take its place.
pub proof fn lemma_cancelled_stays_cancelled(
    history: Seq<Map<u32, TaskState>>,
    id: u32,
    i: int,
    j: int,
)
    requires
        forall|k: int| 0 <= k < history.len() - 1 ==> evolves(#[trigger] history[k], history[k + 1]),
        0 <= i <= j < history.len(),
        history[i].contains_key(id),
        history[i][id] is Cancelled,
    ensures
        history[j].contains_key(id),
        history[j][id] is Cancelled,
{
    lemma_observations_monotone(history, id, i, j);
}

/// A completion that comes after a cancellation is discarded: the tasks are as
/// the cancellation left them.
pub proof fn lemma_complete_after_cancel_discarded(
    m: Map<u32, TaskState>,
    id: u32,
    data: Seq<char>,
)
    ensures
        completed(cancelled(m, id), id, data) == cancelled(m, id),
        m.contains_key(id) ==> cancelled(m, id)[id] is Cancelled || cancelled(m, id)[id]
            is Completed,
{
}

/// Cancelling twice changes nothing more than cancelling once, and cancelling a
/// task that is finished or unknown changes nothing at all.
pub proof fn lemma_cancel_idempotent(m: Map<u32, TaskState>, id: u32)
    ensures
        cancelled(cancelled(m, id), id) == cancelled(m, id),
        !m.contains_key(id) ==> cancelled(m, id) == m,
        m.contains_key(id) && is_terminal(m[id]) ==> cancelled(m, id) == m,
{
}

} // verus!
