use vstd::prelude::*;

use std::collections::HashMap;

use futures::future::{AbortHandle, AbortRegistration};

use crate::task::{cancelled, completed, evolves, registered, Task, TaskState};

verus! {

broadcast use vstd::std_specs::hash::group_hash_axioms;

/// The largest identifier the counter can hand out is one below this bound.
pub const ID_LIMIT: u32 = 4294967295;

/// The task registry: a counter for identifiers and the state of every task.
///
/// Every operation takes `&mut self` or `&self`, so a registry shared between
/// callers is put behind a lock, which makes each operation atomic with
/// respect to the others.
pub struct Daemon {
    next_id: u32,
    tasks: HashMap<u32, Task>,
}

impl View for Daemon {
    type V = Map<u32, TaskState>;

    closed spec fn view(&self) -> Map<u32, TaskState> {
        self.tasks@.map_values(|t: Task| t@)
    }
}

impl Daemon {
    /// The identifier that the next allocation hands out.
    pub closed spec fn next_id(&self) -> nat {
        self.next_id as nat
    }

    /// Every registered task has an identifier that was allocated before.
    pub closed spec fn wf(&self) -> bool {
        forall|id: u32| #[trigger] self.tasks@.contains_key(id) ==> id < self.next_id
    }

    /// A fresh registry: no task, and the counter at zero.
    pub fn new() -> (r: Daemon)
        ensures
            r.wf(),
            r@ == Map::<u32, TaskState>::empty(),
            r.next_id() == 0,
    {
        let r = Daemon { next_id: 0, tasks: HashMap::new() };
        assert(r@ =~= Map::<u32, TaskState>::empty());
        r
    }

    /// Whether the counter has run out of identifiers.
    pub fn ids_exhausted(&self) -> (r: bool)
        ensures
            r == (self.next_id() >= ID_LIMIT),
    {
        self.next_id >= ID_LIMIT
    }

    /// Takes the next identifier from the counter; no two calls return the same one.
    pub fn allocate(&mut self) -> (id: u32)
        requires
            old(self).wf(),
            old(self).next_id() < ID_LIMIT,
        ensures
            final(self).wf(),
            allocates(old(self).next_id(), final(self).next_id(), id),
            final(self)@ == old(self)@,
            evolves(old(self)@, final(self)@),
            !old(self)@.contains_key(id),
    {
        let id = self.next_id;
        self.next_id = self.next_id + 1;
        id
    }

    /// Records a freshly allocated task as in progress, holding its handle.
    pub fn register(&mut self, id: u32, abort_handle: AbortHandle)
        requires
            old(self).wf(),
            id < old(self).next_id(),
            !old(self)@.contains_key(id),
        ensures
            final(self).wf(),
            final(self).next_id() == old(self).next_id(),
            final(self)@ == registered(old(self)@, id),
            evolves(old(self)@, final(self)@),
    {
        self.tasks.insert(id, Task::InProgress { abort_handle: Some(abort_handle) });
        assert(self@ =~= registered(old(self)@, id));
    }

    /// Creates a task: allocates its identifier, makes its cancellation handle
    /// and registers it as in progress, in one step. Returns the identifier and
    /// the registration that the work is to be run under, or `None` when the
    /// counter has run out.
    pub fn new_task(&mut self) -> (r: Option<(u32, AbortRegistration)>)
        requires
            old(self).wf(),
        ensures
            final(self).wf(),
            old(self).next_id() >= ID_LIMIT ==> r is None && *final(self) == *old(self),
            old(self).next_id() < ID_LIMIT ==> {
                &&& r is Some
                &&& (r->0).0 == old(self).next_id()
                &&& !old(self)@.contains_key((r->0).0)
                &&& final(self).next_id() == old(self).next_id() + 1
                &&& final(self)@ == registered(old(self)@, (r->0).0)
            },
            evolves(old(self)@, final(self)@),
    {
        if self.ids_exhausted() {
            return None;
        }
        let id = self.allocate();
        let (abort_handle, registration) = AbortHandle::new_pair();
        self.register(id, abort_handle);
        Some((id, registration))
    }

    /// Records the outcome of a task. Only an in-progress task takes it: after a
    /// cancellation the late result is discarded, a completed task keeps its
    /// first result, and an unknown identifier changes nothing.
    pub fn set_task_completed(&mut self, id: u32, data: String)
        requires
            old(self).wf(),
        ensures
            final(self).wf(),
            final(self).next_id() == old(self).next_id(),
            final(self)@ == completed(old(self)@, id, data@),
            evolves(old(self)@, final(self)@),
    {
        let in_progress = match self.tasks.get(&id) {
            Some(t) => t.is_in_progress(),
            None => false,
        };
        if in_progress {
            self.tasks.insert(id, Task::Completed { data });
            assert(self@ =~= completed(old(self)@, id, data@));
        }
    }

    /// Cancels a task that is in progress: signals its handle and marks it
    /// cancelled. An unknown identifier or a finished task is left as it is.
    pub fn cancel_task(&mut self, id: u32)
        requires
            old(self).wf(),
        ensures
            final(self).wf(),
            final(self).next_id() == old(self).next_id(),
            final(self)@ == cancelled(old(self)@, id),
            evolves(old(self)@, final(self)@),
    {
        let in_progress = match self.tasks.get(&id) {
            Some(t) => {
                if let Task::InProgress { abort_handle } = t {
                    if let Some(h) = abort_handle {
                        h.abort();
                    }
                    true
                } else {
                    false
                }
            },
            None => false,
        };
        if in_progress {
            self.tasks.insert(id, Task::Cancelled);
            assert(self@ =~= cancelled(old(self)@, id));
        }
    }

    /// The current state of a task, or `None` for an unknown identifier.
    pub fn get_task(&self, id: u32) -> (r: Option<Task>)
        ensures
            r is None <==> !self@.contains_key(id),
            r matches Some(t) ==> t@ == self@[id],
    {
        match self.tasks.get(&id) {
            Some(t) => Some(t.snapshot()),
            None => None,
        }
    }
}

/// `id` was handed out by an allocation that moved the counter from `pre` to `post`.
pub open spec fn allocates(pre: nat, post: nat, id: u32) -> bool {
    id == pre && post == pre + 1
}

/// The counter's value never decreases along a run of registry operations.
pub open spec fn counter_never_decreases(counters: Seq<nat>) -> bool {
    forall|k: int| 0 <= k < counters.len() - 1 ==> #[trigger] counters[k] <= counters[k + 1]
}

proof fn lemma_counter_ordered(counters: Seq<nat>, i: int, j: int)
    requires
        counter_never_decreases(counters),
        0 <= i <= j < counters.len(),
    ensures
        counters[i] <= counters[j],
    decreases j - i,
{
    if i < j {
        lemma_counter_ordered(counters, i, j - 1);
        assert(counters[j - 1] <= counters[j]);
    }
}

/// Identifiers handed out by allocations at distinct steps of a run of registry
/// operations are pairwise distinct. Callers that share the registry behind a
/// lock are ordered into one such run, so concurrent allocations never collide.
pub proof fn lemma_allocated_ids_distinct(counters: Seq<nat>, steps: Seq<int>, ids: Seq<u32>)
    requires
        counter_never_decreases(counters),
        steps.len() == ids.len(),
        forall|a: int| 0 <= a < steps.len() ==> 0 <= #[trigger] steps[a] < counters.len() - 1,
        forall|a: int|
            0 <= a < steps.len() ==> allocates(
                counters[#[trigger] steps[a]],
                counters[steps[a] + 1],
                ids[a],
            ),
        forall|a: int, b: int| 0 <= a < b < steps.len() ==> steps[a] != steps[b],
    ensures
        forall|a: int, b: int| 0 <= a < b < ids.len() ==> ids[a] != ids[b],
{
    assert forall|a: int, b: int| 0 <= a < b < ids.len() implies ids[a] != ids[b] by {
        let (x, y) = if steps[a] < steps[b] { (a, b) } else { (b, a) };
        assert(allocates(counters[steps[x]], counters[steps[x] + 1], ids[x]));
        assert(allocates(counters[steps[y]], counters[steps[y] + 1], ids[y]));
        lemma_counter_ordered(counters, steps[x] + 1, steps[y]);
    }
}

} // verus!
