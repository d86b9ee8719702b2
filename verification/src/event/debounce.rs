use vstd::prelude::*;

verus! {

/// Numbers the tasks handed to a debouncer: each new task gets the next
/// version, so a task can tell whether it is still the latest one.
#[derive(Debug, Clone, Copy, PartialEq, Eq, Structural)]
pub struct VersionCounter {
    next_version: u32,
}

impl VersionCounter {
    pub closed spec fn next_spec(self) -> u32 {
        self.next_version
    }

    /// The version of the latest task: one before the next version, wrapping
    /// around below zero.
    pub open spec fn current_spec(self) -> u32 {
        vstd::wrapping::u32_specs::wrapping_sub(self.next_spec(), 1)
    }

    /// A counter whose first task gets version 0.
    pub fn new() -> (r: Self)
        ensures
            r.next_spec() == 0,
    {
        VersionCounter { next_version: 0 }
    }

    /// The version of the latest task (`u32::MAX` before any task).
    pub fn version(&self) -> (r: u32)
        ensures
            r == self.current_spec(),
    {
        self.next_version.wrapping_sub(1)
    }

    /// The version the next task will get.
    pub fn next_version(&self) -> (r: u32)
        ensures
            r == self.next_spec(),
    {
        self.next_version
    }

    /// Hands out the version of a new task and moves on, wrapping around
    /// after `u32::MAX`.
    pub fn begin(&mut self) -> (r: u32)
        ensures
            r == old(self).next_spec(),
            final(self).next_spec() == vstd::wrapping::u32_specs::wrapping_add(r, 1),
    {
        let version = self.next_version;
        self.next_version = version.wrapping_add(1);
        version
    }
}

/// The version handed to a new task is the one the counter reports as the
/// latest afterwards, and successive tasks get successive versions.
pub proof fn lemma_begin_makes_latest(before: VersionCounter, after: VersionCounter, handed: u32)
    requires
        handed == before.next_spec(),
        after.next_spec() == vstd::wrapping::u32_specs::wrapping_add(handed, 1),
    ensures
        after.current_spec() == handed,
        handed < u32::MAX ==> after.next_spec() == handed + 1,
        handed == u32::MAX ==> after.next_spec() == 0,
{
}

/// The task a debouncer is waiting to run: each new task replaces the one
/// before it, and only the one left when the quiet period ends runs.
#[derive(Debug)]
pub struct DebounceSlot<T> {
    pending: Option<T>,
}

impl<T> DebounceSlot<T> {
    pub closed spec fn pending_spec(self) -> Option<T> {
        self.pending
    }

    /// A slot with no task.
    pub fn new() -> (r: Self)
        ensures
            r.pending_spec() is None,
    {
        DebounceSlot { pending: None }
    }

    /// Whether a task is waiting.
    pub fn is_waiting(&self) -> (r: bool)
        ensures
            r == self.pending_spec() is Some,
    {
        self.pending.is_some()
    }

    /// A new task arrives: it replaces the waiting one, which is dropped.
    pub fn offer(&mut self, task: T)
        ensures
            final(self).pending_spec() == offered(old(self).pending_spec(), task),
    {
        self.pending = Some(task);
    }

    /// The quiet period ended: the waiting task, if any, is taken out to run.
    pub fn take_due(&mut self) -> (r: Option<T>)
        ensures
            r == old(self).pending_spec(),
            final(self).pending_spec() is None,
    {
        self.pending.take()
    }
}

/// What a slot holds after the tasks `tasks` were offered in order to a slot
/// holding `pending` (each offer as [`DebounceSlot::offer`] states it).
pub open spec fn offer_all<T>(pending: Option<T>, tasks: Seq<T>) -> Option<T>
    decreases tasks.len(),
{
    if tasks.len() == 0 {
        pending
    } else {
        offered(offer_all(pending, tasks.drop_last()), tasks.last())
    }
}

/// What a slot holds after `task` was offered to a slot holding `pending`.
pub open spec fn offered<T>(pending: Option<T>, task: T) -> Option<T> {
    Some(task)
}

/// The next version of a counter after `k` tasks began, starting from `next`
/// (each as [`VersionCounter::begin`] states it).
pub open spec fn next_after(next: u32, k: nat) -> u32
    decreases k,
{
    if k == 0 {
        next
    } else {
        vstd::wrapping::u32_specs::wrapping_add(next_after(next, (k - 1) as nat), 1)
    }
}

/// Of a burst of tasks offered within one quiet period, only the last is left
/// to run when the period ends; the tasks before it are dropped without being
/// handed out. The last task's version is the one the counter reports as the
/// latest, so each earlier task can tell that it is stale.
pub proof fn lemma_burst_runs_last<T>(pending: Option<T>, tasks: Seq<T>, first_version: u32)
    requires
        tasks.len() > 0,
    ensures
        offer_all(pending, tasks) == Some(tasks.last()),
        vstd::wrapping::u32_specs::wrapping_sub(next_after(first_version, tasks.len()), 1)
            == next_after(first_version, (tasks.len() - 1) as nat),
{
    let k = (tasks.len() - 1) as nat;
    let v = next_after(first_version, k);
    assert(next_after(first_version, tasks.len()) == vstd::wrapping::u32_specs::wrapping_add(v, 1));
}

} // verus!
