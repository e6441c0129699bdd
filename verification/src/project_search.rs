//! Project search bookkeeping: keyboard movement through the result list,
//! cancellation by request generation, and the one-at-a-time job slots that
//! keep only the newest waiting search.
use vstd::prelude::*;
use std::sync::atomic::AtomicU64;
use std::sync::atomic::Ordering;
use crate::startup_requests::{next_request_id_spec, next_startup_task_request_id};

verus! {

/// The selection after clamping it into `0..len` (0 for an empty list).
pub open spec fn clamped_selection(selection: usize, len: usize) -> int {
    if len == 0 {
        0
    } else if selection >= len {
        len - 1
    } else {
        selection as int
    }
}

/// The selection after a keyboard move by `direction`: clamped first, then
/// moved and wrapped around the list; an empty list keeps 0.
pub open spec fn moved_selection(selection: usize, len: usize, direction: isize) -> int {
    if len == 0 {
        0
    } else {
        (clamped_selection(selection, len) + direction) % (len as int)
    }
}

/// Moves the selection by `direction` rows, wrapping at both ends, after
/// clamping a selection that points past the list.
pub fn move_project_search_selection(selection: &mut usize, len: usize, direction: isize)
    ensures
        *final(selection) == moved_selection(*old(selection), len, direction),
        len > 0 ==> *final(selection) < len,
{
    if len == 0 {
        *selection = 0;
        return;
    }
    let current: usize = if *selection >= len { len - 1 } else { *selection };
    let n: u128 = len as u128;
    let c: u128 = current as u128;
    let moved: u128 = if direction >= 0 {
        let step: u128 = (direction as u128) % n;
        proof {
            vstd::arithmetic::div_mod::lemma_add_mod_noop_right(c as int, direction as int, n as int);
        }
        (c + step) % n
    } else {
        let magnitude: u128 = (-(direction as i128)) as u128;
        let step: u128 = magnitude % n;
        proof {
            vstd::arithmetic::div_mod::lemma_sub_mod_noop_right(c as int, magnitude as int, n as int);
            vstd::arithmetic::div_mod::lemma_mod_add_multiples_vanish(c as int - step as int, n as int);
            assert(n as int + (c as int - step as int) == c as int + n as int - step as int);
        }
        (c + n - step) % n
    };
    *selection = moved as usize;
}

/// A keyboard move is undone by the opposite move: moving by `direction`
/// and then by `-direction` lands on the clamped starting row.
pub proof fn lemma_opposite_moves_cancel(selection: usize, len: usize, direction: isize)
    requires
        len > 0,
        direction > isize::MIN,
    ensures
        moved_selection(moved_selection(selection, len, direction) as usize, len, (-direction) as isize)
            == clamped_selection(selection, len),
{
    let n = len as int;
    let c = clamped_selection(selection, len);
    let d = direction as int;
    let a = (c + d) % n;
    vstd::arithmetic::div_mod::lemma_mod_bound(c + d, n);
    assert(clamped_selection(a as usize, len) == a);
    vstd::arithmetic::div_mod::lemma_add_mod_noop(c + d, -d, n);
    vstd::arithmetic::div_mod::lemma_add_mod_noop_right(a, -d, n);
    vstd::arithmetic::div_mod::lemma_small_mod(c as nat, n as nat);
    assert(c + d + (-d) == c);
}

/// A search request is stale once the shared generation moved past it.
pub fn request_generation_cancelled(current_generation: u64, request_id: u64) -> (cancelled: bool)
    ensures
        cancelled == (current_generation != request_id),
{
    current_generation != request_id
}

/// Reads the shared cancellation generation and compares it with
/// `request_id`. The generation is written by the UI thread, so nothing is
/// promised of the value read here.
pub fn project_search_request_is_cancelled(cancel_generation: &AtomicU64, request_id: u64) -> (cancelled: bool)
{
    let current = cancel_generation.load(Ordering::Relaxed);
    request_generation_cancelled(current, request_id)
}

/// Outcome of asking for the search slot.
#[derive(Debug, Clone, Copy, PartialEq, Eq)]
pub enum ProjectSearchJobStep {
    Active,
    Pending,
}

/// One running search and at most one waiting search.
#[derive(Debug, Clone, Copy, PartialEq, Eq)]
pub struct ProjectSearchJobSlots {
    pub active: Option<u64>,
    pub pending: Option<u64>,
}

impl ProjectSearchJobSlots {
    /// The running and the waiting request are never the same one.
    pub open spec fn wf(&self) -> bool {
        self.active is Some && self.pending is Some ==> self.active != self.pending
    }

    /// No search running or waiting.
    pub fn empty() -> (slots: Self)
        ensures
            slots.active is None,
            slots.pending is None,
            slots.wf(),
    {
        ProjectSearchJobSlots { active: None, pending: None }
    }

    /// `request_id` asks for the slot: it runs when it already holds the slot
    /// or the slot is free (leaving the waiting place if it held it);
    /// otherwise it replaces whichever request was waiting.
    pub fn step(&mut self, request_id: u64) -> (step: ProjectSearchJobStep)
        ensures
            match old(self).active {
                Some(active) => if active == request_id {
                    step == ProjectSearchJobStep::Active && *final(self) == *old(self)
                } else {
                    step == ProjectSearchJobStep::Pending && final(self).active == old(self).active
                        && final(self).pending == Some(request_id)
                },
                None => {
                    &&& step == ProjectSearchJobStep::Active
                    &&& final(self).active == Some(request_id)
                    &&& final(self).pending == (if old(self).pending == Some(request_id) {
                        None
                    } else {
                        old(self).pending
                    })
                },
            },
            old(self).wf() ==> final(self).wf(),
    {
        match self.active {
            Some(active) => {
                if active == request_id {
                    ProjectSearchJobStep::Active
                } else {
                    self.pending = Some(request_id);
                    ProjectSearchJobStep::Pending
                }
            },
            None => {
                if self.pending == Some(request_id) {
                    self.pending = None;
                }
                self.active = Some(request_id);
                ProjectSearchJobStep::Active
            },
        }
    }

    /// `request_id` gives up whatever place it holds.
    pub fn release(&mut self, request_id: u64)
        ensures
            final(self).active == (if old(self).active == Some(request_id) { None } else { old(self).active }),
            final(self).pending == (if old(self).pending == Some(request_id) { None } else { old(self).pending }),
            old(self).wf() ==> final(self).wf(),
    {
        if self.active == Some(request_id) {
            self.active = None;
        }
        if self.pending == Some(request_id) {
            self.pending = None;
        }
    }
}

/// Only the newest waiting request keeps its place: after two requests wait
/// behind a running one, the older of them holds no place, and it cannot run
/// before the running search releases the slot.
pub proof fn lemma_only_latest_pending_request_is_kept(
    slots: ProjectSearchJobSlots,
    older: u64,
    newer: u64,
)
    requires
        slots.active is Some,
        slots.active != Some(older),
        slots.active != Some(newer),
        older != newer,
    ensures
        ({
            let after_older = ProjectSearchJobSlots { active: slots.active, pending: Some(older) };
            let after_newer = ProjectSearchJobSlots { active: after_older.active, pending: Some(newer) };
            after_newer.active != Some(older) && after_newer.pending != Some(older)
        }),
{
}

/// What a search worker does after asking for the slot.
#[derive(Debug, Clone, Copy, PartialEq, Eq)]
pub enum ProjectSearchAdmission {
    /// The request holds the slot: run the search, then release it.
    Run,
    /// The request was superseded: it gave up its place; skip the search.
    Cancelled,
    /// Another search runs: wait for the slot to change and ask again.
    Wait,
}

/// What one round of admission does to the slots and answers.
pub open spec fn admission_post(
    before: ProjectSearchJobSlots,
    after: ProjectSearchJobSlots,
    cancelled: bool,
    request_id: u64,
    admission: ProjectSearchAdmission,
) -> bool {
    if cancelled {
        &&& admission == ProjectSearchAdmission::Cancelled
        &&& after.active == (if before.active == Some(request_id) { None } else { before.active })
        &&& after.pending == (if before.pending == Some(request_id) { None } else { before.pending })
    } else {
        &&& (admission == ProjectSearchAdmission::Run <==> (before.active is None || before.active == Some(request_id)))
        &&& admission != ProjectSearchAdmission::Cancelled
        &&& (admission == ProjectSearchAdmission::Run ==> after.active == Some(request_id))
        &&& (admission == ProjectSearchAdmission::Wait ==> after.pending == Some(request_id) && after.active == before.active)
    }
}

/// One round of admission for `request_id` given whether its generation is
/// stale: a stale request releases its place and is cancelled; otherwise it
/// takes a step and runs or waits.
pub fn project_search_job_admission_step(
    slots: &mut ProjectSearchJobSlots,
    cancelled: bool,
    request_id: u64,
) -> (admission: ProjectSearchAdmission)
    ensures
        admission_post(*old(slots), *final(slots), cancelled, request_id, admission),
        old(slots).wf() ==> final(slots).wf(),
{
    if cancelled {
        slots.release(request_id);
        return ProjectSearchAdmission::Cancelled;
    }
    match slots.step(request_id) {
        ProjectSearchJobStep::Active => ProjectSearchAdmission::Run,
        ProjectSearchJobStep::Pending => ProjectSearchAdmission::Wait,
    }
}


/// One round of admission for `request_id` against the shared cancellation
/// generation (see `project_search_job_admission_step`); the generation is
/// written by the UI thread, so the round is one of the two outcomes.
pub fn project_search_job_admission(
    slots: &mut ProjectSearchJobSlots,
    cancel_generation: &AtomicU64,
    request_id: u64,
) -> (admission: ProjectSearchAdmission)
    ensures
        exists|cancelled: bool| #[trigger] admission_post(*old(slots), *final(slots), cancelled, request_id, admission),
        old(slots).wf() ==> final(slots).wf(),
{
    let cancelled = project_search_request_is_cancelled(cancel_generation, request_id);
    let admission = project_search_job_admission_step(slots, cancelled, request_id);
    assert(admission_post(*old(slots), *slots, cancelled, request_id, admission));
    admission
}

/// A finished or abandoned search gives up its place.
pub fn release_project_search_job_slot(slots: &mut ProjectSearchJobSlots, request_id: u64)
    ensures
        final(slots).active == (if old(slots).active == Some(request_id) { None } else { old(slots).active }),
        final(slots).pending == (if old(slots).pending == Some(request_id) { None } else { old(slots).pending }),
        old(slots).wf() ==> final(slots).wf(),
{
    slots.release(request_id);
}

/// Project search ids count up and skip zero when they wrap.
pub fn next_project_search_request_id(current: u64) -> (next: u64)
    ensures
        next == next_request_id_spec(current),
        next != 0,
{
    next_startup_task_request_id(current)
}

} // verus!
