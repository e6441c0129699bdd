//! Debounce and back-off timing. Instants are monotonic milliseconds and
//! durations are milliseconds.
use vstd::prelude::*;

verus! {

pub const WORKSPACE_PLUGIN_RELOAD_DEBOUNCE: u64 = 250;
pub const WORKSPACE_PLUGIN_RELOAD_MAX_WAIT: u64 = 2000;
pub const WORKSPACE_REFRESH_DEBOUNCE: u64 = 250;
pub const WORKSPACE_REFRESH_MAX_WAIT: u64 = 2000;
pub const QUICK_OPEN_RANK_DEBOUNCE: u64 = 150;
pub const WATCHER_REBUILD_INITIAL_BACKOFF: u64 = 1000;
pub const WATCHER_REBUILD_MAX_BACKOFF: u64 = 30000;
pub const WATCHER_REBUILD_MAX_DOUBLING_SHIFT: u32 = 5;

/// Time from `earlier` to `now`, or zero when `now` is not later.
pub open spec fn elapsed_since(now: u64, earlier: u64) -> u64 {
    if now >= earlier {
        (now - earlier) as u64
    } else {
        0
    }
}

/// `Instant::saturating_duration_since` over milliseconds.
pub fn saturating_duration_since(now: u64, earlier: u64) -> (elapsed: u64)
    ensures
        elapsed == elapsed_since(now, earlier),
{
    if now >= earlier {
        now - earlier
    } else {
        0
    }
}

/// A workspace refresh waiting for its debounce window, with the project
/// paths reported so far.
#[derive(Debug, Clone, PartialEq, Eq)]
pub struct PendingWorkspaceRefresh {
    pub first_seen: u64,
    pub last_seen: u64,
    pub project_paths: Vec<String>,
}

impl PendingWorkspaceRefresh {
    /// A refresh first requested at `now`, with no project paths yet.
    pub fn new(now: u64) -> (pending: Self)
        ensures
            pending.first_seen == now,
            pending.last_seen == now,
            pending.project_paths@.len() == 0,
    {
        PendingWorkspaceRefresh { first_seen: now, last_seen: now, project_paths: Vec::new() }
    }

    /// Notes another request at `now`; the first request time is kept.
    pub fn record_change(&mut self, now: u64)
        ensures
            final(self).last_seen == now,
            final(self).first_seen == old(self).first_seen,
            final(self).project_paths == old(self).project_paths,
    {
        self.last_seen = now;
    }

    /// Appends the reported project paths.
    pub fn record_project_paths(&mut self, paths: Vec<String>)
        ensures
            final(self).project_paths@ == old(self).project_paths@ + paths@,
            final(self).first_seen == old(self).first_seen,
            final(self).last_seen == old(self).last_seen,
    {
        let mut paths = paths;
        self.project_paths.append(&mut paths);
    }
}

/// A workspace plugin reload waiting for its debounce window.
#[derive(Debug, Clone, Copy, PartialEq, Eq)]
pub struct PendingWorkspacePluginReload {
    pub first_seen: u64,
    pub last_seen: u64,
}

impl PendingWorkspacePluginReload {
    /// A reload first requested at `now`.
    pub fn new(now: u64) -> (pending: Self)
        ensures
            pending.first_seen == now,
            pending.last_seen == now,
    {
        PendingWorkspacePluginReload { first_seen: now, last_seen: now }
    }

    /// Notes another request at `now`; the first request time is kept.
    pub fn record_change(&mut self, now: u64)
        ensures
            final(self).last_seen == now,
            final(self).first_seen == old(self).first_seen,
    {
        self.last_seen = now;
    }
}

/// Due once `debounce` has passed since the last request or `max_wait` since
/// the first one.
pub open spec fn debounce_due(first_seen: u64, last_seen: u64, now: u64, debounce: u64, max_wait: u64) -> bool {
    elapsed_since(now, last_seen) >= debounce || elapsed_since(now, first_seen) >= max_wait
}

/// The earlier of `last_seen + debounce` and `first_seen + max_wait`.
pub open spec fn debounce_wakeup(first_seen: u64, last_seen: u64, debounce: u64, max_wait: u64) -> int {
    let a = last_seen + debounce;
    let b = first_seen + max_wait;
    if a <= b {
        a
    } else {
        b
    }
}

/// Whether a pending plugin reload is due at `now`; `None` is never due.
pub fn workspace_plugin_reload_due(
    pending: Option<PendingWorkspacePluginReload>,
    now: u64,
    debounce: u64,
    max_wait: u64,
) -> (due: bool)
    ensures
        due == (pending matches Some(p) && debounce_due(p.first_seen, p.last_seen, now, debounce, max_wait)),
{
    match pending {
        None => false,
        Some(pending) => {
            saturating_duration_since(now, pending.last_seen) >= debounce
                || saturating_duration_since(now, pending.first_seen) >= max_wait
        },
    }
}

/// When a pending workspace refresh becomes due.
pub fn pending_refresh_wakeup_at(pending: &PendingWorkspaceRefresh) -> (at: u64)
    requires
        pending.last_seen + WORKSPACE_REFRESH_DEBOUNCE <= u64::MAX,
        pending.first_seen + WORKSPACE_REFRESH_MAX_WAIT <= u64::MAX,
    ensures
        at == debounce_wakeup(pending.first_seen, pending.last_seen, WORKSPACE_REFRESH_DEBOUNCE,
            WORKSPACE_REFRESH_MAX_WAIT),
{
    let a = pending.last_seen + WORKSPACE_REFRESH_DEBOUNCE;
    let b = pending.first_seen + WORKSPACE_REFRESH_MAX_WAIT;
    if a <= b {
        a
    } else {
        b
    }
}

/// When a pending plugin reload becomes due; `None` when nothing is pending.
pub fn workspace_plugin_reload_wakeup_at(
    pending: Option<PendingWorkspacePluginReload>,
    debounce: u64,
    max_wait: u64,
) -> (at: Option<u64>)
    requires
        pending matches Some(p) ==> p.last_seen + debounce <= u64::MAX && p.first_seen + max_wait <= u64::MAX,
    ensures
        pending is None ==> at is None,
        pending matches Some(p) ==> at == Some(debounce_wakeup(p.first_seen, p.last_seen, debounce, max_wait) as u64),
{
    match pending {
        None => None,
        Some(pending) => {
            let a = pending.last_seen + debounce;
            let b = pending.first_seen + max_wait;
            if a <= b {
                Some(a)
            } else {
                Some(b)
            }
        },
    }
}

/// Whether a pending workspace refresh is due at `now`.
pub fn pending_refresh_is_due(pending: &PendingWorkspaceRefresh, now: u64) -> (due: bool)
    ensures
        due == debounce_due(pending.first_seen, pending.last_seen, now, WORKSPACE_REFRESH_DEBOUNCE,
            WORKSPACE_REFRESH_MAX_WAIT),
{
    saturating_duration_since(now, pending.last_seen) >= WORKSPACE_REFRESH_DEBOUNCE
        || saturating_duration_since(now, pending.first_seen) >= WORKSPACE_REFRESH_MAX_WAIT
}

/// Whether the quick-open debounce window has passed since the last edit.
pub fn ranking_due(last_change: u64, now: u64) -> (due: bool)
    ensures
        due == (elapsed_since(now, last_change) >= QUICK_OPEN_RANK_DEBOUNCE),
{
    saturating_duration_since(now, last_change) >= QUICK_OPEN_RANK_DEBOUNCE
}

/// The part of the quick-open debounce window still to wait, zero once due.
pub fn quick_open_rank_debounce_delay(last_change: u64, now: u64) -> (delay: u64)
    ensures
        delay == (if elapsed_since(now, last_change) >= QUICK_OPEN_RANK_DEBOUNCE {
            0
        } else {
            QUICK_OPEN_RANK_DEBOUNCE - elapsed_since(now, last_change)
        }),
{
    let elapsed = saturating_duration_since(now, last_change);
    if elapsed >= QUICK_OPEN_RANK_DEBOUNCE {
        0
    } else {
        QUICK_OPEN_RANK_DEBOUNCE - elapsed
    }
}

/// Back-off before the next watcher rebuild: one second doubled per failed
/// attempt (at most five doublings), capped at thirty seconds.
pub open spec fn watcher_backoff_spec(attempts: u32) -> u64 {
    let shift: u32 = if attempts < WATCHER_REBUILD_MAX_DOUBLING_SHIFT { attempts } else { WATCHER_REBUILD_MAX_DOUBLING_SHIFT };
    let factor: u64 = if shift == 0 { 1 } else if shift == 1 { 2 } else if shift == 2 { 4 } else if shift == 3 { 8 } else if shift == 4 { 16 } else { 32 };
    let d = WATCHER_REBUILD_INITIAL_BACKOFF * factor;
    if d < WATCHER_REBUILD_MAX_BACKOFF { d as u64 } else { WATCHER_REBUILD_MAX_BACKOFF }
}

/// Back-off in milliseconds before rebuilding a failed file watcher.
pub fn watcher_rebuild_backoff(attempts: u32) -> (delay: u64)
    ensures
        delay == watcher_backoff_spec(attempts),
        delay <= WATCHER_REBUILD_MAX_BACKOFF,
{
    let shift: u32 = if attempts < WATCHER_REBUILD_MAX_DOUBLING_SHIFT { attempts } else { WATCHER_REBUILD_MAX_DOUBLING_SHIFT };
    let factor: u64 = if shift == 0 { 1 } else if shift == 1 { 2 } else if shift == 2 { 4 } else if shift == 3 { 8 } else if shift == 4 { 16 } else { 32 };
    let d = WATCHER_REBUILD_INITIAL_BACKOFF * factor;
    if d < WATCHER_REBUILD_MAX_BACKOFF {
        d
    } else {
        WATCHER_REBUILD_MAX_BACKOFF
    }
}

/// A pending request becomes due no later than `max_wait` after it was first
/// requested, however often it is requested again.
pub proof fn lemma_max_wait_bounds_debounce(first_seen: u64, last_seen: u64, now: u64, debounce: u64, max_wait: u64)
    requires
        now >= first_seen + max_wait,
    ensures
        debounce_due(first_seen, last_seen, now, debounce, max_wait),
{
}

/// The wake-up time is never after the moment the request becomes due: at the
/// wake-up time the request is due.
pub proof fn lemma_wakeup_is_due(first_seen: u64, last_seen: u64, debounce: u64, max_wait: u64)
    requires
        first_seen <= last_seen,
        last_seen + debounce <= u64::MAX,
        first_seen + max_wait <= u64::MAX,
    ensures
        debounce_due(first_seen, last_seen, debounce_wakeup(first_seen, last_seen, debounce, max_wait) as u64,
            debounce, max_wait),
{
}

/// Before the wake-up time a request is not due.
pub proof fn lemma_not_due_before_wakeup(first_seen: u64, last_seen: u64, now: u64, debounce: u64, max_wait: u64)
    requires
        first_seen <= now,
        last_seen <= now,
        now < debounce_wakeup(first_seen, last_seen, debounce, max_wait),
    ensures
        !debounce_due(first_seen, last_seen, now, debounce, max_wait),
{
}

/// The back-off never shrinks as failed attempts accumulate.
pub proof fn lemma_watcher_backoff_monotonic(a: u32, b: u32)
    requires
        a <= b,
    ensures
        watcher_backoff_spec(a) <= watcher_backoff_spec(b),
{
}

/// Below the cap each failed attempt doubles the wait before the next one.
pub proof fn lemma_failed_rebuilds_double_the_wait(attempts: u32)
    requires
        attempts < 4,
    ensures
        watcher_backoff_spec((attempts + 1) as u32) == 2 * watcher_backoff_spec(attempts),
{
}

} // verus!
