//! What the editor does when a background session save reports back: the
//! bookkeeping it updates, and which save it starts or retries next. Starting
//! a save and building a session snapshot are left to the caller.
use vstd::prelude::*;
use crate::keyed::{keys_distinct, lookup};
use crate::labels::{label_spec, session_save_failure_status, DISPLAY_ERROR_LABEL_MAX_CHARS};
use crate::paths::{paths_match, paths_match_spec};
use crate::session_save::{
    failure_count, finish_session_save, finish_session_save_post, note_session_save_failed,
    note_session_save_succeeded, opt_view, SESSION_SAVE_MAX_RETRIES,
};

verus! {

/// The session-save bookkeeping: the save in flight, the latest session
/// queued per workspace root, the rotation order of queued roots, the
/// fingerprints of sessions being saved, and the failure counts.
pub struct SessionSaves<T> {
    pub in_flight: Option<String>,
    pub queued: Vec<(String, T)>,
    pub order: Vec<String>,
    pub fingerprints: Vec<(String, u64)>,
    pub failures: Vec<(String, u8)>,
}

impl<T> SessionSaves<T> {
    /// Each root has at most one entry in each keyed list.
    pub open spec fn wf(&self) -> bool {
        &&& keys_distinct(self.queued@)
        &&& keys_distinct(self.fingerprints@)
        &&& keys_distinct(self.failures@)
    }

    /// Nothing saved, queued or recorded yet.
    pub fn new() -> (saves: Self)
        ensures
            saves.wf(),
            saves.in_flight is None,
            saves.queued@.len() == 0,
            saves.order@.len() == 0,
            saves.fingerprints@.len() == 0,
            saves.failures@.len() == 0,
    {
        SessionSaves {
            in_flight: None,
            queued: Vec::new(),
            order: Vec::new(),
            fingerprints: Vec::new(),
            failures: Vec::new(),
        }
    }
}

/// What the caller must do after a save reported back.
pub struct SessionSaveFollowUp<T> {
    /// Start saving this session of this root; it is already in flight.
    pub spawn: Option<(String, T)>,
    /// The save that finished was the one in flight and nothing follows it:
    /// drop the snapshot and task kept for it.
    pub clear_in_flight: bool,
}

/// The finishing part shared by both events: the save of `root` is
/// completed as `finish_session_save` does.
pub open spec fn finish_follow_up_post<T>(
    root: Seq<char>,
    before: SessionSaves<T>,
    after: SessionSaves<T>,
    follow_up: SessionSaveFollowUp<T>,
) -> bool {
    &&& finish_session_save_post(
        root,
        before.in_flight,
        before.queued@,
        before.order@,
        after.in_flight,
        after.queued@,
        after.order@,
        follow_up.spawn,
    )
    &&& follow_up.clear_in_flight == (opt_view(before.in_flight) == Some(root) && follow_up.spawn is None)
}

/// Completes the save of `root` and says what follows: the next queued save
/// to start, or, when the finished save was in flight and nothing follows,
/// that its snapshot and task can go.
pub fn finish_session_save_and_start_next<T>(saves: &mut SessionSaves<T>, root: &str) -> (follow_up: SessionSaveFollowUp<T>)
    requires
        old(saves).wf(),
    ensures
        final(saves).wf(),
        finish_follow_up_post(root@, *old(saves), *final(saves), follow_up),
        final(saves).fingerprints == old(saves).fingerprints,
        final(saves).failures == old(saves).failures,
{
    let was_current = match &saves.in_flight {
        Some(r) => crate::text::str_equal(r.as_str(), root),
        None => false,
    };
    let next = finish_session_save(root, &mut saves.in_flight, &mut saves.queued, &mut saves.order);
    let clear_in_flight = next.is_none() && was_current;
    SessionSaveFollowUp { spawn: next, clear_in_flight }
}

/// A save of `root` succeeded: its failure record is cleared, the
/// fingerprint staged for it becomes the last saved fingerprint (when one
/// was staged), and the save is completed.
pub fn handle_session_saved_event<T>(
    saves: &mut SessionSaves<T>,
    last_saved_fingerprint: &mut Option<u64>,
    root: &str,
) -> (follow_up: SessionSaveFollowUp<T>)
    requires
        old(saves).wf(),
    ensures
        final(saves).wf(),
        *final(last_saved_fingerprint) == match lookup(old(saves).fingerprints@, root@) {
            Some(fingerprint) => Some(fingerprint),
            None => *old(last_saved_fingerprint),
        },
        forall|k: Seq<char>| #[trigger] lookup(final(saves).failures@, k)
            == (if k == root@ { None } else { lookup(old(saves).failures@, k) }),
        forall|k: Seq<char>| #[trigger] lookup(final(saves).fingerprints@, k)
            == (if k == root@ { None } else { lookup(old(saves).fingerprints@, k) }),
        finish_follow_up_post(root@, *old(saves), *final(saves), follow_up),
{
    if let Some(fingerprint) = note_session_save_succeeded(&mut saves.failures, &mut saves.fingerprints, root) {
        *last_saved_fingerprint = Some(fingerprint);
    }
    finish_session_save_and_start_next(saves, root)
}

/// What a failed save asks of the caller.
pub struct SessionSaveFailure<T> {
    pub follow_up: SessionSaveFollowUp<T>,
    /// Save the current workspace's session again (the retry budget allows
    /// it).
    pub retry_current: bool,
}

/// A save of `root` failed. When `root` is the current workspace, the status
/// reports the error and the last saved fingerprint is forgotten. The save is
/// completed either way; for the current workspace the failure is counted
/// against the retry budget, which says whether to save it again.
pub fn handle_session_save_failed_event<T>(
    saves: &mut SessionSaves<T>,
    status: &mut String,
    last_saved_fingerprint: &mut Option<u64>,
    workspace_root: &str,
    root: &str,
    error: &str,
) -> (failure: SessionSaveFailure<T>)
    requires
        old(saves).wf(),
    ensures
        final(saves).wf(),
        paths_match_spec(workspace_root@, root@) ==> {
            &&& final(status)@ == "Could not save session: "@
                + label_spec(error@, DISPLAY_ERROR_LABEL_MAX_CHARS as nat, "unknown error"@)
            &&& *final(last_saved_fingerprint) is None
            &&& failure.retry_current == (failure_count(old(saves).failures@, root@) < SESSION_SAVE_MAX_RETRIES)
            &&& forall|k: Seq<char>| #[trigger] lookup(final(saves).failures@, k) == (if k != root@ {
                lookup(old(saves).failures@, k)
            } else if failure.retry_current {
                Some((failure_count(old(saves).failures@, root@) + 1) as u8)
            } else {
                None
            })
        },
        !paths_match_spec(workspace_root@, root@) ==> {
            &&& *final(status) == *old(status)
            &&& *final(last_saved_fingerprint) == *old(last_saved_fingerprint)
            &&& !failure.retry_current
            &&& final(saves).failures == old(saves).failures
        },
        final(saves).fingerprints == old(saves).fingerprints,
        finish_follow_up_post(root@, *old(saves), *final(saves), failure.follow_up),
{
    let is_current_workspace = paths_match(workspace_root, root);
    if is_current_workspace {
        *status = session_save_failure_status(error);
        *last_saved_fingerprint = None;
    }
    let follow_up = finish_session_save_and_start_next(saves, root);
    let retry_current = is_current_workspace && note_session_save_failed(&mut saves.failures, root);
    SessionSaveFailure { follow_up, retry_current }
}

} // verus!
