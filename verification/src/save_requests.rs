//! Per-buffer save requests: at most one save of a buffer in flight, the
//! latest requested path queued behind it, and completions of saves that are
//! no longer current ignored.
use vstd::prelude::*;
use vstd::string::*;
use std::collections::{HashMap, HashSet};

verus! {

broadcast use vstd::std_specs::hash::group_hash_axioms;

/// What a save request turned into.
#[derive(Debug, Clone, Copy, PartialEq, Eq)]
pub enum SaveRequest {
    /// No save of the buffer was running: start one now.
    Spawn,
    /// A save is running: the path waits behind it.
    Queued,
}

/// How a finished save related to the bookkeeping.
#[derive(Debug, Clone, PartialEq, Eq)]
pub enum FinishedSaveRequest {
    /// The save was the buffer's current one; a path queued behind it, if
    /// any, is handed back to be saved next.
    Current { queued_path: Option<String> },
    /// No save of the buffer was in flight: the completion is ignored.
    Stale,
}

/// What `reserve_save_request` does, over the sets and maps before and after.
pub open spec fn reserve_save_post(
    in_flight: Set<u64>,
    queued: Map<u64, String>,
    id: u64,
    path: Seq<char>,
    new_in_flight: Set<u64>,
    new_queued: Map<u64, String>,
    request: SaveRequest,
) -> bool {
    &&& new_in_flight == in_flight.insert(id)
    &&& request == (if in_flight.contains(id) { SaveRequest::Queued } else { SaveRequest::Spawn })
    &&& !in_flight.contains(id) ==> new_queued == queued.remove(id)
    &&& in_flight.contains(id) ==> {
        &&& new_queued.contains_key(id)
        &&& new_queued[id]@ == path
        &&& new_queued == queued.insert(id, new_queued[id])
    }
}

/// What `finish_current_save_request` does, over the sets and maps before and
/// after.
pub open spec fn finish_save_post(
    in_flight: Set<u64>,
    queued: Map<u64, String>,
    id: u64,
    new_in_flight: Set<u64>,
    new_queued: Map<u64, String>,
    finished: FinishedSaveRequest,
) -> bool {
    if in_flight.contains(id) {
        &&& new_in_flight == in_flight.remove(id)
        &&& new_queued == queued.remove(id)
        &&& finished matches FinishedSaveRequest::Current { queued_path }
        &&& queued_path == (if queued.contains_key(id) { Some(queued[id]) } else { None })
    } else {
        &&& new_in_flight == in_flight
        &&& new_queued == queued
        &&& finished == FinishedSaveRequest::Stale
    }
}

/// Requests a save of buffer `id` to `path`. When no save of the buffer is in
/// flight it is marked in flight and any path left queued for it is dropped
/// (`Spawn`); otherwise `path` becomes the buffer's queued path (`Queued`).
pub fn reserve_save_request(
    id: u64,
    path: &str,
    in_flight_saves: &mut HashSet<u64>,
    queued_save_paths: &mut HashMap<u64, String>,
) -> (request: SaveRequest)
    ensures
        reserve_save_post(
            old(in_flight_saves)@,
            old(queued_save_paths)@,
            id,
            path@,
            final(in_flight_saves)@,
            final(queued_save_paths)@,
            request,
        ),
{
    if in_flight_saves.insert(id) {
        queued_save_paths.remove(&id);
        SaveRequest::Spawn
    } else {
        queued_save_paths.insert(id, String::from_str(path));
        SaveRequest::Queued
    }
}

/// Whether buffer `id` has save work pending: a save in flight, a queued
/// path, or a format-on-save that has not finished.
pub fn has_active_save_work<T>(
    id: u64,
    in_flight_saves: &HashSet<u64>,
    queued_save_paths: &HashMap<u64, String>,
    pending_format_on_save: &HashMap<u64, T>,
) -> (active: bool)
    ensures
        active == (in_flight_saves@.contains(id) || queued_save_paths@.contains_key(id)
            || pending_format_on_save@.contains_key(id)),
{
    in_flight_saves.contains(&id) || queued_save_paths.contains_key(&id)
        || pending_format_on_save.contains_key(&id)
}

/// Records that a save of buffer `id` finished. When one was in flight it is
/// cleared and the path queued behind it, if any, is taken and returned;
/// otherwise the completion is stale and nothing changes.
pub fn finish_current_save_request(
    id: u64,
    in_flight_saves: &mut HashSet<u64>,
    queued_save_paths: &mut HashMap<u64, String>,
) -> (finished: FinishedSaveRequest)
    ensures
        finish_save_post(
            old(in_flight_saves)@,
            old(queued_save_paths)@,
            id,
            final(in_flight_saves)@,
            final(queued_save_paths)@,
            finished,
        ),
{
    if !in_flight_saves.remove(&id) {
        assert(in_flight_saves@ =~= old(in_flight_saves)@);
        return FinishedSaveRequest::Stale;
    }
    FinishedSaveRequest::Current { queued_path: queued_save_paths.remove(&id) }
}

/// `finish_current_save_request`, reduced to the path to save next.
pub fn finish_save_request(
    id: u64,
    in_flight_saves: &mut HashSet<u64>,
    queued_save_paths: &mut HashMap<u64, String>,
) -> (next: Option<String>)
    ensures
        finish_save_post(
            old(in_flight_saves)@,
            old(queued_save_paths)@,
            id,
            final(in_flight_saves)@,
            final(queued_save_paths)@,
            match next {
                Some(p) => FinishedSaveRequest::Current { queued_path: Some(p) },
                None => if old(in_flight_saves)@.contains(id) {
                    FinishedSaveRequest::Current { queued_path: None }
                } else {
                    FinishedSaveRequest::Stale
                },
            },
        ),
        next == (if old(in_flight_saves)@.contains(id) && old(queued_save_paths)@.contains_key(id) {
            Some(old(queued_save_paths)@[id])
        } else {
            None
        }),
{
    match finish_current_save_request(id, in_flight_saves, queued_save_paths) {
        FinishedSaveRequest::Current { queued_path } => queued_path,
        FinishedSaveRequest::Stale => None,
    }
}

/// A save requested while another save of the same buffer runs is not lost:
/// when the running save finishes, the latest requested path is handed back
/// to be saved next, and nothing stays in flight or queued for the buffer.
pub proof fn lemma_queued_save_is_handed_back(
    in_flight: Set<u64>,
    queued: Map<u64, String>,
    id: u64,
    path: Seq<char>,
    mid_in_flight: Set<u64>,
    mid_queued: Map<u64, String>,
    request: SaveRequest,
    end_in_flight: Set<u64>,
    end_queued: Map<u64, String>,
    finished: FinishedSaveRequest,
)
    requires
        in_flight.contains(id),
        reserve_save_post(in_flight, queued, id, path, mid_in_flight, mid_queued, request),
        finish_save_post(mid_in_flight, mid_queued, id, end_in_flight, end_queued, finished),
    ensures
        request == SaveRequest::Queued,
        finished matches FinishedSaveRequest::Current { queued_path } && queued_path matches Some(p)
            && p@ == path,
        !end_in_flight.contains(id),
        !end_queued.contains_key(id),
{
}

/// A completion for a buffer with no save in flight changes nothing, so it
/// cannot drop the path another save of the buffer queued.
pub proof fn lemma_stale_completion_keeps_queue(
    in_flight: Set<u64>,
    queued: Map<u64, String>,
    id: u64,
    end_in_flight: Set<u64>,
    end_queued: Map<u64, String>,
    finished: FinishedSaveRequest,
)
    requires
        !in_flight.contains(id),
        finish_save_post(in_flight, queued, id, end_in_flight, end_queued, finished),
    ensures
        finished == FinishedSaveRequest::Stale,
        end_in_flight == in_flight,
        end_queued == queued,
{
}

} // verus!
