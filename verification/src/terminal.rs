//! Terminal process helpers: how much pasted input reaches the process,
//! when the writer stops, and the failure label shown in the terminal.
use vstd::prelude::*;
use vstd::string::*;
use vstd::utf8::{encode_utf8_valid_utf8, is_char_boundary, is_char_boundary_start_end_of_seq};
use std::sync::atomic::AtomicBool;
use std::sync::atomic::Ordering;
use crate::labels::{
    failure_message_spec, label_spec, terminal_failure_label, terminal_failure_message,
    TERMINAL_FAILURE_LABEL_MAX_CHARS,
};
use crate::session_save::opt_view;
use crate::text::str_equal;

verus! {

/// Terminal output is forwarded to the UI in chunks of this many bytes.
pub const TERMINAL_EVENT_OUTPUT_CHUNK_BYTES: usize = 4096;
/// At most this many bytes of one input reach the process.
pub const TERMINAL_PROCESS_INPUT_MAX_BYTES: usize = 1048576;

/// The output chunk size.
pub fn terminal_event_output_chunk_bytes_for_test() -> (bytes: usize)
    ensures
        bytes == TERMINAL_EVENT_OUTPUT_CHUNK_BYTES,
{
    TERMINAL_EVENT_OUTPUT_CHUNK_BYTES
}

/// The writer stops once closing was requested or the process finished.
pub fn terminal_writer_should_stop(close_requested: bool, terminal_finished: bool) -> (stop: bool)
    ensures
        stop == (close_requested || terminal_finished),
{
    close_requested || terminal_finished
}

/// Reads both shared flags and applies `terminal_writer_should_stop`. The
/// flags are written by other threads, so nothing is promised of the values
/// read here.
pub fn terminal_command_writer_should_stop(close_requested: &AtomicBool, terminal_finished: &AtomicBool) -> (stop: bool)
{
    let close = close_requested.load(Ordering::SeqCst);
    let finished = terminal_finished.load(Ordering::SeqCst);
    terminal_writer_should_stop(close, finished)
}

/// The input passed to the process: all of it when it fits in `max_bytes`
/// bytes, otherwise its longest prefix that fits and ends on a character
/// boundary.
pub fn bounded_terminal_process_input(input: &str, max_bytes: usize) -> (bounded: &str)
    requires
        input.spec_bytes().len() <= usize::MAX,
    ensures
        input.spec_bytes().len() <= max_bytes ==> bounded == input,
        input.spec_bytes().len() > max_bytes ==> exists|cut: int| {
            &&& 0 <= cut <= max_bytes
            &&& is_char_boundary(input.spec_bytes(), cut)
            &&& bounded.spec_bytes() == input.spec_bytes().subrange(0, cut)
            &&& forall|later: int| cut < later <= max_bytes ==> !#[trigger] is_char_boundary(input.spec_bytes(), later)
        },
{
    if input.len() <= max_bytes {
        return input;
    }
    let ghost bytes = input.spec_bytes();
    let mut cut = max_bytes;
    while cut > 0 && !input.is_char_boundary(cut)
        invariant
            bytes == input.spec_bytes(),
            cut <= max_bytes,
            max_bytes < bytes.len(),
            forall|later: int| cut < later <= max_bytes ==> !#[trigger] is_char_boundary(bytes, later),
        decreases cut,
    {
        cut = cut - 1;
    }
    proof {
        broadcast use encode_utf8_valid_utf8, is_char_boundary_start_end_of_seq;
        assert(is_char_boundary(bytes, cut as int));
    }
    let (head, _) = input.split_at(cut);
    head
}

/// A label that is either the text it was made from or a replacement.
#[derive(Debug, Clone, PartialEq, Eq)]
pub enum DisplayLabel<'a> {
    /// The text was already a clean label.
    Borrowed(&'a str),
    /// The sanitised, bounded or fallback label.
    Owned(String),
}

/// The terminal failure label for `label`: the text itself when it is
/// already clean, otherwise its sanitised replacement.
pub fn terminal_failure_label_cow<'a>(label: &'a str) -> (text: DisplayLabel<'a>)
    ensures
        match text {
            DisplayLabel::Borrowed(s) => s == label
                && label@ == label_spec(label@, TERMINAL_FAILURE_LABEL_MAX_CHARS as nat, "terminal error"@),
            DisplayLabel::Owned(s) => s@ == label_spec(label@, TERMINAL_FAILURE_LABEL_MAX_CHARS as nat, "terminal error"@)
                && label@ != s@,
        },
{
    let clean = terminal_failure_label(label);
    if str_equal(clean.as_str(), label) {
        DisplayLabel::Borrowed(label)
    } else {
        DisplayLabel::Owned(clean)
    }
}

/// A process exit code as the signed value the process meant: codes are
/// reported unsigned (`0xFFFFFFFF` for an exit with `-1`), so they wrap.
pub open spec fn signed_exit_code(code: u32) -> int {
    if code < 0x8000_0000 {
        code as int
    } else {
        code as int - 0x1_0000_0000
    }
}

/// The exit code reported for a finished terminal: only for launched
/// processes (not shells), and not when the terminal was closed on purpose.
pub fn terminal_process_exit_code(exit_code: u32, is_process_launch: bool, close_requested: bool) -> (code: Option<i32>)
    ensures
        code == (if !is_process_launch || close_requested {
            None
        } else {
            Some(signed_exit_code(exit_code) as i32)
        }),
        code matches Some(c) ==> c as int == signed_exit_code(exit_code),
{
    if !is_process_launch || close_requested {
        return None;
    }
    if exit_code < 0x8000_0000 {
        Some(exit_code as i32)
    } else {
        let low = (exit_code - 0x8000_0000) as i32;
        Some(low + i32::MIN)
    }
}

/// The alert shown when a terminal process ends: only when alerts are on,
/// the terminal was not closed on purpose and the process did not succeed.
/// `status_text` is how the exit status describes itself.
pub fn terminal_exit_alert_message(
    status_success: bool,
    status_text: &str,
    show_exit_alert: bool,
    close_requested: bool,
) -> (message: Option<String>)
    ensures
        opt_view(message) == (if show_exit_alert && !close_requested && !status_success {
            Some(failure_message_spec("process exited"@, status_text@))
        } else {
            None
        }),
{
    if show_exit_alert && !close_requested && !status_success {
        Some(terminal_failure_message("process exited", status_text))
    } else {
        None
    }
}


/// A reader failure is reported as output, and only while the terminal was
/// neither closed on purpose nor finished; it never claims the finished
/// signal, so the process exit still reports its own code.
pub fn terminal_read_error_output(
    close_requested: bool,
    terminal_finished: bool,
    error_text: &str,
) -> (message: Option<String>)
    ensures
        opt_view(message) == (if !close_requested && !terminal_finished {
            Some(failure_message_spec("terminal read error"@, error_text@))
        } else {
            None
        }),
{
    if close_requested || terminal_finished {
        None
    } else {
        Some(terminal_failure_message("terminal read error", error_text))
    }
}

/// The output payloads one chunk of process output is forwarded as: the
/// output itself when it fits in one chunk, otherwise consecutive pieces of
/// `TERMINAL_EVENT_OUTPUT_CHUNK_BYTES` bytes and a shorter last one.
pub open spec fn output_payloads_spec(output: Seq<u8>) -> Seq<Seq<u8>>
    decreases output.len(),
{
    if output.len() <= TERMINAL_EVENT_OUTPUT_CHUNK_BYTES {
        seq![output]
    } else {
        seq![output.take(TERMINAL_EVENT_OUTPUT_CHUNK_BYTES as int)]
            + output_payloads_spec(output.skip(TERMINAL_EVENT_OUTPUT_CHUNK_BYTES as int))
    }
}

/// The views of a list of byte vectors.
pub open spec fn byte_vec_views(vs: Seq<Vec<u8>>) -> Seq<Seq<u8>> {
    vs.map_values(|v: Vec<u8>| v@)
}

/// The bytes `output[from..to]` as a new vector.
fn copy_byte_range(output: &[u8], from: usize, to: usize) -> (piece: Vec<u8>)
    requires
        from <= to <= output@.len(),
    ensures
        piece@ == output@.subrange(from as int, to as int),
{
    let mut piece: Vec<u8> = Vec::new();
    let mut i: usize = from;
    while i < to
        invariant
            from <= i <= to <= output@.len(),
            piece@ == output@.subrange(from as int, i as int),
        decreases to - i,
    {
        piece.push(output[i]);
        i = i + 1;
        assert(piece@ =~= output@.subrange(from as int, i as int));
    }
    piece
}

/// Splits process output into the payloads it is forwarded as (see
/// `output_payloads_spec`).
pub fn terminal_output_payloads(output: &[u8]) -> (payloads: Vec<Vec<u8>>)
    ensures
        byte_vec_views(payloads@) == output_payloads_spec(output@),
{
    let n = output.len();
    let mut payloads: Vec<Vec<u8>> = Vec::new();
    let mut start: usize = 0;
    proof {
        assert(output@.skip(0) =~= output@);
        assert(byte_vec_views(payloads@) =~= Seq::<Seq<u8>>::empty());
        assert(Seq::<Seq<u8>>::empty() + output_payloads_spec(output@) =~= output_payloads_spec(output@));
    }
    loop
        invariant
            n == output@.len(),
            start <= n,
            start < n || start == 0,
            byte_vec_views(payloads@) + output_payloads_spec(output@.skip(start as int))
                == output_payloads_spec(output@),
        decreases n - start,
    {
        let ghost rest = output@.skip(start as int);
        let remaining = n - start;
        if remaining <= TERMINAL_EVENT_OUTPUT_CHUNK_BYTES {
            let piece = copy_byte_range(output, start, n);
            let ghost before = payloads@;
            payloads.push(piece);
            proof {
                assert(piece@ =~= rest);
                assert(output_payloads_spec(rest) == seq![rest]);
                assert(byte_vec_views(payloads@) =~= byte_vec_views(before).push(piece@));
                assert(byte_vec_views(before) + seq![rest] =~= byte_vec_views(before).push(rest));
            }
            return payloads;
        }
        let end = start + TERMINAL_EVENT_OUTPUT_CHUNK_BYTES;
        let piece = copy_byte_range(output, start, end);
        let ghost before = payloads@;
        payloads.push(piece);
        proof {
            let c = TERMINAL_EVENT_OUTPUT_CHUNK_BYTES as int;
            assert(piece@ =~= rest.take(c));
            assert(rest.skip(c) =~= output@.skip(end as int));
            assert(output_payloads_spec(rest) == seq![rest.take(c)] + output_payloads_spec(rest.skip(c)));
            assert(byte_vec_views(payloads@) =~= byte_vec_views(before).push(piece@));
            assert(byte_vec_views(before) + (seq![rest.take(c)] + output_payloads_spec(rest.skip(c)))
                =~= byte_vec_views(before).push(rest.take(c)) + output_payloads_spec(rest.skip(c)));
        }
        start = end;
    }
}

/// Forwarding output in payloads loses and reorders nothing: the payloads
/// concatenate to the output, none is longer than a chunk, and none is empty
/// unless the output was.
pub proof fn lemma_output_payloads_concatenate_to_output(output: Seq<u8>)
    ensures
        output_payloads_spec(output).flatten() == output,
        forall|i: int| 0 <= i < output_payloads_spec(output).len()
            ==> #[trigger] output_payloads_spec(output)[i].len() <= TERMINAL_EVENT_OUTPUT_CHUNK_BYTES,
        output.len() > 0 ==> forall|i: int| 0 <= i < output_payloads_spec(output).len()
            ==> #[trigger] output_payloads_spec(output)[i].len() > 0,
    decreases output.len(),
{
    let ps = output_payloads_spec(output);
    if output.len() <= TERMINAL_EVENT_OUTPUT_CHUNK_BYTES {
        assert(ps.drop_first() =~= Seq::<Seq<u8>>::empty());
        assert(ps.flatten() == ps.first() + ps.drop_first().flatten());
        assert(ps.flatten() =~= output);
    } else {
        let c = TERMINAL_EVENT_OUTPUT_CHUNK_BYTES as int;
        let rest = output.skip(c);
        lemma_output_payloads_concatenate_to_output(rest);
        let tail = output_payloads_spec(rest);
        assert(ps.first() == output.take(c));
        assert(ps.drop_first() =~= tail);
        assert(ps.flatten() == ps.first() + ps.drop_first().flatten());
        assert(output.take(c) + rest =~= output);
        assert forall|i: int| 0 <= i < ps.len() implies #[trigger] ps[i].len() <= TERMINAL_EVENT_OUTPUT_CHUNK_BYTES
            && ps[i].len() > 0 by {
            if i > 0 {
                assert(ps[i] == tail[i - 1]);
            }
        }
    }
}

} // verus!
