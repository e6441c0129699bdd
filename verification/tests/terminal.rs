use kuroya_logic::labels::{terminal_failure_message, DISPLAY_ERROR_LABEL_MAX_CHARS, TERMINAL_FAILURE_LABEL_MAX_CHARS};
use kuroya_logic::terminal::{terminal_output_payloads, terminal_read_error_output};
use kuroya_logic::terminal::{
    bounded_terminal_process_input, terminal_command_writer_should_stop,
    terminal_event_output_chunk_bytes_for_test, terminal_exit_alert_message,
    terminal_failure_label_cow, terminal_process_exit_code, terminal_writer_should_stop,
    DisplayLabel, TERMINAL_PROCESS_INPUT_MAX_BYTES,
};
use std::sync::atomic::AtomicBool;

fn terminal_message_detail<'a>(message: &'a str, label: &str) -> &'a str {
    message
        .strip_prefix("\r\n")
        .and_then(|body| body.strip_suffix("\r\n"))
        .and_then(|body| body.strip_prefix(label))
        .and_then(|body| body.strip_prefix(": "))
        .expect("terminal message should carry the label and detail")
}

#[test]
fn terminal_input_write_reports_flush_failures() {
    assert_eq!(
        bounded_terminal_process_input("queued input", TERMINAL_PROCESS_INPUT_MAX_BYTES),
        "queued input"
    );
}

#[test]
fn terminal_input_write_preserves_raw_bytes() {
    let input = "\0\x1b[31mraw\r\n\u{7}";

    let bounded = bounded_terminal_process_input(input, TERMINAL_PROCESS_INPUT_MAX_BYTES);

    assert_eq!(bounded.as_bytes(), input.as_bytes());
}

#[test]
fn terminal_input_write_caps_oversized_input_at_utf8_boundary() {
    let input = format!("{}\u{e9}", "a".repeat(TERMINAL_PROCESS_INPUT_MAX_BYTES));

    let bounded = bounded_terminal_process_input(&input, TERMINAL_PROCESS_INPUT_MAX_BYTES);

    assert_eq!(bounded.len(), TERMINAL_PROCESS_INPUT_MAX_BYTES);
    assert!(std::str::from_utf8(bounded.as_bytes()).is_ok());
    assert!(bounded.as_bytes().ends_with(b"a"));
}

#[test]
fn terminal_input_bound_backs_off_to_the_previous_character_boundary() {
    assert_eq!(bounded_terminal_process_input("ab\u{e9}", 3), "ab");
    assert_eq!(bounded_terminal_process_input("\u{1f642}x", 3), "");
    assert_eq!(bounded_terminal_process_input("\u{1f642}x", 4), "\u{1f642}");
    assert_eq!(bounded_terminal_process_input("abc", 0), "");
}

#[test]
fn terminal_input_write_skips_finished_processes() {
    let close_requested = AtomicBool::new(false);
    let terminal_finished = AtomicBool::new(true);

    assert!(terminal_command_writer_should_stop(&close_requested, &terminal_finished));
    assert!(terminal_writer_should_stop(false, true));
    assert!(terminal_writer_should_stop(true, false));
    assert!(!terminal_writer_should_stop(false, false));
    assert_eq!(terminal_event_output_chunk_bytes_for_test(), 4096);
}

#[test]
fn terminal_failure_label_cow_borrows_clean_ascii_and_unicode() {
    assert!(matches!(
        terminal_failure_label_cow("terminal read error"),
        DisplayLabel::Borrowed("terminal read error")
    ));

    let unicode = "terminal \u{03bb} error";
    match terminal_failure_label_cow(unicode) {
        DisplayLabel::Borrowed(label) => assert_eq!(label, unicode),
        DisplayLabel::Owned(label) => panic!("expected borrowed label, got {label:?}"),
    }
}

#[test]
fn terminal_failure_label_cow_owns_dirty_truncated_and_fallback_labels() {
    let dirty = terminal_failure_label_cow("terminal\nread");
    assert_eq!(dirty, DisplayLabel::Owned("terminal read".to_owned()));

    let long = format!("{}tail", "a".repeat(80));
    let truncated = terminal_failure_label_cow(&long);
    match truncated {
        DisplayLabel::Owned(label) => {
            assert!(label.contains("..."));
            assert!(label.chars().count() <= TERMINAL_FAILURE_LABEL_MAX_CHARS);
        }
        DisplayLabel::Borrowed(label) => panic!("expected owned label, got {label:?}"),
    }

    let fallback = terminal_failure_label_cow("   ");
    assert_eq!(fallback, DisplayLabel::Owned("terminal error".to_owned()));
}

#[test]
fn terminal_failure_message_sanitizes_and_bounds_error_details() {
    let message = terminal_failure_message(
        "terminal error",
        &format!("first line\nsecond line \u{202e}{}", "x".repeat(512)),
    );
    let detail = terminal_message_detail(&message, "terminal error");

    assert_eq!(message.matches("\r\n").count(), 2);
    assert!(!detail.contains('\n'));
    assert!(!detail.contains('\r'));
    assert!(!detail.contains('\u{202e}'));
    assert!(detail.contains("first line second line"));
    assert!(detail.contains("..."));
    assert!(detail.chars().count() <= DISPLAY_ERROR_LABEL_MAX_CHARS);
}

#[test]
fn terminal_exit_alert_message_only_shows_non_zero_when_enabled() {
    assert_eq!(terminal_exit_alert_message(true, "Success", true, false), None);
    assert_eq!(terminal_exit_alert_message(false, "Exited with code 1", false, false), None);
    assert_eq!(
        terminal_exit_alert_message(false, "Exited with code 1", true, false),
        Some("\r\nprocess exited: Exited with code 1\r\n".to_owned())
    );
}

#[test]
fn terminal_exit_alert_message_suppresses_intentional_close() {
    assert_eq!(terminal_exit_alert_message(false, "Exited with code 1", true, true), None);
}

#[test]
fn terminal_process_exit_code_tracks_process_launches_only() {
    assert_eq!(terminal_process_exit_code(0, true, false), Some(0));
    assert_eq!(terminal_process_exit_code(17, true, false), Some(17));
    assert_eq!(terminal_process_exit_code(17, true, true), None);
    assert_eq!(terminal_process_exit_code(17, false, false), None);
}

#[test]
fn terminal_process_exit_code_wraps_windows_unsigned_codes_to_signed() {
    assert_eq!(terminal_process_exit_code(u32::MAX, true, false), Some(-1));
    assert_eq!(terminal_process_exit_code(0x8000_0000, true, false), Some(i32::MIN));
    assert_eq!(terminal_process_exit_code(0x7fff_ffff, true, false), Some(i32::MAX));
}

#[test]
fn terminal_failure_message_preserves_formatting_bounds_and_detail_sanitization() {
    assert_eq!(
        terminal_failure_message("process exited", "Exited with code 17"),
        "\r\nprocess exited: Exited with code 17\r\n"
    );

    let message = terminal_failure_message(
        &format!("read error {}", "x".repeat(96)),
        "first line\r\nsecond line \u{202e}detail",
    );
    let body = message
        .strip_prefix("\r\n")
        .expect("terminal message should start with CRLF")
        .strip_suffix("\r\n")
        .expect("terminal message should end with CRLF");
    let (label, detail) = body
        .split_once(": ")
        .expect("terminal message should separate label and detail");

    assert_eq!(message.matches("\r\n").count(), 2);
    assert!(label.contains("..."));
    assert!(label.chars().count() <= TERMINAL_FAILURE_LABEL_MAX_CHARS);
    assert!(!detail.contains('\n'));
    assert!(!detail.contains('\r'));
    assert!(!detail.contains('\u{202e}'));
    assert!(detail.contains("first line second line detail"));
    assert!(detail.chars().count() <= DISPLAY_ERROR_LABEL_MAX_CHARS);
}

#[test]
fn terminal_exit_alert_message_sanitizes_and_bounds_signal_details() {
    let status_text = format!("Terminated by signal line\nnext line \u{202e}{}", "x".repeat(512));
    let message = terminal_exit_alert_message(false, &status_text, true, false)
        .expect("nonzero signal exit should show alert");
    let detail = terminal_message_detail(&message, "process exited");

    assert!(!detail.contains('\n'));
    assert!(!detail.contains('\r'));
    assert!(!detail.contains('\u{202e}'));
    assert!(detail.contains("Terminated by signal line next line"));
    assert!(detail.contains("..."));
    assert!(detail.chars().count() <= DISPLAY_ERROR_LABEL_MAX_CHARS);
}

#[test]
fn send_terminal_event_splits_oversized_output_chunks() {
    let chunk_size = terminal_event_output_chunk_bytes_for_test();
    let payloads = terminal_output_payloads(&vec![b'x'; chunk_size + 3]);
    assert_eq!(payloads.len(), 2);
    assert_eq!(payloads[0].len(), chunk_size);
    assert_eq!(payloads[1].len(), 3);
}

#[test]
fn terminal_output_payloads_keep_small_and_empty_output_whole() {
    assert_eq!(terminal_output_payloads(b"hello"), vec![b"hello".to_vec()]);
    assert_eq!(terminal_output_payloads(b""), vec![Vec::<u8>::new()]);
    let chunk_size = terminal_event_output_chunk_bytes_for_test();
    let exact: Vec<u8> = (0..chunk_size).map(|i| (i % 251) as u8).collect();
    assert_eq!(terminal_output_payloads(&exact), vec![exact.clone()]);

    let long: Vec<u8> = (0..(2 * chunk_size + 5)).map(|i| (i % 253) as u8).collect();
    let payloads = terminal_output_payloads(&long);
    assert_eq!(payloads.iter().map(Vec::len).collect::<Vec<_>>(), vec![chunk_size, chunk_size, 5]);
    assert_eq!(payloads.concat(), long);
}

#[test]
fn terminal_read_error_is_reported_as_output_and_exit_code_still_finishes() {
    let output = terminal_read_error_output(false, false, "conpty closed")
        .expect("read error is reported while the terminal runs");
    assert!(output.contains("terminal read error"));
    assert!(output.contains("conpty closed"));
    assert_eq!(output, "\r\nterminal read error: conpty closed\r\n");
}

#[test]
fn terminal_read_error_output_is_suppressed_after_close_request() {
    assert_eq!(terminal_read_error_output(true, false, "conpty closed"), None);
    assert_eq!(terminal_read_error_output(false, true, "conpty closed"), None);
}
