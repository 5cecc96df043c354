use rustchat::sentinel::{is_sentinel, trimmed};
use rustchat::transport::{recv_step, send_step, RecvOutcome};

#[test]
fn frame_round_trip_strips_terminator() {
    let key = "Toi".to_string();
    let (wire, stop) = send_step(&"hello\n".to_string(), &key);
    assert!(!stop);
    assert_eq!(wire, "ifmmp\u{b}33\n");
    match recv_step(&wire, wire.len(), &key) {
        RecvOutcome::Shown { text, stop } => {
            assert_eq!(text, "hello");
            assert!(!stop);
        }
        _ => panic!("authentic frame was rejected"),
    }
}

#[test]
fn sending_stop_line_flags_termination() {
    let key = "Toi".to_string();
    let (wire, stop) = send_step(&"STOP\n".to_string(), &key);
    assert!(stop);
    match recv_step(&wire, wire.len(), &key) {
        RecvOutcome::Shown { text, stop } => {
            assert_eq!(text, "STOP");
            assert!(stop);
        }
        _ => panic!("authentic frame was rejected"),
    }
}

#[test]
fn lowercase_stop_does_not_terminate() {
    let key = "Toi".to_string();
    let (wire, stop) = send_step(&"stop\n".to_string(), &key);
    assert!(!stop);
    match recv_step(&wire, wire.len(), &key) {
        RecvOutcome::Shown { stop, .. } => assert!(!stop),
        _ => panic!("authentic frame was rejected"),
    }
}

#[test]
fn stop_with_extra_text_does_not_terminate() {
    let key = "Toi".to_string();
    let (_, stop) = send_step(&"STOP extra\n".to_string(), &key);
    assert!(!stop);
}

#[test]
fn stop_with_trailing_whitespace_terminates() {
    assert!(is_sentinel(&"STOP \r\n".to_string()));
    assert!(is_sentinel(&"STOP".to_string()));
    assert!(!is_sentinel(&"  STOP\n".to_string()));
    assert!(!is_sentinel(&"ST OP\n".to_string()));
}

#[test]
fn trimming_removes_trailing_whitespace_only() {
    assert_eq!(trimmed(&"hello \t\r\n".to_string()), "hello");
    assert_eq!(trimmed(&"  hello\n".to_string()), "  hello");
    assert_eq!(trimmed(&" \r\n".to_string()), "");
}

#[test]
fn raw_plaintext_line_is_discarded() {
    let key = "Toi".to_string();
    let raw = "hello\n".to_string();
    assert!(matches!(recv_step(&raw, raw.len(), &key), RecvOutcome::Tampered));
}

#[test]
fn zero_length_read_is_retried() {
    let key = "Toi".to_string();
    assert!(matches!(recv_step(&"anything\n".to_string(), 0, &key), RecvOutcome::Retry));
}

#[test]
fn empty_line_with_bytes_is_discarded() {
    let key = "Toi".to_string();
    assert!(matches!(recv_step(&"".to_string(), 1, &key), RecvOutcome::Tampered));
}
