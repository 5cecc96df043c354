//! One whole session, with the wire played by strings: the listener and the
//! dialer agree on the endpoint, exchange keys, trade a greeting, and stop on
//! the sentinel.

use rustchat::config::{check_args, ArgPlan, Role};
use rustchat::keys::{gen_key, key_line};
use rustchat::transport::{recv_step, send_step, RecvOutcome};

#[test]
fn listener_and_dialer_run_a_session_to_the_sentinel() {
    // Both processes decide their role from the same endpoint address.
    let listener_args: Vec<String> =
        ["rustchat", "-S", "127.0.0.1", "6000"].iter().map(|s| s.to_string()).collect();
    let dialer_args: Vec<String> =
        ["rustchat", "-C", "127.0.0.1", "6000"].iter().map(|s| s.to_string()).collect();
    let listener_plan = check_args(&listener_args);
    let dialer_plan = check_args(&dialer_args);
    let listener_id = match listener_plan {
        ArgPlan::Session { role: Role::Listener, conn_id } => conn_id,
        _ => panic!("the -S arguments must yield a listener session"),
    };
    let dialer_id = match dialer_plan {
        ArgPlan::Session { role: Role::Dialer, conn_id } => conn_id,
        _ => panic!("the -C arguments must yield a dialer session"),
    };
    assert_eq!(listener_id, "127.0.0.1:6000");
    assert_eq!(dialer_id, listener_id);

    // Key exchange: each side frames its public key as one line, reads the
    // peer's line, and discards it as a confirmation echo.
    let (listener_priv, listener_pub) = gen_key();
    let (dialer_priv, dialer_pub) = gen_key();
    let listener_key_frame = key_line(&listener_pub);
    let dialer_key_frame = key_line(&dialer_pub);
    assert_eq!(listener_key_frame, "Toi\n");
    assert_eq!(dialer_key_frame, "Toi\n");

    // Dialer sends "hello"; the listener displays it and keeps going.
    let (wire, dialer_stops) = send_step(&"hello\n".to_string(), &dialer_pub);
    assert!(!dialer_stops);
    match recv_step(&wire, wire.len(), &listener_priv) {
        RecvOutcome::Shown { text, stop } => {
            assert_eq!(text, "hello");
            assert!(!stop);
        }
        _ => panic!("the greeting frame must be displayed"),
    }

    // Listener sends the sentinel; both sides stop.
    let (stop_wire, listener_stops) = send_step(&"STOP\n".to_string(), &listener_pub);
    assert!(listener_stops);
    match recv_step(&stop_wire, stop_wire.len(), &dialer_priv) {
        RecvOutcome::Shown { text, stop } => {
            assert_eq!(text, "STOP");
            assert!(stop);
        }
        _ => panic!("the sentinel frame must be displayed"),
    }
}
