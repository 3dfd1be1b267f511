use sidecar_backend::greeting::greet;
use sidecar_backend::numeral::i32_to_dec;
use sidecar_backend::numeral::u32_to_dec;
use sidecar_backend::sidecar::exit_payload;
use sidecar_backend::sidecar::relay_action;
use sidecar_backend::sidecar::relay_all;
use sidecar_backend::sidecar::start_response;
use sidecar_backend::sidecar::SidecarEvent;
use sidecar_backend::sidecar::SpawnOutcome;

#[test]
fn greet_substitutes_name() {
    assert_eq!(greet("World"), "Hello, World! You've been greeted from Rust!");
}

#[test]
fn greet_empty_name() {
    assert_eq!(greet(""), "Hello, ! You've been greeted from Rust!");
}

#[test]
fn greet_special_characters_verbatim() {
    assert_eq!(
        greet("<&\"O'Brien\">\n"),
        "Hello, <&\"O'Brien\">\n! You've been greeted from Rust!"
    );
}

#[test]
fn start_response_confirms_spawn() {
    assert_eq!(
        start_response(SpawnOutcome::Spawned),
        Ok("Bun sidecar started successfully".to_string())
    );
}

#[test]
fn start_response_creation_failure_text() {
    let r = start_response(SpawnOutcome::CommandCreationFailed("unknown program".to_string()));
    assert_eq!(r, Err("Failed to create sidecar command: unknown program".to_string()));
}

#[test]
fn start_response_spawn_failure_text() {
    let r = start_response(SpawnOutcome::SpawnFailed("No such file or directory".to_string()));
    let message = r.expect_err("a failed spawn must answer with an error");
    assert!(message.starts_with("Failed to spawn sidecar:"));
    assert_eq!(message, "Failed to spawn sidecar: No such file or directory");
}

#[test]
fn stdout_line_relayed_under_output_name() {
    let emission = relay_action(&SidecarEvent::Stdout(b"ready\n".to_vec()))
        .expect("a stdout line must be relayed");
    assert_eq!(emission.name, "bun-sidecar-output");
    assert_eq!(emission.payload, "ready\n");
}

#[test]
fn stderr_line_relayed_under_error_name() {
    let emission = relay_action(&SidecarEvent::Stderr(b"warning: low memory".to_vec()))
        .expect("a stderr line must be relayed");
    assert_eq!(emission.name, "bun-sidecar-error");
    assert_eq!(emission.payload, "warning: low memory");
}

#[test]
fn exit_with_code_zero() {
    let emission = relay_action(&SidecarEvent::Terminated(Some(0)))
        .expect("a termination notice must be relayed");
    assert_eq!(emission.name, "bun-sidecar-exited");
    assert_eq!(emission.payload, "Exit code: Some(0)");
}

#[test]
fn exit_by_signal_renders_no_value() {
    let emission = relay_action(&SidecarEvent::Terminated(None))
        .expect("a termination notice must be relayed");
    assert_eq!(emission.name, "bun-sidecar-exited");
    assert_eq!(emission.payload, "Exit code: None");
}

#[test]
fn unknown_occurrence_is_ignored() {
    assert!(relay_action(&SidecarEvent::Other).is_none());
}

#[test]
fn invalid_bytes_become_replacement_markers() {
    let emission = relay_action(&SidecarEvent::Stdout(vec![0x63, 0x61, 0x66, 0xE9]))
        .expect("an invalid line must still be relayed");
    assert_eq!(emission.payload, "caf\u{FFFD}");
}

#[test]
fn exit_payload_exact_texts() {
    assert_eq!(exit_payload(Some(143)), "Exit code: Some(143)");
    assert_eq!(exit_payload(Some(-1)), "Exit code: Some(-1)");
    assert_eq!(exit_payload(None), "Exit code: None");
}

#[test]
fn relay_all_keeps_order_and_drops_only_unknown() {
    let events = vec![
        SidecarEvent::Stdout(b"first".to_vec()),
        SidecarEvent::Other,
        SidecarEvent::Stderr(b"second".to_vec()),
        SidecarEvent::Terminated(Some(3)),
    ];
    let out = relay_all(&events);
    assert_eq!(out.len(), 3);
    assert_eq!(out[0].name, "bun-sidecar-output");
    assert_eq!(out[0].payload, "first");
    assert_eq!(out[1].name, "bun-sidecar-error");
    assert_eq!(out[1].payload, "second");
    assert_eq!(out[2].name, "bun-sidecar-exited");
    assert_eq!(out[2].payload, "Exit code: Some(3)");
}

#[test]
fn one_exited_event_per_termination() {
    let events = vec![
        SidecarEvent::Terminated(Some(0)),
        SidecarEvent::Stdout(b"late".to_vec()),
        SidecarEvent::Terminated(None),
    ];
    let out = relay_all(&events);
    let exited = out.iter().filter(|e| e.name == "bun-sidecar-exited").count();
    assert_eq!(exited, 2);
}

#[test]
fn decimal_renderings_exact() {
    assert_eq!(u32_to_dec(0), "0");
    assert_eq!(u32_to_dec(10), "10");
    assert_eq!(u32_to_dec(4294967295), "4294967295");
    assert_eq!(i32_to_dec(7), "7");
    assert_eq!(i32_to_dec(-7), "-7");
    assert_eq!(i32_to_dec(2147483647), "2147483647");
    assert_eq!(i32_to_dec(-2147483648), "-2147483648");
}
