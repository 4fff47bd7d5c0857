use cka_buddy_tui::bridge::{AcceptEvent, ExternalBridge, ShellError};
use cka_buddy_tui::pty::PtySession;
use cka_buddy_tui::shell_mode::{ShellMode, ShellRouter};

#[test]
fn mode_names_round_trip() {
    assert_eq!(ShellMode::Embedded.as_str(), "embedded");
    assert_eq!(ShellMode::External.as_str(), "external");
    assert_eq!(ShellMode::parse("embedded"), Some(ShellMode::Embedded));
    assert_eq!(ShellMode::parse("  External "), Some(ShellMode::External));
    assert_eq!(ShellMode::parse("EMBEDDED"), Some(ShellMode::Embedded));
    assert_eq!(ShellMode::parse("tmux"), None);
    assert_eq!(ShellMode::parse(""), None);
}

#[test]
fn embedded_dispatch_acknowledges_and_queues_the_wire_line() {
    let mut router = ShellRouter::new(ShellMode::Embedded, PtySession::new(), None, None);
    assert_eq!(router.mode(), ShellMode::Embedded);
    let ack = router.send_line("kubectl get pods", AcceptEvent::Idle);
    assert_eq!(ack, Ok("embedded dispatch: kubectl get pods".to_string()));
    assert_eq!(router.take_embedded_outgoing(), vec!["kubectl get pods\n"]);
}

#[test]
fn embedded_output_surfaces_within_one_poll_cycle() {
    // A scripted shell stub: the test carries the queued write to the stub,
    // and the stub's reply back, as the host process would.
    let mut router = ShellRouter::new(ShellMode::Embedded, PtySession::new(), None, None);
    let ack = router.send_line("echo hi", AcceptEvent::Idle);
    assert_eq!(ack, Ok("embedded dispatch: echo hi".to_string()));

    let writes = router.take_embedded_outgoing();
    assert_eq!(writes, vec!["echo hi\n"]);
    let reply = format!("hi\r\n");
    router.push_embedded_chunk(reply);

    assert_eq!(router.drain_output(AcceptEvent::Idle), vec!["hi"]);
    assert!(router.drain_output(AcceptEvent::Idle).is_empty());
}

#[test]
fn external_mode_without_a_bridge_stays_degraded() {
    let mut router = ShellRouter::new(ShellMode::External, PtySession::new(), None, None);
    assert_eq!(router.mode(), ShellMode::External);
    assert!(!router.has_bridge());
    assert_eq!(router.external_connect_command(), None);
    assert_eq!(
        router.send_line("ls", AcceptEvent::Idle),
        Err(ShellError::BridgeUnavailable)
    );
    assert_eq!(
        router.drain_output(AcceptEvent::Idle),
        vec!["external mode unavailable: could not initialize bridge; switch to /shell embedded"]
    );
}

#[test]
fn entering_external_without_a_bridge_queues_a_diagnostic() {
    let mut router = ShellRouter::new(ShellMode::Embedded, PtySession::new(), None, None);
    router.set_mode(ShellMode::External, None);
    assert_eq!(router.mode(), ShellMode::External);
    assert_eq!(
        router.drain_output(AcceptEvent::Idle),
        vec!["failed to initialize external bridge; staying unpaired (use /shell embedded)"]
    );
}

#[test]
fn unconnected_external_send_replies_with_pairing_instructions() {
    let bridge = ExternalBridge::new("xterm".to_string(), 45017, 4821);
    let mut router =
        ShellRouter::new(ShellMode::External, PtySession::new(), None, Some(bridge));
    let reply = router.send_line("kubectl get pods", AcceptEvent::Idle);
    let expected = "external terminal not connected yet. Run: \
        cargo run -- --shell-connect 4821 --port 45017  # open in xterm";
    assert_eq!(reply, Ok(expected.to_string()));
    assert_eq!(router.drain_output(AcceptEvent::Idle), vec![expected.to_string()]);
}

#[test]
fn mode_detour_keeps_embedded_output() {
    let mut router = ShellRouter::new(ShellMode::Embedded, PtySession::new(), None, None);
    router.push_embedded_chunk("queued while embedded\n".to_string());

    router.set_mode(ShellMode::External, None);
    router.set_mode(ShellMode::Embedded, None);

    assert_eq!(router.mode(), ShellMode::Embedded);
    let mut drained = router.drain_output(AcceptEvent::Idle);
    // The detour's own diagnostic is queued on the external side; the
    // embedded backend's output is intact.
    assert_eq!(drained, vec!["queued while embedded"]);
    router.set_mode(ShellMode::External, None);
    drained = router.drain_output(AcceptEvent::Idle);
    assert_eq!(
        drained,
        vec![
            "failed to initialize external bridge; staying unpaired (use /shell embedded)"
                .to_string(),
            "failed to initialize external bridge; staying unpaired (use /shell embedded)"
                .to_string(),
        ]
    );
}

#[test]
fn pairing_scenario_dispatches_to_the_connector() {
    let pin_seed = 4821;
    let port = 45017;
    let bridge = ExternalBridge::new("xterm".to_string(), port, pin_seed);
    assert_eq!(bridge.pin(), "4821");
    let mut router =
        ShellRouter::new(ShellMode::External, PtySession::new(), None, Some(bridge));

    // The connector sends `PIN 4821\n`; the bridge accepts and the queued
    // command goes out in the same call.
    let hello = cka_buddy_tui::bridge::connector_hello("4821");
    assert_eq!(hello, "PIN 4821\n");
    let ack = router.send_line(
        "kubectl get pods",
        AcceptEvent::Incoming { handshake: Some(hello), peer: "127.0.0.1:50001".to_string() },
    );
    assert_eq!(ack, Ok("external dispatch: kubectl get pods".to_string()));

    let writes = router.take_external_outgoing();
    assert_eq!(writes, vec!["kubectl get pods\n"]);

    // The connector receives the line, echoes it, runs it, and reports the
    // exit status.
    let command = cka_buddy_tui::bridge::connector_command(&writes[0]).expect("a command");
    assert_eq!(command, "kubectl get pods");
    assert_eq!(cka_buddy_tui::bridge::connector_echo(&command), "\n$ kubectl get pods");
    assert_eq!(cka_buddy_tui::bridge::connector_exit_line(Some(0)), "[exit: 0]");

    let drained = router.drain_output(AcceptEvent::Idle);
    assert_eq!(
        drained,
        vec![
            "external terminal connected from 127.0.0.1:50001".to_string(),
            "external dispatch: kubectl get pods".to_string(),
        ]
    );
}

#[test]
fn external_write_failure_reverts_to_listening() {
    let bridge = ExternalBridge::new("xterm".to_string(), 4000, 1);
    let mut router =
        ShellRouter::new(ShellMode::External, PtySession::new(), None, Some(bridge));
    let ack = router.send_line(
        "ls",
        AcceptEvent::Incoming {
            handshake: Some("PIN 0001".to_string()),
            peer: "peer".to_string(),
        },
    );
    assert_eq!(ack, Ok("external dispatch: ls".to_string()));
    router.on_external_write_failure();
    assert!(router.take_external_outgoing().is_empty());
    // The router stays usable: the next send replies with pairing help.
    let reply = router.send_line("ls", AcceptEvent::Idle).expect("no error");
    assert!(reply.starts_with("external terminal not connected yet. Run: "));
}
