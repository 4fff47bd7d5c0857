use cka_buddy_tui::bridge::{
    connector_banner, connector_command, connector_echo, connector_exit_line, connector_hello,
    default_shell, generate_pin, resolve_terminal_executable, terminal_candidates, AcceptEvent,
    ExternalBridge, ShellError,
};

#[test]
fn pin_is_seed_modulo_ten_thousand_zero_padded() {
    assert_eq!(generate_pin(4821), "4821");
    assert_eq!(generate_pin(14821), "4821");
    assert_eq!(generate_pin(5), "0005");
    assert_eq!(generate_pin(0), "0000");
    assert_eq!(generate_pin(9999), "9999");
}

#[test]
fn connect_command_embeds_pin_port_and_terminal() {
    let bridge = ExternalBridge::new("xterm".to_string(), 45017, 4821);
    assert_eq!(
        bridge.connect_command(),
        "cargo run -- --shell-connect 4821 --port 45017  # open in xterm"
    );
}

#[test]
fn terminal_override_wins() {
    let on_path = vec![false, false, false, false, false, false];
    let resolved =
        resolve_terminal_executable(Some("mytty".to_string()), Some("ghostty".to_string()), &on_path);
    assert_eq!(resolved, Some("mytty".to_string()));
}

#[test]
fn environment_terminal_is_used_when_not_blank() {
    let on_path = vec![true, false, false, false, false, false];
    let resolved = resolve_terminal_executable(None, Some("wezterm".to_string()), &on_path);
    assert_eq!(resolved, Some("wezterm".to_string()));
    let blank = resolve_terminal_executable(None, Some("   ".to_string()), &on_path);
    assert_eq!(blank, Some("ghostty".to_string()));
}

#[test]
fn first_candidate_on_the_path_is_picked() {
    let candidates = terminal_candidates();
    assert_eq!(
        candidates,
        vec!["ghostty", "wezterm", "alacritty", "kitty", "gnome-terminal", "xterm"]
    );
    let on_path = vec![false, false, true, true, false, false];
    let resolved = resolve_terminal_executable(None, None, &on_path);
    assert_eq!(resolved, Some("alacritty".to_string()));
}

#[test]
fn no_terminal_resolves_to_nothing() {
    let on_path = vec![false, false, false, false, false, false];
    assert_eq!(resolve_terminal_executable(None, None, &on_path), None);
    assert_eq!(
        ShellError::NoTerminal.message(),
        "no supported terminal found (set --terminal or CKA_BUDDY_TERMINAL); tried: ghostty, wezterm, alacritty, kitty, gnome-terminal, xterm"
    );
}

#[test]
fn handshake_mismatch_rejects_and_queues_one_diagnostic() {
    let mut bridge = ExternalBridge::new("xterm".to_string(), 4000, 4821);
    let mut output: Vec<String> = Vec::new();
    bridge.poll_accept(
        AcceptEvent::Incoming {
            handshake: Some("PIN 0000\n".to_string()),
            peer: "127.0.0.1:50000".to_string(),
        },
        &mut output,
    );
    assert!(!bridge.is_connected());
    assert_eq!(output, vec!["external terminal connection rejected (pin mismatch)"]);
}

#[test]
fn unreadable_handshake_rejects() {
    let mut bridge = ExternalBridge::new("xterm".to_string(), 4000, 4821);
    let mut output: Vec<String> = Vec::new();
    bridge.poll_accept(
        AcceptEvent::Incoming { handshake: None, peer: "127.0.0.1:50000".to_string() },
        &mut output,
    );
    assert!(!bridge.is_connected());
    assert_eq!(output.len(), 1);
}

#[test]
fn correct_handshake_connects_and_queues_one_diagnostic() {
    let mut bridge = ExternalBridge::new("xterm".to_string(), 4000, 4821);
    let mut output: Vec<String> = Vec::new();
    bridge.poll_accept(
        AcceptEvent::Incoming {
            handshake: Some("PIN 4821\n".to_string()),
            peer: "127.0.0.1:50001".to_string(),
        },
        &mut output,
    );
    assert!(bridge.is_connected());
    assert_eq!(output, vec!["external terminal connected from 127.0.0.1:50001"]);

    bridge.poll_accept(
        AcceptEvent::Incoming {
            handshake: Some("PIN 4821\n".to_string()),
            peer: "127.0.0.1:50002".to_string(),
        },
        &mut output,
    );
    assert!(bridge.is_connected());
    assert_eq!(output.len(), 1);
}

#[test]
fn idle_polls_change_nothing() {
    let mut bridge = ExternalBridge::new("xterm".to_string(), 4000, 4821);
    let mut output: Vec<String> = Vec::new();
    bridge.poll_accept(AcceptEvent::Idle, &mut output);
    assert!(!bridge.is_connected());
    assert!(output.is_empty());
}

#[test]
fn send_without_a_peer_fails_and_write_failure_drops_the_peer() {
    let mut bridge = ExternalBridge::new("xterm".to_string(), 4000, 4821);
    let refused = bridge.send_line("ls");
    assert_eq!(refused, Err(ShellError::NotConnected));
    assert_eq!(ShellError::NotConnected.message(), "external bridge not connected");

    let mut output: Vec<String> = Vec::new();
    bridge.poll_accept(
        AcceptEvent::Incoming {
            handshake: Some("PIN 4821".to_string()),
            peer: "peer".to_string(),
        },
        &mut output,
    );
    assert!(bridge.is_connected());
    assert_eq!(bridge.send_line("ls"), Ok(()));
    assert_eq!(bridge.take_outgoing(), vec!["ls\n"]);
    bridge.on_write_failure();
    assert!(!bridge.is_connected());
    assert!(bridge.take_outgoing().is_empty());
}

#[test]
fn connector_lines_match_the_wire_protocol() {
    assert_eq!(connector_hello("4821"), "PIN 4821\n");
    assert_eq!(
        connector_banner(4000),
        "Connected to CKA Buddy shell bridge on 127.0.0.1:4000. Ctrl+C to exit."
    );
    assert_eq!(connector_command("  kubectl get pods \n"), Some("kubectl get pods".to_string()));
    assert_eq!(connector_command(" \n"), None);
    assert_eq!(connector_echo("kubectl get pods"), "\n$ kubectl get pods");
    assert_eq!(connector_exit_line(Some(0)), "[exit: 0]");
    assert_eq!(connector_exit_line(Some(127)), "[exit: 127]");
    assert_eq!(connector_exit_line(None), "[exit: -1]");
}

#[test]
fn default_shell_falls_back_to_zsh() {
    assert_eq!(default_shell(Some("/bin/bash".to_string())), "/bin/bash");
    assert_eq!(default_shell(Some("  ".to_string())), "/bin/zsh");
    assert_eq!(default_shell(None), "/bin/zsh");
}
