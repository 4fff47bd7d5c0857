use cka_buddy_tui::args::{
    parse_positional_terminal, parse_shell_connect_args, parse_shell_mode,
    parse_terminal_override, trim_output, ArgError,
};
use cka_buddy_tui::shell_mode::ShellMode;

fn args(list: &[&str]) -> Vec<String> {
    list.iter().map(|s| s.to_string()).collect()
}

#[test]
fn connector_args_need_both_flags() {
    let both = parse_shell_connect_args(&args(&["--shell-connect", "4821", "--port", "45017"]));
    match both {
        Ok(Some((pin, port))) => {
            assert_eq!(pin, "4821");
            assert_eq!(port, 45017);
        }
        _ => panic!("expected a pin and a port"),
    }

    assert!(matches!(parse_shell_connect_args(&args(&[])), Ok(None)));
    assert!(matches!(parse_shell_connect_args(&args(&["--terminal", "xterm"])), Ok(None)));
}

#[test]
fn connector_args_errors_match_their_messages() {
    match parse_shell_connect_args(&args(&["--shell-connect", "4821"])) {
        Err(e) => assert_eq!(e.message(), "--shell-connect requires --port"),
        _ => panic!("expected an error"),
    }
    match parse_shell_connect_args(&args(&["--port", "4000"])) {
        Err(e) => assert_eq!(e.message(), "--port provided without --shell-connect"),
        _ => panic!("expected an error"),
    }
    match parse_shell_connect_args(&args(&["--shell-connect"])) {
        Err(e) => {
            assert_eq!(e.message(), "missing value for --shell-connect (expected 4-digit pin)")
        }
        _ => panic!("expected an error"),
    }
    match parse_shell_connect_args(&args(&["--shell-connect", "1", "--port"])) {
        Err(e) => assert_eq!(e.message(), "missing value for --port"),
        _ => panic!("expected an error"),
    }
    match parse_shell_connect_args(&args(&["--shell-connect", "1", "--port", "99999"])) {
        Err(e) => assert_eq!(e.message(), "invalid --port value '99999'"),
        _ => panic!("expected an error"),
    }
}

#[test]
fn shell_mode_defaults_to_external() {
    assert_eq!(parse_shell_mode(&args(&[])).ok(), Some(ShellMode::External));
    assert_eq!(
        parse_shell_mode(&args(&["--shell", "embedded"])).ok(),
        Some(ShellMode::Embedded)
    );
    assert_eq!(
        parse_shell_mode(&args(&["--terminal", "x", "--shell", "External"])).ok(),
        Some(ShellMode::External)
    );
    match parse_shell_mode(&args(&["--shell", "tmux"])) {
        Err(e) => assert_eq!(e.message(), "invalid --shell value 'tmux'; expected embedded|external"),
        _ => panic!("expected an error"),
    }
    match parse_shell_mode(&args(&["--shell"])) {
        Err(e) => assert_eq!(e.message(), "missing value for --shell (expected embedded|external)"),
        _ => panic!("expected an error"),
    }
}

#[test]
fn terminal_override_prefers_the_flag() {
    assert_eq!(
        parse_terminal_override(&args(&["--terminal", "kitty"])),
        Some("kitty".to_string())
    );
    assert_eq!(parse_terminal_override(&args(&["--terminal"])), None);
    assert_eq!(
        parse_terminal_override(&args(&["--shell", "embedded", "wezterm"])),
        Some("wezterm".to_string())
    );
    assert_eq!(parse_terminal_override(&args(&["--verbose"])), None);
    assert_eq!(parse_terminal_override(&args(&[])), None);
}

#[test]
fn positional_terminal_skips_flag_values() {
    assert_eq!(
        parse_positional_terminal(&args(&["--shell", "embedded", "ghostty"])),
        Some("ghostty".to_string())
    );
    assert_eq!(parse_positional_terminal(&args(&["--port", "4000"])), None);
    assert_eq!(parse_positional_terminal(&args(&["-v", "alacritty"])), Some("alacritty".to_string()));
}

#[test]
fn trim_output_keeps_the_newest_lines() {
    let mut log: Vec<String> = (0..5).map(|i| format!("line {i}")).collect();
    trim_output(&mut log, 3);
    assert_eq!(log, vec!["line 2", "line 3", "line 4"]);
    trim_output(&mut log, 10);
    assert_eq!(log.len(), 3);
}
