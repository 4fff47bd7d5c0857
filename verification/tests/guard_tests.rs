use cka_buddy_tui::guard::{evaluate_command, GuardDecision};

#[test]
fn empty_command_is_allowed() {
    assert!(matches!(evaluate_command(""), GuardDecision::Allow));
}

#[test]
fn whitespace_only_command_is_allowed() {
    assert!(matches!(evaluate_command("   \t  "), GuardDecision::Allow));
}

#[test]
fn ordinary_command_is_allowed() {
    assert!(matches!(evaluate_command("kubectl get pods"), GuardDecision::Allow));
    assert!(matches!(evaluate_command("ls -la"), GuardDecision::Allow));
    assert!(matches!(evaluate_command("kubectl describe pod web-0"), GuardDecision::Allow));
}

#[test]
fn fork_bomb_is_blocked() {
    match evaluate_command(":(){:|:&};:") {
        GuardDecision::Block(reason) => {
            assert_eq!(reason, "command matches blocked host-level pattern");
        }
        _ => panic!("expected Block"),
    }
}

#[test]
fn deny_tokens_block_anywhere_in_the_command() {
    assert!(matches!(evaluate_command("sudo shutdown -r now"), GuardDecision::Block(_)));
    assert!(matches!(evaluate_command("sudo reboot"), GuardDecision::Block(_)));
    assert!(matches!(evaluate_command("mkfs.ext4 /dev/sda1"), GuardDecision::Block(_)));
    assert!(matches!(evaluate_command("  shutdown  "), GuardDecision::Block(_)));
}

#[test]
fn confirm_tokens_ask_for_confirmation() {
    match evaluate_command("rm -rf /tmp/scratch") {
        GuardDecision::Confirm(reason) => {
            assert_eq!(reason, "high-risk command detected");
        }
        _ => panic!("expected Confirm"),
    }
    assert!(matches!(evaluate_command("kubectl delete ns test"), GuardDecision::Confirm(_)));
    assert!(matches!(
        evaluate_command("kubectl delete namespace prod"),
        GuardDecision::Confirm(_)
    ));
}

#[test]
fn deny_list_wins_over_confirm_list() {
    assert!(matches!(evaluate_command("rm -rf / && shutdown now"), GuardDecision::Block(_)));
}

#[test]
fn near_miss_tokens_are_allowed() {
    assert!(matches!(evaluate_command("kubectl delete pod web"), GuardDecision::Allow));
    assert!(matches!(evaluate_command("rm file.txt"), GuardDecision::Allow));
}
