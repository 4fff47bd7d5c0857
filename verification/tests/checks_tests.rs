use cka_buddy_tui::checks::{selected_checks, verify_outcome, CheckResult, VerifyOutcome};
use cka_buddy_tui::coach::{build_coach, CoachAdvisor, DeterministicCoach};
use cka_buddy_tui::models::{Step, StepType};
use cka_buddy_tui::progress::ProgressStore;

fn step() -> Step {
    Step {
        id: "project-00".to_string(),
        title: "Warm up".to_string(),
        step_type: StepType::Project,
        domains: vec!["Cluster Architecture".to_string()],
        difficulty: "easy".to_string(),
        timebox_min: 15,
        objective: "Get a cluster running".to_string(),
        run_items: vec!["Start the cluster".to_string()],
        run_commands: vec!["kind create cluster".to_string()],
        success_check_commands: Vec::new(),
        success_contains: Vec::new(),
        verify_commands: vec!["kubectl get nodes".to_string()],
        fallback_hint: None,
        what_changed: Vec::new(),
        optional: false,
        path: "docs/project-00.md".to_string(),
        ready_weight: 3,
    }
}

fn ok(stdout: &str) -> CheckResult {
    CheckResult { success: true, stdout: stdout.to_string(), stderr: String::new() }
}

#[test]
fn explicit_success_checks_win() {
    let mut s = step();
    assert_eq!(selected_checks(&s), &vec!["kubectl get nodes".to_string()]);
    s.success_check_commands = vec!["kubectl get pods".to_string()];
    assert_eq!(selected_checks(&s), &vec!["kubectl get pods".to_string()]);
}

#[test]
fn no_checks_is_its_own_outcome() {
    let outcome = verify_outcome(&Vec::new(), &Vec::new(), &Vec::new());
    assert!(matches!(outcome, VerifyOutcome::NoChecks));
}

#[test]
fn a_failed_check_reports_its_command_and_stderr() {
    let checks = vec!["kubectl get nodes".to_string()];
    let failed = CheckResult {
        success: false,
        stdout: String::new(),
        stderr: " connection refused \n".to_string(),
    };
    match verify_outcome(&checks, &vec![failed], &Vec::new()) {
        VerifyOutcome::Fail(msg) => {
            assert_eq!(msg, "kubectl get nodes (connection refused)");
        }
        _ => panic!("expected Fail"),
    }

    let silent = CheckResult { success: false, stdout: String::new(), stderr: "  ".to_string() };
    match verify_outcome(&checks, &vec![silent], &Vec::new()) {
        VerifyOutcome::Fail(msg) => {
            assert_eq!(msg, "verify command failed: kubectl get nodes");
        }
        _ => panic!("expected Fail"),
    }
}

#[test]
fn missing_expected_output_fails() {
    let checks = vec!["kubectl get nodes".to_string()];
    let expected = vec!["Ready".to_string()];
    match verify_outcome(&checks, &vec![ok("node-1 Starting")], &expected) {
        VerifyOutcome::Fail(msg) => {
            assert_eq!(msg, "missing expected output: Ready");
        }
        _ => panic!("expected Fail"),
    }
}

#[test]
fn all_checks_and_texts_pass() {
    let checks = vec!["kubectl get nodes".to_string(), "kubectl get pods".to_string()];
    let results = vec![ok("node-1 Ready"), ok("web-0 Running")];
    let expected = vec!["Ready".to_string(), "Running".to_string()];
    assert!(matches!(verify_outcome(&checks, &results, &expected), VerifyOutcome::Pass));
}

#[test]
fn deterministic_coach_prefers_the_fallback_hint() {
    let mut s = step();
    s.fallback_hint = Some("look at the nodes".to_string());
    assert_eq!(DeterministicCoach::step_hint(&s), "Hint: look at the nodes");

    s.fallback_hint = None;
    assert_eq!(DeterministicCoach::step_hint(&s), "Hint: start with `kind create cluster`");

    s.run_commands = Vec::new();
    assert_eq!(
        DeterministicCoach::step_hint(&s),
        "Hint: run the first checklist item, then use verify."
    );
}

#[test]
fn built_coach_answers_through_the_trait() {
    let coach = build_coach();
    let hint = coach.hint(&step(), &Vec::new());
    assert_eq!(hint, "Hint: start with `kind create cluster`");
}

#[test]
fn progress_store_keeps_its_path() {
    let store = ProgressStore::new("/home/user/.cka-coach/progress.json".to_string());
    assert_eq!(store.path(), "/home/user/.cka-coach/progress.json");
}
