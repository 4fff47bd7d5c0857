use cka_buddy_tui::loader::{
    canonical_heading, first_section_text, merged_section_items, parse_sections,
    strip_list_prefix, weight_from_type,
};

fn lines(list: &[&str]) -> Vec<String> {
    list.iter().map(|s| s.to_string()).collect()
}

#[test]
fn headings_are_canonicalised() {
    assert_eq!(canonical_heading("  Run  "), "run");
    assert_eq!(canonical_heading("Success Metric"), "success metric");
    assert_eq!(canonical_heading(""), "");
}

#[test]
fn list_prefixes_are_stripped() {
    assert_eq!(strip_list_prefix("- item "), Some("item".to_string()));
    assert_eq!(strip_list_prefix("3) run it"), Some("run it".to_string()));
    assert_eq!(strip_list_prefix("12. check"), Some("check".to_string()));
    assert_eq!(strip_list_prefix("plain text"), None);
    assert_eq!(strip_list_prefix("3x"), None);
    assert_eq!(strip_list_prefix("10)x"), None);
    assert_eq!(strip_list_prefix("-dash"), None);
}

#[test]
fn weight_prefers_an_explicit_value() {
    let meta = |pairs: &[(&str, &str)]| -> Vec<(String, String)> {
        pairs.iter().map(|(k, v)| (k.to_string(), v.to_string())).collect()
    };
    assert_eq!(weight_from_type(&meta(&[("ready_weight", "5")])), 5);
    assert_eq!(weight_from_type(&meta(&[("ready_weight", "0"), ("type", "exam")])), 1);
    assert_eq!(weight_from_type(&meta(&[("ready_weight", "abc"), ("type", "project")])), 3);
    assert_eq!(weight_from_type(&meta(&[("type", "bug")])), 2);
    assert_eq!(weight_from_type(&meta(&[("type", "exam")])), 4);
    assert_eq!(weight_from_type(&meta(&[("type", "quiz")])), 1);
    assert_eq!(weight_from_type(&meta(&[])), 1);
}

#[test]
fn sections_collect_their_lines() {
    let doc = lines(&[
        "# Title",
        "id: project-00",
        "## Run",
        "- `kubectl get pods`",
        "then look around",
        "",
        "## Verify",
        "1. `kubectl get nodes`",
    ]);
    let sections = parse_sections(&doc);
    assert_eq!(sections.len(), 2);
    assert_eq!(sections[0].0, "run");
    assert_eq!(sections[0].1, vec!["`kubectl get pods`", "then look around"]);
    assert_eq!(sections[1].0, "verify");
    assert_eq!(sections[1].1, vec!["`kubectl get nodes`"]);
}

#[test]
fn aliased_sections_are_found_in_order() {
    let doc = lines(&[
        "## Mission",
        "Fix the cluster",
        "## Deliverables",
        "- step one",
        "## Run",
        "- step two",
    ]);
    let sections = parse_sections(&doc);
    let objective = first_section_text(&sections, &vec!["objective", "mission"]);
    assert_eq!(objective, Some("Fix the cluster".to_string()));
    let merged = merged_section_items(&sections, &vec!["run", "deliverables"]);
    assert_eq!(merged, vec!["step two", "step one"]);
    assert_eq!(first_section_text(&sections, &vec!["scoring"]), None);
}
