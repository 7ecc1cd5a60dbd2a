use harbor_core::permissions::{disclosure_banner, first_run_plan, parse_answer, prompt_text, undecided, FirstRunPlan, Grants};

fn strings(v: &[&str]) -> Vec<String> {
    v.iter().map(|s| s.to_string()).collect()
}

#[test]
fn no_permissions_skips_everything() {
    assert!(undecided(&[], &Grants::empty()).is_empty());
}

#[test]
fn fully_decided_permissions_skip_prompt() {
    let grants = Grants { granted: strings(&["network"]), denied: strings(&["filesystem"]) };
    assert!(undecided(&strings(&["network", "filesystem"]), &grants).is_empty());
}

#[test]
fn duplicate_declared_permissions_count_as_one() {
    let grants = Grants { granted: strings(&["network"]), denied: vec![] };
    assert!(undecided(&strings(&["network", "network"]), &grants).is_empty());
    assert_eq!(undecided(&strings(&["camera", "network", "camera"]), &Grants::empty()), strings(&["camera", "network"]));
}

#[test]
fn stale_grants_with_matching_count_still_prompt_for_undeclared_names() {
    let grants = Grants { granted: strings(&["camera", "location"]), denied: vec![] };
    assert_eq!(undecided(&strings(&["network"]), &grants), strings(&["network"]));
    assert!(!grants.is_decided("network"));
}

#[test]
fn recording_an_answer_decides_the_permission() {
    let mut g = Grants::empty();
    g.record("network", true);
    g.record("camera", false);
    assert_eq!(g.granted, strings(&["network"]));
    assert_eq!(g.denied, strings(&["camera"]));
    assert!(g.is_decided("network") && g.is_decided("camera"));
    assert!(undecided(&strings(&["network", "camera", "mic"]), &g) == strings(&["mic"]));
}

#[test]
fn answers_are_read_case_insensitively() {
    assert_eq!(parse_answer("y\n"), Some(true));
    assert_eq!(parse_answer("  YES "), Some(true));
    assert_eq!(parse_answer("n"), Some(false));
    assert_eq!(parse_answer("No\r\n"), Some(false));
    assert_eq!(parse_answer("maybe"), None);
    assert_eq!(parse_answer(""), None);
}

#[test]
fn prompt_texts() {
    assert_eq!(prompt_text("network"), "  • network — grant? [y/n] ");
    assert_eq!(
        disclosure_banner("test", "1.0.0"),
        "Package test v1.0.0 requires the following permissions (disclosure-only, not enforced in V1):"
    );
}

#[test]
fn non_interactive_run_does_not_persist_grants() {
    let perms = strings(&["network"]);
    assert_eq!(first_run_plan(&perms, &Grants::empty(), false), FirstRunPlan::DiscloseOnly(strings(&["network"])));
    assert_eq!(first_run_plan(&perms, &Grants::empty(), true), FirstRunPlan::Ask(strings(&["network"])));
    let decided = Grants { granted: strings(&["network"]), denied: vec![] };
    assert_eq!(first_run_plan(&perms, &decided, true), FirstRunPlan::Skip);
    assert_eq!(first_run_plan(&[], &Grants::empty(), true), FirstRunPlan::Skip);
}
