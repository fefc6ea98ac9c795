use policy_engine::report::ScanReport;
use policy_engine::EthicalRule;

fn rule(id: &str, priority: i32) -> EthicalRule {
    EthicalRule::new(id.to_string(), String::new(), "x".to_string(), priority)
}

#[test]
fn new_report_is_empty() {
    let report = ScanReport::new();
    assert!(report.violated_rules.is_empty());
    assert_eq!(report.highest_priority, 0);
}

#[test]
fn rule_that_was_not_found_leaves_no_trace() {
    let mut report = ScanReport::new();
    report.record(&rule("a", 50), false);
    assert!(report.violated_rules.is_empty());
    assert_eq!(report.highest_priority, 0);
}

#[test]
fn found_rules_are_listed_in_order() {
    let mut report = ScanReport::new();
    report.record(&rule("b", 50), true);
    report.record(&rule("skipped", 99), false);
    report.record(&rule("a", 70), true);
    report.record(&rule("b", 60), true);
    assert_eq!(report.violated_rules, vec!["b".to_string(), "a".to_string(), "b".to_string()]);
    assert_eq!(report.highest_priority, 70);
}

#[test]
fn highest_priority_never_falls_below_zero() {
    let mut report = ScanReport::new();
    report.record(&rule("low", -3), true);
    assert_eq!(report.violated_rules, vec!["low".to_string()]);
    assert_eq!(report.highest_priority, 0);
    report.record(&rule("least", i32::MIN), true);
    assert_eq!(report.highest_priority, 0);
    report.record(&rule("most", i32::MAX), true);
    assert_eq!(report.highest_priority, i32::MAX);
    report.record(&rule("zero", 0), true);
    assert_eq!(report.highest_priority, i32::MAX);
    assert_eq!(report.violated_rules.len(), 4);
}

#[test]
fn disabled_rule_can_still_be_recorded() {
    let mut quiet = rule("quiet", 5);
    quiet.enabled = false;
    let mut report = ScanReport::new();
    report.record(&quiet, true);
    assert_eq!(report.violated_rules, vec!["quiet".to_string()]);
    assert_eq!(report.highest_priority, 5);
}
