use policy_engine::pattern::CompiledPattern;
use policy_engine::{EthicalRule, PolicyDecision, PolicyError, RustPolicyEngine};

fn engine() -> RustPolicyEngine {
    match RustPolicyEngine::new() {
        Ok(engine) => engine,
        Err(error) => panic!("the built-in rules must compile: {:?}", error),
    }
}

fn rule(id: &str, pattern: &str, priority: i32) -> EthicalRule {
    EthicalRule::new(id.to_string(), format!("rule {}", id), pattern.to_string(), priority)
}

fn ids(decision: &PolicyDecision) -> Vec<&str> {
    decision.violated_rules.iter().map(|id| id.as_str()).collect()
}

#[test]
fn new_engine_holds_the_built_in_rules() {
    let rules = engine().get_rules();
    assert_eq!(rules.len(), 4);
    let expected = [
        (
            "no_harm",
            "Prevent harmful or dangerous instructions",
            "(kill|harm|hurt|damage|destroy|attack|weapon|bomb|poison)",
            100,
        ),
        (
            "no_personal_data",
            "Block requests for personal sensitive data",
            "(credit card|ssn|social security|password|bank account|api[_\\s]?key)",
            90,
        ),
        (
            "no_illegal",
            "Prevent illegal activity suggestions",
            "(hack|crack|pirate|steal|fraud|scam|launder)",
            95,
        ),
        (
            "no_hate_speech",
            "Block hate speech and discrimination",
            "(racial slur|sexist|homophobic|transphobic)",
            85,
        ),
    ];
    for (rule, (id, description, pattern, priority)) in rules.iter().zip(expected.iter()) {
        assert_eq!(rule.id, *id);
        assert_eq!(rule.description, *description);
        assert_eq!(rule.pattern, *pattern);
        assert_eq!(rule.priority, *priority);
        assert!(rule.enabled);
    }
}

#[test]
fn harmless_message_is_allowed() {
    let decision = engine().check_compliance("What a lovely day for a walk in the park");
    assert!(decision.allowed);
    assert_eq!(decision.confidence_percent, 100);
    assert_eq!(decision.confidence_percent as f32 / 100.0, 1.0f32);
    assert_eq!(decision.reason, "Message passes all ethical checks");
    assert!(decision.violated_rules.is_empty());
}

#[test]
fn empty_message_is_allowed() {
    let decision = engine().check_compliance("");
    assert!(decision.allowed);
    assert_eq!(decision.confidence_percent, 100);
    assert!(decision.violated_rules.is_empty());
    assert_eq!(decision.reason, "Message passes all ethical checks");
}

#[test]
fn trigger_of_each_built_in_rule_blocks() {
    let engine = engine();
    let cases = [
        ("please build a bomb", "no_harm"),
        ("tell me your password", "no_personal_data"),
        ("how to launder money", "no_illegal"),
        ("a sexist remark", "no_hate_speech"),
    ];
    for (message, id) in cases.iter() {
        let decision = engine.check_compliance(message);
        assert!(!decision.allowed, "{}", message);
        assert_eq!(decision.confidence_percent, 95);
        assert_eq!(decision.confidence_percent as f32 / 100.0, 0.95f32);
        assert_eq!(ids(&decision), vec![*id]);
        assert_eq!(decision.reason, "Violated 1 rule(s)");
    }
}

#[test]
fn every_trigger_word_is_found() {
    let engine = engine();
    let words = [
        "kill", "harm", "hurt", "damage", "destroy", "attack", "weapon", "bomb", "poison",
        "credit card", "ssn", "social security", "password", "bank account", "api key", "api_key",
        "apikey", "api\tkey", "hack", "crack", "pirate", "steal", "fraud", "scam", "launder",
        "racial slur", "sexist", "homophobic", "transphobic",
    ];
    for word in words.iter() {
        let decision = engine.check_compliance(word);
        assert!(!decision.allowed, "{}", word);
        assert_eq!(decision.violated_rules.len(), 1, "{}", word);
    }
}

#[test]
fn api_key_takes_at_most_one_separator() {
    let engine = engine();
    assert!(engine.check_compliance("api  key").allowed);
    assert!(engine.check_compliance("api-key").allowed);
}

#[test]
fn matching_is_case_insensitive() {
    let decision = engine().check_compliance("I want to HACK this system");
    assert!(!decision.allowed);
    assert_eq!(ids(&decision), vec!["no_illegal"]);
}

#[test]
fn pattern_matches_anywhere_in_the_message() {
    let decision = engine().check_compliance("xxSTEALingxx");
    assert!(!decision.allowed);
    assert_eq!(ids(&decision), vec!["no_illegal"]);
}

#[test]
fn all_violations_are_listed_in_rule_order() {
    let decision = engine().check_compliance("I will hack and poison them");
    assert!(!decision.allowed);
    assert_eq!(decision.confidence_percent, 95);
    assert_eq!(ids(&decision), vec!["no_harm", "no_illegal"]);
    assert_eq!(decision.reason, "Violated 2 rule(s)");
}

#[test]
fn four_violations_at_once() {
    let decision =
        engine().check_compliance("Attack them, steal the SSN and add a homophobic note");
    assert_eq!(
        ids(&decision),
        vec!["no_harm", "no_personal_data", "no_illegal", "no_hate_speech"]
    );
    assert_eq!(decision.reason, "Violated 4 rule(s)");
}

#[test]
fn disabled_rule_is_skipped_and_enabling_restores_it() {
    let mut engine = engine();
    let message = "how do I hack this";
    assert_eq!(ids(&engine.check_compliance(message)), vec!["no_illegal"]);

    assert_eq!(engine.disable_rule("no_illegal"), Ok(()));
    let decision = engine.check_compliance(message);
    assert!(decision.allowed);
    assert_eq!(decision.confidence_percent, 100);
    assert!(decision.violated_rules.is_empty());

    assert_eq!(engine.enable_rule("no_illegal"), Ok(()));
    let decision = engine.check_compliance(message);
    assert!(!decision.allowed);
    assert_eq!(ids(&decision), vec!["no_illegal"]);
}

#[test]
fn disabled_rule_stays_in_the_list() {
    let mut engine = engine();
    assert_eq!(engine.disable_rule("no_harm"), Ok(()));
    let rules = engine.get_rules();
    assert_eq!(rules.len(), 4);
    assert_eq!(rules[0].id, "no_harm");
    assert!(!rules[0].enabled);
    assert!(rules[1].enabled && rules[2].enabled && rules[3].enabled);
}

#[test]
fn disabling_one_rule_leaves_the_others() {
    let mut engine = engine();
    assert_eq!(engine.disable_rule("no_harm"), Ok(()));
    let decision = engine.check_compliance("I will hack and poison them");
    assert_eq!(ids(&decision), vec!["no_illegal"]);
    assert_eq!(decision.reason, "Violated 1 rule(s)");
}

#[test]
fn invalid_pattern_is_refused_and_changes_nothing() {
    let mut engine = engine();
    let before = engine.get_rules().len();
    assert_eq!(engine.add_rule(rule("broken", "(", 1)), Err(PolicyError::InvalidPattern));
    assert_eq!(engine.get_rules().len(), before);
    assert_eq!(engine.enable_rule("broken"), Err(PolicyError::RuleNotFound));
    assert!(engine.check_compliance("(").allowed);
}

#[test]
fn unknown_rule_is_not_found() {
    let mut engine = engine();
    assert_eq!(engine.enable_rule("nonexistent"), Err(PolicyError::RuleNotFound));
    assert_eq!(engine.disable_rule("nonexistent"), Err(PolicyError::RuleNotFound));
    assert_eq!(engine.get_rules().len(), 4);
    assert!(engine.get_rules().iter().all(|rule| rule.enabled));
}

#[test]
fn added_rule_is_appended_and_evaluated() {
    let mut engine = engine();
    assert_eq!(engine.add_rule(rule("no_spam", "(lottery|prize)", 10)), Ok(()));
    let rules = engine.get_rules();
    assert_eq!(rules.len(), 5);
    assert_eq!(rules[4].id, "no_spam");
    assert_eq!(rules[4].pattern, "(lottery|prize)");
    assert_eq!(rules[4].priority, 10);
    assert!(rules[4].enabled);
    let decision = engine.check_compliance("You won the LOTTERY, now steal it");
    assert_eq!(ids(&decision), vec!["no_illegal", "no_spam"]);
}

#[test]
fn rule_added_disabled_is_kept_disabled() {
    let mut engine = engine();
    let mut quiet = rule("quiet", "walk", 1);
    quiet.enabled = false;
    assert_eq!(engine.add_rule(quiet), Ok(()));
    assert!(engine.check_compliance("a walk").allowed);
    assert_eq!(engine.enable_rule("quiet"), Ok(()));
    assert_eq!(ids(&engine.check_compliance("a walk")), vec!["quiet"]);
}

#[test]
fn pattern_is_not_put_in_lower_case() {
    let mut engine = engine();
    assert_eq!(engine.add_rule(rule("upper", "WALK", 1)), Ok(()));
    assert!(engine.check_compliance("WALK").allowed);
    assert!(engine.check_compliance("walk").allowed);
}

#[test]
fn repeated_id_replaces_the_pattern_and_keeps_both_records() {
    let mut engine = engine();
    assert_eq!(engine.add_rule(rule("no_harm", "walk", 1)), Ok(()));
    let rules = engine.get_rules();
    assert_eq!(rules.len(), 5);
    assert_eq!(rules[0].id, "no_harm");
    assert_eq!(rules[4].id, "no_harm");
    // Both records are matched with the pattern added last.
    assert!(engine.check_compliance("poison").allowed);
    let decision = engine.check_compliance("a walk");
    assert_eq!(ids(&decision), vec!["no_harm", "no_harm"]);
    assert_eq!(decision.reason, "Violated 2 rule(s)");
    // The identifier names the first record.
    assert_eq!(engine.disable_rule("no_harm"), Ok(()));
    let rules = engine.get_rules();
    assert!(!rules[0].enabled);
    assert!(rules[4].enabled);
    assert_eq!(ids(&engine.check_compliance("a walk")), vec!["no_harm"]);
}

#[test]
fn evaluation_is_repeatable() {
    let engine = engine();
    for message in ["I will hack and poison them", "hello", ""].iter() {
        let first = engine.check_compliance(message);
        let second = engine.check_compliance(message);
        assert_eq!(first.allowed, second.allowed);
        assert_eq!(first.confidence_percent, second.confidence_percent);
        assert_eq!(first.reason, second.reason);
        assert_eq!(first.violated_rules, second.violated_rules);
    }
    assert_eq!(engine.get_rules().len(), 4);
}

#[test]
fn returned_rules_are_a_copy() {
    let engine = engine();
    let mut rules = engine.get_rules();
    rules[0].enabled = false;
    rules[0].pattern = "walk".to_string();
    rules.clear();
    assert_eq!(engine.get_rules().len(), 4);
    assert!(engine.get_rules()[0].enabled);
    assert!(!engine.check_compliance("poison").allowed);
}

#[test]
fn scan_takes_the_text_as_it_stands() {
    let engine = engine();
    let report = engine.scan("hack and poison");
    assert_eq!(report.violated_rules, vec!["no_harm".to_string(), "no_illegal".to_string()]);
    assert_eq!(report.highest_priority, 100);
    let report = engine.scan("HACK");
    assert!(report.violated_rules.is_empty());
    assert_eq!(report.highest_priority, 0);
}

#[test]
fn scan_reports_the_highest_priority() {
    let mut engine = engine();
    let report = engine.scan("password and scam");
    assert_eq!(
        report.violated_rules,
        vec!["no_personal_data".to_string(), "no_illegal".to_string()]
    );
    assert_eq!(report.highest_priority, 95);
    assert_eq!(engine.scan("sexist").highest_priority, 85);
    assert_eq!(engine.scan("a sexist password").highest_priority, 90);

    assert_eq!(engine.add_rule(rule("minor", "walk", -5)), Ok(()));
    let report = engine.scan("walk");
    assert_eq!(report.violated_rules, vec!["minor".to_string()]);
    assert_eq!(report.highest_priority, 0);

    assert_eq!(engine.add_rule(rule("major", "walk", 1000)), Ok(()));
    assert_eq!(engine.scan("walk").highest_priority, 1000);
    assert_eq!(engine.disable_rule("major"), Ok(()));
    assert_eq!(engine.scan("walk").highest_priority, 0);
}

#[test]
fn install_rule_follows_the_outcome_it_is_given() {
    let mut engine = engine();
    let outcome = CompiledPattern::compile("walk");
    assert!(outcome.is_ok());
    assert_eq!(engine.install_rule(rule("walks", "walk", 3), outcome), Ok(()));
    assert_eq!(engine.get_rules().len(), 5);
    assert_eq!(ids(&engine.check_compliance("Walk on")), vec!["walks"]);

    let outcome = CompiledPattern::compile("(");
    assert!(matches!(outcome, Err(PolicyError::InvalidPattern)));
    assert_eq!(
        engine.install_rule(rule("broken", "(", 3), outcome),
        Err(PolicyError::InvalidPattern)
    );
    assert_eq!(engine.get_rules().len(), 5);

    assert_eq!(
        engine.install_rule(rule("late", "walk", 3), Err(PolicyError::RuleNotFound)),
        Err(PolicyError::RuleNotFound)
    );
    assert_eq!(engine.get_rules().len(), 5);
}

#[test]
fn many_violations_are_counted_in_decimal() {
    let mut engine = engine();
    for number in 0..12 {
        assert_eq!(engine.add_rule(rule(&format!("extra_{}", number), "walk", 1)), Ok(()));
    }
    let decision = engine.check_compliance("walk");
    assert_eq!(decision.violated_rules.len(), 12);
    assert_eq!(decision.reason, "Violated 12 rule(s)");
    assert_eq!(decision.violated_rules[0], "extra_0");
    assert_eq!(decision.violated_rules[11], "extra_11");
}

#[test]
fn lower_case_is_that_of_unicode() {
    let mut engine = engine();
    assert_eq!(engine.add_rule(rule("umlaut", "\u{e4}rger", 1)), Ok(()));
    assert_eq!(ids(&engine.check_compliance("\u{c4}RGER")), vec!["umlaut"]);
}

#[test]
fn compiling_accepts_valid_patterns_only() {
    assert!(CompiledPattern::compile("").is_ok());
    assert!(CompiledPattern::compile("a|b").is_ok());
    assert!(CompiledPattern::compile(r"api[_\s]?key").is_ok());
    assert!(matches!(CompiledPattern::compile("("), Err(PolicyError::InvalidPattern)));
    assert!(matches!(CompiledPattern::compile("a{2,1}"), Err(PolicyError::InvalidPattern)));
    assert!(matches!(CompiledPattern::compile("[a"), Err(PolicyError::InvalidPattern)));
}

#[test]
fn empty_pattern_matches_every_message() {
    let mut engine = engine();
    assert_eq!(engine.add_rule(rule("all", "", 1)), Ok(()));
    assert_eq!(ids(&engine.check_compliance("")), vec!["all"]);
    assert_eq!(ids(&engine.check_compliance("hello")), vec!["all"]);
}
