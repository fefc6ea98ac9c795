//! The rules that every engine starts with.

use crate::rule::{rule_models, EthicalRule, RuleModel};
use vstd::prelude::*;
use vstd::string::StringExecFns;

verus! {

/// The built-in rules, in the order in which an engine adds them: harm,
/// exposure of personal data, illegal activity, hate speech.
pub open spec fn default_rules() -> Seq<RuleModel> {
    seq![
        RuleModel {
            id: "no_harm"@,
            description: "Prevent harmful or dangerous instructions"@,
            pattern: "(kill|harm|hurt|damage|destroy|attack|weapon|bomb|poison)"@,
            priority: 100,
            enabled: true,
        },
        RuleModel {
            id: "no_personal_data"@,
            description: "Block requests for personal sensitive data"@,
            pattern: r"(credit card|ssn|social security|password|bank account|api[_\s]?key)"@,
            priority: 90,
            enabled: true,
        },
        RuleModel {
            id: "no_illegal"@,
            description: "Prevent illegal activity suggestions"@,
            pattern: "(hack|crack|pirate|steal|fraud|scam|launder)"@,
            priority: 95,
            enabled: true,
        },
        RuleModel {
            id: "no_hate_speech"@,
            description: "Block hate speech and discrimination"@,
            pattern: "(racial slur|sexist|homophobic|transphobic)"@,
            priority: 85,
            enabled: true,
        },
    ]
}

/// Builds the table of the built-in rules.
pub fn default_rule_table() -> (table: Vec<EthicalRule>)
    ensures
        rule_models(table@) == default_rules(),
{
    let mut table: Vec<EthicalRule> = Vec::new();
    table.push(
        EthicalRule::new(
            String::from_str("no_harm"),
            String::from_str("Prevent harmful or dangerous instructions"),
            String::from_str("(kill|harm|hurt|damage|destroy|attack|weapon|bomb|poison)"),
            100,
        ),
    );
    table.push(
        EthicalRule::new(
            String::from_str("no_personal_data"),
            String::from_str("Block requests for personal sensitive data"),
            String::from_str(
                r"(credit card|ssn|social security|password|bank account|api[_\s]?key)",
            ),
            90,
        ),
    );
    table.push(
        EthicalRule::new(
            String::from_str("no_illegal"),
            String::from_str("Prevent illegal activity suggestions"),
            String::from_str("(hack|crack|pirate|steal|fraud|scam|launder)"),
            95,
        ),
    );
    table.push(
        EthicalRule::new(
            String::from_str("no_hate_speech"),
            String::from_str("Block hate speech and discrimination"),
            String::from_str("(racial slur|sexist|homophobic|transphobic)"),
            85,
        ),
    );
    assert(rule_models(table@) =~= default_rules());
    table
}

} // verus!
