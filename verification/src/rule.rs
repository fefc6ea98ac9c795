//! A rule: one named, pattern-based check.

use vstd::prelude::*;

verus! {

/// One compliance check: a pattern that a message must not match.
#[derive(Debug)]
pub struct EthicalRule {
    /// The name of the rule. It is the key under which the engine keeps the
    /// compiled pattern, and the name listed for a violation.
    pub id: String,
    /// What the rule is for, in words.
    pub description: String,
    /// The source text of a regular expression.
    pub pattern: String,
    /// The severity of the rule: the higher, the more severe.
    pub priority: i32,
    /// Whether the rule takes part in an evaluation.
    pub enabled: bool,
}

/// The mathematical value of a rule.
#[verifier::ext_equal]
pub struct RuleModel {
    pub id: Seq<char>,
    pub description: Seq<char>,
    pub pattern: Seq<char>,
    pub priority: int,
    pub enabled: bool,
}

impl RuleModel {
    /// The same rule, switched on or off.
    pub open spec fn with_enabled(self, enabled: bool) -> RuleModel {
        RuleModel { enabled, ..self }
    }
}

impl View for EthicalRule {
    type V = RuleModel;

    open spec fn view(&self) -> RuleModel {
        RuleModel {
            id: self.id@,
            description: self.description@,
            pattern: self.pattern@,
            priority: self.priority as int,
            enabled: self.enabled,
        }
    }
}

impl EthicalRule {
    /// Makes an enabled rule. The pattern is not examined here: the engine
    /// compiles it when the rule is added.
    pub fn new(id: String, description: String, pattern: String, priority: i32) -> (rule: Self)
        ensures
            rule@ == (RuleModel {
                id: id@,
                description: description@,
                pattern: pattern@,
                priority: priority as int,
                enabled: true,
            }),
    {
        EthicalRule { id, description, pattern, priority, enabled: true }
    }
}

impl Clone for EthicalRule {
    fn clone(&self) -> (copy: Self)
        ensures
            copy == *self,
    {
        EthicalRule {
            id: self.id.clone(),
            description: self.description.clone(),
            pattern: self.pattern.clone(),
            priority: self.priority,
            enabled: self.enabled,
        }
    }
}

/// The values of the rules of a list, in the order of the list.
pub open spec fn rule_models(rules: Seq<EthicalRule>) -> Seq<RuleModel> {
    rules.map_values(|rule: EthicalRule| rule@)
}

} // verus!
