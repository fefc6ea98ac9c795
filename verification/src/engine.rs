//! The engine: a list of rules, their compiled patterns, and the evaluation
//! of messages against them.

use crate::decision::PolicyDecision;
use crate::defaults::{default_rule_table, default_rules};
use crate::error::PolicyError;
use crate::laws::{lemma_allowed_iff_no_violation, lemma_matched_message_is_blocked};
use crate::model::{
    all_compile, is_first_refused, lemma_added_all_appends, lemma_first_with_id_is_unique,
    lemma_with_enabled_keeps_wf, lemma_with_rule_keeps_wf, EngineModel,
};
use crate::pattern::{
    lowercased, pattern_compiles, regex_is_match, source_of, CompiledPattern,
};
use crate::report::ScanReport;
use crate::rule::{rule_models, EthicalRule};
use vstd::hash_map::StringHashMap;
use vstd::prelude::*;

verus! {

/// Checks messages against a set of rules.
///
/// The engine is not synchronised: it is meant for one caller at a time.
pub struct RustPolicyEngine {
    rules: Vec<EthicalRule>,
    compiled_patterns: StringHashMap<CompiledPattern>,
}

impl View for RustPolicyEngine {
    type V = EngineModel;

    closed spec fn view(&self) -> EngineModel {
        EngineModel {
            rules: rule_models(self.rules@),
            patterns: self.compiled_patterns@.map_values(|compiled: CompiledPattern| compiled@),
        }
    }
}

impl RustPolicyEngine {
    /// Makes an engine with the built-in rules. It fails only if the pattern
    /// of a built-in rule does not compile.
    pub fn new() -> (result: Result<Self, PolicyError>)
        ensures
            match result {
                Ok(engine) => {
                    &&& all_compile(default_rules())
                    &&& engine@.rules == default_rules()
                    &&& engine@ == EngineModel::empty().added_all(default_rules())
                    &&& engine@.wf()
                },
                Err(error) => error == PolicyError::InvalidPattern && !all_compile(
                    default_rules(),
                ),
            },
    {
        let mut engine = RustPolicyEngine {
            rules: Vec::new(),
            compiled_patterns: StringHashMap::new(),
        };
        assert(engine@ =~= EngineModel::empty());
        match engine.initialize_default_rules() {
            Ok(()) => {
                proof {
                    lemma_added_all_appends(EngineModel::empty(), default_rules());
                }
                Ok(engine)
            },
            Err(error) => Err(error),
        }
    }

    /// Adds a rule, given what compiling a pattern for it gave. With a
    /// compiled pattern the rule is appended and the compiled pattern stored
    /// under the rule's identifier, in place of any earlier one. With an
    /// error the rule is refused, nothing changes, and the error is handed
    /// back.
    ///
    /// The rules and the compiled patterns stay in step if the pattern that
    /// was compiled is the rule's own.
    pub fn install_rule(
        &mut self,
        rule: EthicalRule,
        outcome: Result<CompiledPattern, PolicyError>,
    ) -> (result: Result<(), PolicyError>)
        ensures
            final(self)@ == old(self)@.installed(rule@, source_of(outcome)),
            result == (match outcome {
                Ok(_) => Ok::<(), PolicyError>(()),
                Err(error) => Err::<(), PolicyError>(error),
            }),
            old(self)@.wf() && (outcome matches Ok(compiled) ==> compiled@ == rule@.pattern)
                ==> final(self)@.wf(),
    {
        match outcome {
            Ok(compiled) => {
                self.compiled_patterns.insert(rule.id.clone(), compiled);
                self.rules.push(rule);
                proof {
                    assert(self@.rules =~= old(self)@.rules.push(rule@));
                    assert(self@.patterns =~= old(self)@.patterns.insert(rule@.id, compiled@));
                    if old(self)@.wf() && compiled@ == rule@.pattern {
                        lemma_with_rule_keeps_wf(old(self)@, rule@);
                    }
                }
                Ok(())
            },
            Err(error) => Err(error),
        }
    }

    /// Adds a rule. The pattern is compiled first: if it is not a valid
    /// regular expression the rule is refused and the engine is unchanged.
    pub fn add_rule(&mut self, rule: EthicalRule) -> (result: Result<(), PolicyError>)
        ensures
            final(self)@ == old(self)@.added(rule@),
            result == (if pattern_compiles(rule@.pattern) {
                Ok::<(), PolicyError>(())
            } else {
                Err::<(), PolicyError>(PolicyError::InvalidPattern)
            }),
            old(self)@.wf() ==> final(self)@.wf(),
    {
        let outcome = CompiledPattern::compile(rule.pattern.as_str());
        self.install_rule(rule, outcome)
    }

    /// Matches every enabled rule against a text as it stands, in the order
    /// of the rule list, and reports the violated rules with the highest
    /// priority among them. No rule ends the scan early.
    pub fn scan(&self, text: &str) -> (report: ScanReport)
        ensures
            report@ == self@.scan(text@),
    {
        let mut report = ScanReport::new();
        let mut index: usize = 0;
        while index < self.rules.len()
            invariant
                index <= self.rules.len(),
                report@ == self@.scan_among(index as nat, text@),
            decreases self.rules.len() - index,
        {
            let rule = &self.rules[index];
            assert(self@.rules[index as int] == rule@);
            if rule.enabled {
                match self.compiled_patterns.get(rule.id.as_str()) {
                    Some(compiled) => {
                        let found = regex_is_match(compiled, text);
                        report.record(rule, found);
                    },
                    None => {},
                }
            }
            index += 1;
        }
        report
    }

    /// Decides whether a message may pass. The message is put in lower case,
    /// every enabled rule is matched against it, and all violated rules are
    /// listed. The engine is not changed.
    pub fn check_compliance(&self, message: &str) -> (decision: PolicyDecision)
        ensures
            decision@ == self@.verdict(message@),
            decision.allowed <==> forall|index: int|
                0 <= index < self@.rules.len() ==> !self@.violates(index, lowercased(message@)),
            forall|index: int|
                0 <= index < self@.rules.len() && self@.violates(index, lowercased(message@))
                    ==> decision@.violated_rules.contains((#[trigger] self@.rules[index]).id),
    {
        let lowered = message.to_lowercase();
        let report = self.scan(lowered.as_str());
        proof {
            lemma_allowed_iff_no_violation(self@, message@);
            assert forall|index: int|
                0 <= index < self@.rules.len() && self@.violates(
                    index,
                    lowercased(message@),
                ) implies self@.verdict(message@).violated_rules.contains(
                (#[trigger] self@.rules[index]).id,
            ) by {
                lemma_matched_message_is_blocked(self@, message@, index);
            }
        }
        PolicyDecision::from_violations(report.violated_rules)
    }

    /// Returns a copy of the rules, in the order in which they were added.
    pub fn get_rules(&self) -> (rules: Vec<EthicalRule>)
        ensures
            rule_models(rules@) == self@.rules,
    {
        let rules = self.rules.clone();
        assert(rules@ =~= self.rules@);
        rules
    }

    /// Switches on the first rule with this identifier.
    pub fn enable_rule(&mut self, rule_id: &str) -> (result: Result<(), PolicyError>)
        ensures
            final(self)@ == old(self)@.toggled(rule_id@, true),
            final(self)@.patterns == old(self)@.patterns,
            result == (if old(self)@.has_id(rule_id@) {
                Ok::<(), PolicyError>(())
            } else {
                Err::<(), PolicyError>(PolicyError::RuleNotFound)
            }),
            old(self)@.wf() ==> final(self)@.wf(),
    {
        self.set_enabled(rule_id, true)
    }

    /// Switches off the first rule with this identifier. The rule stays in
    /// the list, and evaluations skip it.
    pub fn disable_rule(&mut self, rule_id: &str) -> (result: Result<(), PolicyError>)
        ensures
            final(self)@ == old(self)@.toggled(rule_id@, false),
            final(self)@.patterns == old(self)@.patterns,
            result == (if old(self)@.has_id(rule_id@) {
                Ok::<(), PolicyError>(())
            } else {
                Err::<(), PolicyError>(PolicyError::RuleNotFound)
            }),
            old(self)@.wf() ==> final(self)@.wf(),
    {
        self.set_enabled(rule_id, false)
    }

    fn set_enabled(&mut self, rule_id: &str, enabled: bool) -> (result: Result<(), PolicyError>)
        ensures
            final(self)@ == old(self)@.toggled(rule_id@, enabled),
            final(self)@.patterns == old(self)@.patterns,
            result == (if old(self)@.has_id(rule_id@) {
                Ok::<(), PolicyError>(())
            } else {
                Err::<(), PolicyError>(PolicyError::RuleNotFound)
            }),
            old(self)@.wf() ==> final(self)@.wf(),
    {
        let wanted = rule_id.to_owned();
        let mut index: usize = 0;
        while index < self.rules.len()
            invariant
                index <= self.rules.len(),
                *self == *old(self),
                wanted@ == rule_id@,
                forall|earlier: int|
                    0 <= earlier < index ==> (#[trigger] self@.rules[earlier]).id != rule_id@,
            decreases self.rules.len() - index,
        {
            if self.rules[index].id == wanted {
                proof {
                    lemma_first_with_id_is_unique(self@, rule_id@, index as int);
                    if self@.wf() {
                        lemma_with_enabled_keeps_wf(self@, index as int, enabled);
                    }
                }
                self.rules[index].enabled = enabled;
                assert(self@.rules =~= old(self)@.rules.update(
                    index as int,
                    old(self)@.rules[index as int].with_enabled(enabled),
                ));
                return Ok(());
            }
            index += 1;
        }
        Err(PolicyError::RuleNotFound)
    }

    /// Adds the built-in rules, one after the other, and stops at the first
    /// whose pattern does not compile.
    fn initialize_default_rules(&mut self) -> (result: Result<(), PolicyError>)
        ensures
            all_compile(default_rules()) ==> result is Ok && final(self)@ == old(self)@.added_all(
                default_rules(),
            ),
            !all_compile(default_rules()) ==> result == Err::<(), PolicyError>(
                PolicyError::InvalidPattern,
            ) && exists|count: int|
                is_first_refused(default_rules(), count) && final(self)@ == old(self)@.added_all(
                    default_rules().take(count),
                ),
            old(self)@.wf() ==> final(self)@.wf(),
    {
        let table = default_rule_table();
        let mut index: usize = 0;
        assert(default_rules().take(0) =~= Seq::empty());
        while index < table.len()
            invariant
                index <= table.len(),
                rule_models(table@) == default_rules(),
                self@ == old(self)@.added_all(default_rules().take(index as int)),
                old(self)@.wf() ==> self@.wf(),
                forall|earlier: int|
                    0 <= earlier < index ==> pattern_compiles(
                        (#[trigger] default_rules()[earlier]).pattern,
                    ),
            decreases table.len() - index,
        {
            let rule = table[index].clone();
            assert(rule@ == default_rules()[index as int]);
            assert(default_rules().take(index + 1).drop_last() =~= default_rules().take(
                index as int,
            ));
            match self.add_rule(rule) {
                Ok(()) => {},
                Err(error) => {
                    assert(is_first_refused(default_rules(), index as int));
                    return Err(error);
                },
            }
            index += 1;
        }
        assert(default_rules().take(table.len() as int) =~= default_rules());
        Ok(())
    }
}

} // verus!
