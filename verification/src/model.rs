//! The mathematical model of the engine: its rules, its compiled patterns,
//! and what an evaluation returns for them.

use crate::decision::{decide, DecisionModel};
use crate::pattern::{lowercased, pattern_compiles, pattern_matches};
use crate::report::ReportModel;
use crate::rule::RuleModel;
use vstd::prelude::*;

verus! {

/// The state of an engine: the rules in the order in which they were added,
/// and for each rule identifier the pattern whose compiled form is stored
/// under it.
#[verifier::ext_equal]
pub struct EngineModel {
    pub rules: Seq<RuleModel>,
    pub patterns: Map<Seq<char>, Seq<char>>,
}

impl EngineModel {
    /// The engine without rules.
    pub open spec fn empty() -> EngineModel {
        EngineModel { rules: Seq::empty(), patterns: Map::empty() }
    }

    /// The state after a rule was appended and a compiled pattern stored
    /// under the rule's identifier, in place of any earlier one.
    pub open spec fn with_rule(self, rule: RuleModel, pattern: Seq<char>) -> EngineModel {
        EngineModel {
            rules: self.rules.push(rule),
            patterns: self.patterns.insert(rule.id, pattern),
        }
    }

    /// The state after an attempt to add a rule, given the pattern that was
    /// compiled for it: without one the rule is refused and nothing changes.
    pub open spec fn installed(self, rule: RuleModel, compiled: Option<Seq<char>>) -> EngineModel {
        match compiled {
            Some(pattern) => self.with_rule(rule, pattern),
            None => self,
        }
    }

    /// The state after an attempt to add a rule: a rule whose pattern does
    /// not compile is refused.
    pub open spec fn added(self, rule: RuleModel) -> EngineModel {
        if pattern_compiles(rule.pattern) {
            self.with_rule(rule, rule.pattern)
        } else {
            self
        }
    }

    /// The state after the rules of a batch were added one after the other.
    pub open spec fn added_all(self, batch: Seq<RuleModel>) -> EngineModel
        decreases batch.len(),
    {
        if batch.len() == 0 {
            self
        } else {
            self.added_all(batch.drop_last()).added(batch.last())
        }
    }

    /// Whether some rule has this identifier.
    pub open spec fn has_id(self, id: Seq<char>) -> bool {
        exists|index: int| 0 <= index < self.rules.len() && (#[trigger] self.rules[index]).id == id
    }

    /// Whether the rule at `index` is the first in the list with this
    /// identifier.
    pub open spec fn is_first_with_id(self, id: Seq<char>, index: int) -> bool {
        &&& 0 <= index < self.rules.len()
        &&& self.rules[index].id == id
        &&& forall|earlier: int| 0 <= earlier < index ==> (#[trigger] self.rules[earlier]).id != id
    }

    /// Whether the rule at `index` is the last in the list with this
    /// identifier.
    pub open spec fn is_last_with_id(self, id: Seq<char>, index: int) -> bool {
        &&& 0 <= index < self.rules.len()
        &&& self.rules[index].id == id
        &&& forall|later: int|
            index < later < self.rules.len() ==> (#[trigger] self.rules[later]).id != id
    }

    /// The state after the rule at `index` was switched on or off.
    pub open spec fn with_enabled(self, index: int, enabled: bool) -> EngineModel {
        EngineModel {
            rules: self.rules.update(index, self.rules[index].with_enabled(enabled)),
            patterns: self.patterns,
        }
    }

    /// The state after the first rule with this identifier was switched on or
    /// off. Without such a rule nothing changes.
    pub open spec fn toggled(self, id: Seq<char>, enabled: bool) -> EngineModel {
        if self.has_id(id) {
            self.with_enabled(choose|index: int| self.is_first_with_id(id, index), enabled)
        } else {
            self
        }
    }

    /// Whether the pattern of the rule at `index` matches a text: a compiled
    /// pattern is stored under the rule's identifier, and it matches
    /// somewhere in the text.
    pub open spec fn matches(self, index: int, text: Seq<char>) -> bool {
        let rule = self.rules[index];
        &&& self.patterns.contains_key(rule.id)
        &&& pattern_matches(self.patterns[rule.id], text)
    }

    /// Whether the rule at `index` is violated by a text: the rule is enabled
    /// and its pattern matches the text.
    pub open spec fn violates(self, index: int, text: Seq<char>) -> bool {
        self.rules[index].enabled && self.matches(index, text)
    }

    /// What a scan of the first `count` rules finds in a text: the rules are
    /// tried one after the other, in the order of the list.
    pub open spec fn scan_among(self, count: nat, text: Seq<char>) -> ReportModel
        decreases count,
    {
        if count == 0 {
            ReportModel::empty()
        } else {
            self.scan_among((count - 1) as nat, text).recorded(
                self.rules[count - 1],
                self.violates(count - 1, text),
            )
        }
    }

    /// What a scan of all the rules finds in a text.
    pub open spec fn scan(self, text: Seq<char>) -> ReportModel {
        self.scan_among(self.rules.len(), text)
    }

    /// The identifiers of the rules that a text violates, in the order of the
    /// rule list. An identifier is listed once for each violated rule that
    /// has it.
    pub open spec fn violations(self, text: Seq<char>) -> Seq<Seq<char>> {
        self.scan(text).violated_rules
    }

    /// The decision on a message: the rules are matched against the message
    /// in lower case, and every enabled rule is tried.
    pub open spec fn verdict(self, message: Seq<char>) -> DecisionModel {
        decide(self.violations(lowercased(message)))
    }

    /// Whether the compiled pattern stored under the identifier of the rule
    /// at `index` is that of the rule's own pattern.
    pub open spec fn cached_pattern_is_own(self, index: int) -> bool {
        self.patterns[self.rules[index].id] == self.rules[index].pattern
    }

    /// The rules and the compiled patterns are in step: a compiled pattern is
    /// stored under an identifier exactly if a rule has that identifier, and
    /// it is that of the last rule added under it.
    pub open spec fn wf(self) -> bool {
        &&& forall|index: int|
            0 <= index < self.rules.len() ==> self.patterns.contains_key(
                (#[trigger] self.rules[index]).id,
            )
        &&& forall|id: Seq<char>| #[trigger] self.patterns.contains_key(id) ==> self.has_id(id)
        &&& forall|index: int| #[trigger]
            self.is_last_with_id(self.rules[index].id, index) ==> self.cached_pattern_is_own(index)
    }
}

/// Whether the pattern of every rule of a batch compiles.
pub open spec fn all_compile(batch: Seq<RuleModel>) -> bool {
    forall|index: int|
        0 <= index < batch.len() ==> pattern_compiles((#[trigger] batch[index]).pattern)
}

/// Whether the rule at `index` is the first of a batch whose pattern does not
/// compile.
pub open spec fn is_first_refused(batch: Seq<RuleModel>, index: int) -> bool {
    &&& 0 <= index < batch.len()
    &&& !pattern_compiles(batch[index].pattern)
    &&& forall|earlier: int|
        0 <= earlier < index ==> pattern_compiles((#[trigger] batch[earlier]).pattern)
}

/// At most one rule is the first with a given identifier.
pub proof fn lemma_first_with_id_is_unique(model: EngineModel, id: Seq<char>, index: int)
    requires
        model.is_first_with_id(id, index),
    ensures
        model.has_id(id),
        (choose|other: int| model.is_first_with_id(id, other)) == index,
{
    let other = choose|other: int| model.is_first_with_id(id, other);
    assert(model.is_first_with_id(id, other));
    if other < index {
        assert(model.rules[other].id != id);
    }
    if index < other {
        assert(model.rules[index].id != id);
    }
}

/// Adding a rule with the compiled form of its own pattern keeps the rules
/// and the compiled patterns in step.
pub proof fn lemma_with_rule_keeps_wf(model: EngineModel, rule: RuleModel)
    requires
        model.wf(),
    ensures
        model.with_rule(rule, rule.pattern).wf(),
{
    let after = model.with_rule(rule, rule.pattern);
    let last = model.rules.len() as int;
    assert(after.rules[last] == rule);
    assert forall|index: int| 0 <= index < after.rules.len() implies after.patterns.contains_key(
        (#[trigger] after.rules[index]).id,
    ) by {
        if index < last {
            assert(after.rules[index] == model.rules[index]);
        }
    }
    assert forall|id: Seq<char>| #[trigger] after.patterns.contains_key(id) implies after.has_id(
        id,
    ) by {
        if id == rule.id {
            assert(after.rules[last].id == id);
        } else {
            assert(model.patterns.contains_key(id));
            let index = choose|index: int|
                0 <= index < model.rules.len() && (#[trigger] model.rules[index]).id == id;
            assert(after.rules[index].id == id);
        }
    }
    assert forall|index: int| #[trigger]
        after.is_last_with_id(after.rules[index].id, index) implies after.cached_pattern_is_own(
        index,
    ) by {
        if index < last {
            assert(after.rules[index] == model.rules[index]);
            assert(after.rules[last].id != after.rules[index].id);
            assert forall|later: int| index < later < model.rules.len() implies (
            #[trigger] model.rules[later]).id != model.rules[index].id by {
                assert(after.rules[later] == model.rules[later]);
            }
            assert(model.is_last_with_id(model.rules[index].id, index));
        }
    }
}

/// Switching a rule on or off keeps the rules and the compiled patterns in
/// step.
pub proof fn lemma_with_enabled_keeps_wf(model: EngineModel, index: int, enabled: bool)
    requires
        model.wf(),
        0 <= index < model.rules.len(),
    ensures
        model.with_enabled(index, enabled).wf(),
{
    let after = model.with_enabled(index, enabled);
    assert forall|other: int| 0 <= other < after.rules.len() implies (
    #[trigger] after.rules[other]).id == model.rules[other].id && after.rules[other].pattern
        == model.rules[other].pattern by {}
    assert forall|other: int| 0 <= other < after.rules.len() implies after.patterns.contains_key(
        (#[trigger] after.rules[other]).id,
    ) by {
        assert(after.rules[other].id == model.rules[other].id);
    }
    assert forall|id: Seq<char>| #[trigger] after.patterns.contains_key(id) implies after.has_id(
        id,
    ) by {
        let other = choose|other: int|
            0 <= other < model.rules.len() && (#[trigger] model.rules[other]).id == id;
        assert(after.rules[other].id == id);
    }
    assert forall|other: int| #[trigger]
        after.is_last_with_id(after.rules[other].id, other) implies after.cached_pattern_is_own(
        other,
    ) by {
        assert forall|later: int| other < later < model.rules.len() implies (
        #[trigger] model.rules[later]).id != model.rules[other].id by {
            assert(after.rules[later].id == model.rules[later].id);
        }
        assert(model.is_last_with_id(model.rules[other].id, other));
    }
}

/// Adding a batch of rules whose patterns all compile appends the batch to
/// the rule list.
pub proof fn lemma_added_all_appends(model: EngineModel, batch: Seq<RuleModel>)
    requires
        all_compile(batch),
    ensures
        model.added_all(batch).rules == model.rules + batch,
    decreases batch.len(),
{
    if batch.len() > 0 {
        lemma_added_all_appends(model, batch.drop_last());
        assert(pattern_compiles(batch[batch.len() - 1].pattern));
        assert(model.added_all(batch).rules =~= model.rules + batch);
    }
}

} // verus!
