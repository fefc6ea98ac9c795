//! What holds of every evaluation.

use crate::decision::{PolicyDecision, FULL_CONFIDENCE, VIOLATION_CONFIDENCE};
use crate::defaults::default_rules;
use crate::engine::RustPolicyEngine;
use crate::model::{lemma_first_with_id_is_unique, EngineModel};
use crate::pattern::{lowercased, pattern_matches};
use vstd::prelude::*;

verus! {

/// Without a violation among the first `count` rules, none is listed.
pub proof fn lemma_no_violation_lists_nothing(model: EngineModel, count: nat, text: Seq<char>)
    requires
        count <= model.rules.len(),
        forall|index: int| 0 <= index < count ==> !model.violates(index, text),
    ensures
        model.scan_among(count, text).violated_rules == Seq::<Seq<char>>::empty(),
    decreases count,
{
    if count > 0 {
        lemma_no_violation_lists_nothing(model, (count - 1) as nat, text);
    }
}

/// Every enabled rule is tried: a rule that a text violates is listed,
/// whatever the rules before it gave.
pub proof fn lemma_violation_is_listed(
    model: EngineModel,
    count: nat,
    text: Seq<char>,
    index: int,
)
    requires
        0 <= index < count <= model.rules.len(),
        model.violates(index, text),
    ensures
        model.scan_among(count, text).violated_rules.contains(model.rules[index].id),
    decreases count,
{
    let earlier = model.scan_among((count - 1) as nat, text).violated_rules;
    if index == count - 1 {
        assert(earlier.push(model.rules[index].id).last() == model.rules[index].id);
    } else {
        lemma_violation_is_listed(model, (count - 1) as nat, text, index);
        let position = choose|position: int|
            0 <= position < earlier.len() && earlier[position] == model.rules[index].id;
        assert(model.scan_among(count, text).violated_rules[position] == model.rules[index].id);
    }
}

/// Only violated rules are listed: each identifier in the list is that of a
/// rule that the text violates.
pub proof fn lemma_listed_is_violated(
    model: EngineModel,
    count: nat,
    text: Seq<char>,
    id: Seq<char>,
)
    requires
        count <= model.rules.len(),
        model.scan_among(count, text).violated_rules.contains(id),
    ensures
        exists|index: int|
            0 <= index < count && model.violates(index, text) && model.rules[index].id == id,
    decreases count,
{
    if count > 0 {
        let earlier = model.scan_among((count - 1) as nat, text).violated_rules;
        if model.violates(count - 1, text) && model.rules[count - 1].id == id {
        } else {
            let position = choose|position: int|
                0 <= position < model.scan_among(count, text).violated_rules.len()
                    && model.scan_among(count, text).violated_rules[position] == id;
            assert(earlier[position] == id);
            lemma_listed_is_violated(model, (count - 1) as nat, text, id);
        }
    }
}

/// If the rule at `only` is the one rule among the first `count` that a text
/// violates, the list holds its identifier and nothing else.
pub proof fn lemma_single_violation_is_listed_alone(
    model: EngineModel,
    count: nat,
    text: Seq<char>,
    only: int,
)
    requires
        0 <= only < model.rules.len(),
        count <= model.rules.len(),
        model.violates(only, text),
        forall|index: int| 0 <= index < count && index != only ==> !model.violates(index, text),
    ensures
        model.scan_among(count, text).violated_rules == (if only < count {
            seq![model.rules[only].id]
        } else {
            Seq::<Seq<char>>::empty()
        }),
    decreases count,
{
    if count > 0 {
        lemma_single_violation_is_listed_alone(model, (count - 1) as nat, text, only);
    }
}

/// The highest priority that a scan reports is at least 0 and at least the
/// priority of every violated rule, and it is 0 or the priority of a violated
/// rule.
pub proof fn lemma_highest_priority_is_the_maximum(
    model: EngineModel,
    count: nat,
    text: Seq<char>,
)
    requires
        count <= model.rules.len(),
    ensures
        ({
            let highest = model.scan_among(count, text).highest_priority;
            &&& highest >= 0
            &&& forall|index: int|
                0 <= index < count && model.violates(index, text) ==> (
                #[trigger] model.rules[index]).priority <= highest
            &&& highest == 0 || exists|index: int|
                0 <= index < count && model.violates(index, text) && (
                #[trigger] model.rules[index]).priority == highest
        }),
    decreases count,
{
    if count > 0 {
        lemma_highest_priority_is_the_maximum(model, (count - 1) as nat, text);
        let earlier = model.scan_among((count - 1) as nat, text).highest_priority;
        let highest = model.scan_among(count, text).highest_priority;
        if highest != 0 {
            if model.violates(count - 1, text) && model.rules[count - 1].priority > earlier {
                assert(model.rules[count - 1].priority == highest);
            } else {
                let index = choose|index: int|
                    0 <= index < count - 1 && model.violates(index, text) && (
                    #[trigger] model.rules[index]).priority == earlier;
                assert(model.rules[index].priority == highest);
            }
        }
    }
}

/// A message that violates no rule is allowed, with full confidence and an
/// empty list of violated rules.
pub proof fn lemma_unmatched_message_is_allowed(model: EngineModel, message: Seq<char>)
    requires
        forall|index: int|
            0 <= index < model.rules.len() ==> !model.violates(index, lowercased(message)),
    ensures
        model.verdict(message).allowed,
        model.verdict(message).confidence_percent == FULL_CONFIDENCE,
        model.verdict(message).violated_rules == Seq::<Seq<char>>::empty(),
        model.verdict(message).reason == "Message passes all ethical checks"@,
{
    lemma_no_violation_lists_nothing(model, model.rules.len(), lowercased(message));
}

/// A message that violates a rule is blocked, with the lower confidence, and
/// the identifier of that rule is among the violated rules.
pub proof fn lemma_matched_message_is_blocked(model: EngineModel, message: Seq<char>, index: int)
    requires
        0 <= index < model.rules.len(),
        model.violates(index, lowercased(message)),
    ensures
        !model.verdict(message).allowed,
        model.verdict(message).confidence_percent == VIOLATION_CONFIDENCE,
        model.verdict(message).violated_rules.contains(model.rules[index].id),
{
    lemma_violation_is_listed(model, model.rules.len(), lowercased(message), index);
}

/// A message is allowed exactly if it violates no rule.
pub proof fn lemma_allowed_iff_no_violation(model: EngineModel, message: Seq<char>)
    ensures
        model.verdict(message).allowed <==> forall|index: int|
            0 <= index < model.rules.len() ==> !model.violates(index, lowercased(message)),
{
    let text = lowercased(message);
    if forall|index: int| 0 <= index < model.rules.len() ==> !model.violates(index, text) {
        lemma_no_violation_lists_nothing(model, model.rules.len(), text);
    } else {
        let index = choose|index: int|
            0 <= index < model.rules.len() && model.violates(index, text);
        lemma_violation_is_listed(model, model.rules.len(), text, index);
    }
}

/// Switching a rule on or off changes neither whether another rule is
/// violated nor whether the pattern of the rule itself matches.
pub proof fn lemma_toggle_touches_one_rule(
    model: EngineModel,
    switched: int,
    enabled: bool,
    text: Seq<char>,
)
    requires
        0 <= switched < model.rules.len(),
    ensures
        forall|index: int|
            0 <= index < model.rules.len() && index != switched ==> (#[trigger] model.with_enabled(
                switched,
                enabled,
            ).violates(index, text)) == model.violates(index, text),
        model.with_enabled(switched, enabled).violates(switched, text) == (enabled
            && model.matches(switched, text)),
{
}

/// Disabling a rule allows a message that violates that rule only, and
/// enabling the rule again brings the violation back.
///
/// The rule is named by its identifier, which stands for the first rule in
/// the list that has it.
pub proof fn lemma_disable_then_enable(
    model: EngineModel,
    id: Seq<char>,
    message: Seq<char>,
    index: int,
)
    requires
        model.is_first_with_id(id, index),
        model.matches(index, lowercased(message)),
        forall|other: int|
            0 <= other < model.rules.len() && other != index ==> !model.violates(
                other,
                lowercased(message),
            ),
    ensures
        model.toggled(id, false).verdict(message).allowed,
        !model.toggled(id, false).toggled(id, true).verdict(message).allowed,
        model.toggled(id, false).toggled(id, true).verdict(message).violated_rules == seq![id],
{
    let text = lowercased(message);
    let disabled = model.with_enabled(index, false);
    let restored = disabled.with_enabled(index, true);
    lemma_first_with_id_is_unique(model, id, index);
    assert(model.toggled(id, false) == disabled);
    assert(disabled.is_first_with_id(id, index)) by {
        assert forall|earlier: int| 0 <= earlier < index implies (
        #[trigger] disabled.rules[earlier]).id != id by {
            assert(disabled.rules[earlier] == model.rules[earlier]);
        }
    }
    lemma_first_with_id_is_unique(disabled, id, index);
    assert(disabled.toggled(id, true) == restored);
    lemma_toggle_touches_one_rule(model, index, false, text);
    lemma_toggle_touches_one_rule(disabled, index, true, text);
    assert forall|other: int| 0 <= other < disabled.rules.len() implies !disabled.violates(
        other,
        text,
    ) by {
        if other != index {
            assert(disabled.violates(other, text) == model.violates(other, text));
        }
    }
    lemma_no_violation_lists_nothing(disabled, disabled.rules.len(), text);
    assert forall|other: int|
        0 <= other < restored.rules.len() && other != index implies !restored.violates(
        other,
        text,
    ) by {
        assert(restored.violates(other, text) == disabled.violates(other, text));
    }
    lemma_single_violation_is_listed_alone(restored, restored.rules.len(), text, index);
}

/// While the rules and the compiled patterns are in step, a rule is matched
/// with the pattern of the last rule that was added under its identifier: its
/// own pattern, unless a later rule has the same identifier.
pub proof fn lemma_last_pattern_is_in_force(
    model: EngineModel,
    index: int,
    last: int,
    text: Seq<char>,
)
    requires
        model.wf(),
        0 <= index < model.rules.len(),
        model.is_last_with_id(model.rules[index].id, last),
    ensures
        model.matches(index, text) == pattern_matches(model.rules[last].pattern, text),
{
    assert(model.patterns.contains_key(model.rules[index].id));
    assert(model.is_last_with_id(model.rules[last].id, last));
}

/// The built-in rules are four, under four different identifiers, and all of
/// them are enabled.
pub proof fn lemma_default_rules_are_distinct()
    ensures
        default_rules().len() == 4,
        forall|first: int, second: int|
            0 <= first < second < 4 ==> default_rules()[first].id != default_rules()[second].id,
        forall|index: int| 0 <= index < 4 ==> (#[trigger] default_rules()[index]).enabled,
{
    reveal_strlit("no_harm");
    reveal_strlit("no_personal_data");
    reveal_strlit("no_illegal");
    reveal_strlit("no_hate_speech");
    assert(default_rules()[0].id.len() == 7);
    assert(default_rules()[1].id.len() == 16);
    assert(default_rules()[2].id.len() == 10);
    assert(default_rules()[3].id.len() == 14);
}

/// An engine with the built-in rules, as a new engine has them, blocks a
/// message exactly if the pattern of one of these rules matches the message
/// in lower case, and it lists every rule whose pattern does.
pub proof fn lemma_built_in_rules_decide_by_their_patterns(model: EngineModel, message: Seq<char>)
    requires
        model.rules == default_rules(),
        model.wf(),
    ensures
        forall|index: int|
            0 <= index < 4 ==> #[trigger] model.violates(index, lowercased(message))
                == pattern_matches(default_rules()[index].pattern, lowercased(message)),
        model.verdict(message).allowed <==> forall|index: int|
            0 <= index < 4 ==> !pattern_matches(
                (#[trigger] default_rules()[index]).pattern,
                lowercased(message),
            ),
        forall|index: int|
            0 <= index < 4 && pattern_matches(
                (#[trigger] default_rules()[index]).pattern,
                lowercased(message),
            ) ==> model.verdict(message).violated_rules.contains(default_rules()[index].id),
{
    let text = lowercased(message);
    lemma_default_rules_are_distinct();
    assert forall|index: int| 0 <= index < 4 implies #[trigger] model.violates(index, text)
        == pattern_matches(default_rules()[index].pattern, text) by {
        assert(model.is_last_with_id(model.rules[index].id, index));
        lemma_last_pattern_is_in_force(model, index, index, text);
    }
    lemma_allowed_iff_no_violation(model, message);
    assert forall|index: int|
        0 <= index < 4 && pattern_matches(
            (#[trigger] default_rules()[index]).pattern,
            text,
        ) implies model.verdict(message).violated_rules.contains(default_rules()[index].id) by {
        assert(model.violates(index, text));
        lemma_matched_message_is_blocked(model, message, index);
    }
    if model.verdict(message).allowed {
        assert forall|index: int| 0 <= index < 4 implies !pattern_matches(
            (#[trigger] default_rules()[index]).pattern,
            text,
        ) by {
            assert(!model.violates(index, text));
        }
    } else {
        let index = choose|index: int|
            0 <= index < model.rules.len() && model.violates(index, text);
        assert(pattern_matches(default_rules()[index].pattern, text));
    }
}

/// Evaluation is repeatable: it is a function of the state of the engine and
/// the message, so two evaluations of one message by an engine whose rules
/// have not changed give the same decision.
pub proof fn lemma_evaluation_is_repeatable(
    before: RustPolicyEngine,
    after: RustPolicyEngine,
    message: Seq<char>,
    first: PolicyDecision,
    second: PolicyDecision,
)
    requires
        before@ == after@,
        first@ == before@.verdict(message),
        second@ == after@.verdict(message),
    ensures
        first@ == second@,
{
}

} // verus!
