//! The outcome of evaluating one message.

use crate::text::{
    comma_separated, debug_strings, debug_texts, decimal, decimal_string, hundredths,
    hundredths_string, join_comma_separated, texts,
};
use vstd::prelude::*;
use vstd::string::StringExecFns;

verus! {

/// The confidence of a decision that allows a message, in hundredths.
pub const FULL_CONFIDENCE: u8 = 100;

/// The confidence of a decision that blocks a message, in hundredths.
pub const VIOLATION_CONFIDENCE: u8 = 95;

/// Whether a message may pass, and the rules that it violates.
#[derive(Debug)]
pub struct PolicyDecision {
    /// Whether the message violates no rule.
    pub allowed: bool,
    /// How sure the decision is, in hundredths: 100 stands for 1.00.
    pub confidence_percent: u8,
    /// The decision in words.
    pub reason: String,
    /// The identifiers of the violated rules, in the order of the rule list.
    pub violated_rules: Vec<String>,
}

/// The mathematical value of a decision.
#[verifier::ext_equal]
pub struct DecisionModel {
    pub allowed: bool,
    pub confidence_percent: int,
    pub reason: Seq<char>,
    pub violated_rules: Seq<Seq<char>>,
}

/// The reason given for a decision with this many violations.
pub open spec fn reason_text(violations: nat) -> Seq<char> {
    if violations == 0 {
        "Message passes all ethical checks"@
    } else {
        "Violated "@ + decimal(violations) + " rule(s)"@
    }
}

/// The decision that follows from a list of violated rules: the message is
/// allowed exactly if the list is empty, and the confidence is one of two
/// fixed values.
pub open spec fn decide(violations: Seq<Seq<char>>) -> DecisionModel {
    DecisionModel {
        allowed: violations.len() == 0,
        confidence_percent: if violations.len() == 0 {
            FULL_CONFIDENCE as int
        } else {
            VIOLATION_CONFIDENCE as int
        },
        reason: reason_text(violations.len()),
        violated_rules: violations,
    }
}

/// `true` or `false`, written out.
pub open spec fn bool_text(value: bool) -> Seq<char> {
    if value {
        "true"@
    } else {
        "false"@
    }
}

/// The text that shows a decision, given its rule identifiers as they are to
/// appear in the list.
pub open spec fn rendering(
    allowed: bool,
    confidence_percent: nat,
    reason: Seq<char>,
    listed_rules: Seq<Seq<char>>,
) -> Seq<char> {
    "Decision(allowed="@ + bool_text(allowed) + ", confidence="@ + hundredths(confidence_percent)
        + ", reason='"@ + reason + "', violated_rules=["@ + comma_separated(listed_rules) + "])"@
}

impl DecisionModel {
    /// The text that shows the decision. The confidence has two decimal
    /// places, and each rule identifier stands as `Debug` formatting writes it.
    pub open spec fn repr(self) -> Seq<char> {
        rendering(
            self.allowed,
            self.confidence_percent as nat,
            self.reason,
            debug_texts(self.violated_rules),
        )
    }
}

impl View for PolicyDecision {
    type V = DecisionModel;

    open spec fn view(&self) -> DecisionModel {
        DecisionModel {
            allowed: self.allowed,
            confidence_percent: self.confidence_percent as int,
            reason: self.reason@,
            violated_rules: texts(self.violated_rules@),
        }
    }
}

impl Clone for PolicyDecision {
    fn clone(&self) -> (copy: Self)
        ensures
            copy@ == self@,
    {
        let violated_rules = self.violated_rules.clone();
        assert(texts(violated_rules@) =~= texts(self.violated_rules@));
        PolicyDecision {
            allowed: self.allowed,
            confidence_percent: self.confidence_percent,
            reason: self.reason.clone(),
            violated_rules,
        }
    }
}

/// Writes out the text that shows a decision, given its rule identifiers as
/// they are to appear in the list.
pub fn render(
    allowed: bool,
    confidence_percent: u8,
    reason: &str,
    listed_rules: &Vec<String>,
) -> (text: String)
    ensures
        text@ == rendering(allowed, confidence_percent as nat, reason@, texts(listed_rules@)),
{
    let mut text = String::from_str("Decision(allowed=");
    text.append(if allowed { "true" } else { "false" });
    text.append(", confidence=");
    text.append(hundredths_string(confidence_percent).as_str());
    text.append(", reason='");
    text.append(reason);
    text.append("', violated_rules=[");
    text.append(join_comma_separated(listed_rules).as_str());
    text.append("])");
    text
}

impl PolicyDecision {
    /// Aggregates the violated rules into a decision.
    pub fn from_violations(violated_rules: Vec<String>) -> (decision: Self)
        ensures
            decision@ == decide(texts(violated_rules@)),
    {
        let allowed = violated_rules.len() == 0;
        let confidence_percent = if allowed { FULL_CONFIDENCE } else { VIOLATION_CONFIDENCE };
        let reason = if allowed {
            String::from_str("Message passes all ethical checks")
        } else {
            let mut reason = String::from_str("Violated ");
            reason.append(decimal_string(violated_rules.len()).as_str());
            reason.append(" rule(s)");
            reason
        };
        PolicyDecision { allowed, confidence_percent, reason, violated_rules }
    }

    /// Shows the decision as text, for display and debugging.
    pub fn repr(&self) -> (text: String)
        ensures
            text@ == self@.repr(),
    {
        let listed = debug_strings(&self.violated_rules);
        render(self.allowed, self.confidence_percent, self.reason.as_str(), &listed)
    }
}

} // verus!
