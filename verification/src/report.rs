//! What a scan of the rules has found so far.

use crate::rule::{EthicalRule, RuleModel};
use crate::text::texts;
use vstd::prelude::*;

verus! {

/// The rules that a text violates, and the highest priority among them.
#[derive(Debug)]
pub struct ScanReport {
    /// The identifiers of the violated rules, in the order in which they
    /// were recorded.
    pub violated_rules: Vec<String>,
    /// The highest priority of a violated rule, and 0 if that is higher or no
    /// rule is violated.
    pub highest_priority: i32,
}

/// The mathematical value of a report.
#[verifier::ext_equal]
pub struct ReportModel {
    pub violated_rules: Seq<Seq<char>>,
    pub highest_priority: int,
}

impl ReportModel {
    /// The report before any rule was tried.
    pub open spec fn empty() -> ReportModel {
        ReportModel { violated_rules: Seq::empty(), highest_priority: 0 }
    }

    /// The report after a rule was tried: a rule that was found violated is
    /// listed last, and its priority counts if it is the highest so far.
    pub open spec fn recorded(self, rule: RuleModel, found: bool) -> ReportModel {
        if found {
            ReportModel {
                violated_rules: self.violated_rules.push(rule.id),
                highest_priority: if rule.priority > self.highest_priority {
                    rule.priority
                } else {
                    self.highest_priority
                },
            }
        } else {
            self
        }
    }
}

impl View for ScanReport {
    type V = ReportModel;

    open spec fn view(&self) -> ReportModel {
        ReportModel {
            violated_rules: texts(self.violated_rules@),
            highest_priority: self.highest_priority as int,
        }
    }
}

impl ScanReport {
    /// The report before any rule was tried.
    pub fn new() -> (report: Self)
        ensures
            report@ == ReportModel::empty(),
    {
        ScanReport { violated_rules: Vec::new(), highest_priority: 0 }
    }

    /// Records whether a rule was found violated.
    pub fn record(&mut self, rule: &EthicalRule, found: bool)
        ensures
            final(self)@ == old(self)@.recorded(rule@, found),
    {
        if found {
            self.violated_rules.push(rule.id.clone());
            if rule.priority > self.highest_priority {
                self.highest_priority = rule.priority;
            }
            assert(texts(self.violated_rules@) =~= texts(old(self).violated_rules@).push(rule.id@));
        }
    }
}

} // verus!
