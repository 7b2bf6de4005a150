//! The compliance agent's rules on a list of violations: how many there are
//! of each severity, what they add up to, and what is recommended.

use vstd::prelude::*;

verus! {

#[derive(Clone, Copy, Debug, PartialEq, Eq, Structural)]
pub enum ViolationSeverity {
    Critical,
    Warning,
    Info,
}

/// What a list of violations adds up to.
#[derive(Clone, Copy, Debug, PartialEq, Eq, Structural)]
pub enum ComplianceStatus {
    Compliant,
    ConditionallyCompliant,
    NonCompliant,
}

/// One breach of one rule.
#[derive(Clone, Debug)]
pub struct ComplianceViolation {
    pub rule: String,
    pub severity: ViolationSeverity,
    pub description: String,
    pub field: Option<String>,
    pub suggestion: String,
}

/// The regulations of one state.
#[derive(Clone, Debug)]
pub struct StateRegulations {
    pub state: String,
    pub rules: Vec<String>,
}

/// The rules that the agent checks against.
#[derive(Clone, Debug)]
pub struct ComplianceRuleset {
    pub uspap_rules: Vec<String>,
    pub uad_requirements: Vec<String>,
    pub state_regulations: Vec<StateRegulations>,
}

/// The violations found for one document, kept for later questions.
#[derive(Clone, Debug)]
pub struct CachedViolations {
    pub document: String,
    pub violations: Vec<ComplianceViolation>,
}

#[derive(Clone, Debug)]
pub struct ComplianceAgent {
    pub ruleset: ComplianceRuleset,
    pub violations_cache: Vec<CachedViolations>,
}

/// How many of `violations` are of the given severity.
pub open spec fn count_of(violations: Seq<ComplianceViolation>, severity: ViolationSeverity) -> nat
    decreases violations.len(),
{
    if violations.len() == 0 {
        0
    } else {
        count_of(violations.drop_last(), severity) + if violations.last().severity == severity {
            1nat
        } else {
            0nat
        }
    }
}

/// What a list of violations adds up to: one critical violation makes a
/// document non-compliant; without one, a warning makes it conditionally
/// compliant.
pub open spec fn standing(violations: Seq<ComplianceViolation>) -> ComplianceStatus {
    if count_of(violations, ViolationSeverity::Critical) > 0 {
        ComplianceStatus::NonCompliant
    } else if count_of(violations, ViolationSeverity::Warning) > 0 {
        ComplianceStatus::ConditionallyCompliant
    } else {
        ComplianceStatus::Compliant
    }
}

impl ComplianceAgent {
    /// An agent with an empty ruleset and an empty cache.
    pub fn new() -> (agent: ComplianceAgent)
        ensures
            agent.ruleset.uspap_rules@.len() == 0,
            agent.ruleset.uad_requirements@.len() == 0,
            agent.ruleset.state_regulations@.len() == 0,
            agent.violations_cache@.len() == 0,
    {
        ComplianceAgent {
            ruleset: ComplianceRuleset {
                uspap_rules: Vec::new(),
                uad_requirements: Vec::new(),
                state_regulations: Vec::new(),
            },
            violations_cache: Vec::new(),
        }
    }

    /// The name under which the agent is registered and addressed.
    pub fn id(&self) -> (id: &'static str)
        ensures
            id@ == "compliance-agent"@,
    {
        "compliance-agent"
    }

    /// The content types that the agent says it can handle.
    pub fn capabilities(&self) -> (list: Vec<String>)
        ensures
            list@.len() == 4,
            list@[0]@ == "uspap-compliance"@,
            list@[1]@ == "uad-compliance"@,
            list@[2]@ == "form-validation"@,
            list@[3]@ == "regulatory-review"@,
    {
        let mut list: Vec<String> = Vec::new();
        list.push("uspap-compliance".to_owned());
        list.push("uad-compliance".to_owned());
        list.push("form-validation".to_owned());
        list.push("regulatory-review".to_owned());
        list
    }

    /// Counts the violations of one severity.
    pub fn count_with_severity(&self, violations: &Vec<ComplianceViolation>, severity: ViolationSeverity) -> (count:
        usize)
        ensures
            count == count_of(violations@, severity),
    {
        let mut count: usize = 0;
        let mut i: usize = 0;
        while i < violations.len()
            invariant
                i <= violations.len(),
                count <= i,
                count == count_of(violations@.take(i as int), severity),
            decreases violations.len() - i,
        {
            proof {
                assert(violations@.take(i + 1).drop_last() =~= violations@.take(i as int));
            }
            if violations[i].severity == severity {
                count += 1;
            }
            i += 1;
        }
        proof {
            assert(violations@.take(i as int) =~= violations@);
        }
        count
    }

    /// What a list of violations adds up to.
    pub fn overall_status(&self, violations: &Vec<ComplianceViolation>) -> (status: ComplianceStatus)
        ensures
            status == standing(violations@),
    {
        if self.count_with_severity(violations, ViolationSeverity::Critical) > 0 {
            ComplianceStatus::NonCompliant
        } else if self.count_with_severity(violations, ViolationSeverity::Warning) > 0 {
            ComplianceStatus::ConditionallyCompliant
        } else {
            ComplianceStatus::Compliant
        }
    }

    /// The suggestion of every violation, in the order of the violations.
    pub fn generate_recommendations(&self, violations: &Vec<ComplianceViolation>) -> (recommendations: Vec<
        String,
    >)
        ensures
            recommendations@.len() == violations@.len(),
            forall|i: int|
                0 <= i < violations@.len() ==> (#[trigger] recommendations@[i])@ == violations@[i].suggestion@,
    {
        let mut recommendations: Vec<String> = Vec::new();
        let mut i: usize = 0;
        while i < violations.len()
            invariant
                i <= violations.len(),
                recommendations@.len() == i,
                forall|k: int| 0 <= k < i ==> (#[trigger] recommendations@[k])@ == violations@[k].suggestion@,
            decreases violations.len() - i,
        {
            recommendations.push(violations[i].suggestion.clone());
            i += 1;
        }
        recommendations
    }
}

} // verus!
