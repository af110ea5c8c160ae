//! The impact estimate: complexity, effort tier, risks and benefits.
use crate::domain::models::{EffortTier, ImpactView, NewModuleProposal, RefactoringImpact};
use crate::proposer::index::{duplicated_names, SubroutineAssignmentIndex};
use crate::text::{decimal, decimal_text};
use vstd::prelude::*;

verus! {

/// The largest complexity that still counts as low effort.
pub const LOW_EFFORT_LIMIT: u32 = 2;

/// The largest complexity that still counts as medium effort.
pub const MEDIUM_EFFORT_LIMIT: u32 = 5;

/// The number of modules above which maintenance overhead is named as a risk.
pub const MANY_MODULES: usize = 5;

pub const DUPLICATION_RISK: &'static str =
    " subroutines appear in multiple modules, which may lead to code duplication";

pub const MAINTENANCE_RISK: &'static str =
    "Large number of modules may increase maintenance overhead";

pub const ORGANIZATION_BENEFIT: &'static str =
    "Improved code organization with clear separation of responsibilities";

pub const MAINTAINABILITY_BENEFIT: &'static str = "Better maintainability through modular design";

pub const FOCUS_BENEFIT_OPENING: &'static str = "Reduced cognitive load with ";

pub const FOCUS_BENEFIT_CLOSING: &'static str = " focused modules";

/// The effort tier of a complexity: low up to two, medium up to five, high above.
pub open spec fn effort_for(complexity: nat) -> EffortTier {
    if complexity <= LOW_EFFORT_LIMIT {
        EffortTier::Low
    } else if complexity <= MEDIUM_EFFORT_LIMIT {
        EffortTier::Medium
    } else {
        EffortTier::High
    }
}

/// The risks of a proposal of `modules` modules in which `duplicated`
/// sub-routines were claimed more than once: a duplication warning that
/// states the count, then a maintenance warning for more than five modules.
pub open spec fn risks_for(modules: nat, duplicated: nat) -> Seq<Seq<char>> {
    let duplication = if duplicated > 0 {
        seq![decimal(duplicated) + DUPLICATION_RISK@]
    } else {
        Seq::empty()
    };
    let maintenance = if modules > MANY_MODULES {
        seq![MAINTENANCE_RISK@]
    } else {
        Seq::empty()
    };
    duplication + maintenance
}

/// The three benefits; the last states the number of modules.
pub open spec fn benefits_for(modules: nat) -> Seq<Seq<char>> {
    seq![
        ORGANIZATION_BENEFIT@,
        MAINTAINABILITY_BENEFIT@,
        FOCUS_BENEFIT_OPENING@ + decimal(modules) + FOCUS_BENEFIT_CLOSING@,
    ]
}

/// The impact of a proposal of `modules` modules in which `duplicated`
/// sub-routines were claimed more than once.
pub open spec fn impact_of(modules: nat, duplicated: nat) -> ImpactView {
    ImpactView {
        complexity: modules + duplicated,
        effort: effort_for(modules + duplicated),
        risks: risks_for(modules, duplicated),
        benefits: benefits_for(modules),
    }
}

/// The effort tier of `complexity`.
pub fn effort_tier(complexity: u32) -> (r: EffortTier)
    ensures
        r == effort_for(complexity as nat),
{
    if complexity <= LOW_EFFORT_LIMIT {
        EffortTier::Low
    } else if complexity <= MEDIUM_EFFORT_LIMIT {
        EffortTier::Medium
    } else {
        EffortTier::High
    }
}

/// Estimates the impact of `modules` proposed modules with `duplicated`
/// sub-routines claimed more than once.
pub fn estimate_impact(modules: usize, duplicated: usize) -> (r: RefactoringImpact)
    requires
        modules + duplicated <= u32::MAX,
    ensures
        r@ == impact_of(modules as nat, duplicated as nat),
{
    let complexity: u32 = (modules + duplicated) as u32;
    let mut risks: Vec<String> = Vec::new();
    if duplicated > 0 {
        let mut risk = decimal_text(duplicated as u64);
        risk.append(DUPLICATION_RISK);
        risks.push(risk);
    }
    if modules > MANY_MODULES {
        risks.push(String::from_str(MAINTENANCE_RISK));
    }
    let mut focus = String::from_str(FOCUS_BENEFIT_OPENING);
    let count = decimal_text(modules as u64);
    focus.append(count.as_str());
    focus.append(FOCUS_BENEFIT_CLOSING);
    let mut benefits: Vec<String> = Vec::new();
    benefits.push(String::from_str(ORGANIZATION_BENEFIT));
    benefits.push(String::from_str(MAINTAINABILITY_BENEFIT));
    benefits.push(focus);
    proof {
        assert(risks.deep_view() =~= risks_for(modules as nat, duplicated as nat));
        assert(benefits.deep_view() =~= benefits_for(modules as nat));
    }
    RefactoringImpact { complexity, effort: effort_tier(complexity), risks, benefits }
}

/// Estimates the impact of a proposal from its modules and the claims
/// recorded while they were built: the complexity is the number of modules
/// plus the number of sub-routines claimed more than once.
pub fn analyze_impact(
    suggested_modules: &Vec<NewModuleProposal>,
    index: &SubroutineAssignmentIndex,
) -> (r: RefactoringImpact)
    requires
        suggested_modules.len() + duplicated_names(index@).len() <= u32::MAX,
    ensures
        r@ == impact_of(suggested_modules.len() as nat, duplicated_names(index@).len()),
{
    let duplicated = index.duplicated_count();
    estimate_impact(suggested_modules.len(), duplicated)
}

} // verus!
