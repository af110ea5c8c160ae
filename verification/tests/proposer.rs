use secret_agent::domain::models::{
    Confidence, EffortTier, PerlModule, ResponsibilityCluster, Subroutine,
};
use secret_agent::domain::traits::DependencyValidator;
use secret_agent::error::Error;
use secret_agent::gateway::{Attempt, Decision, FailureKind, RetryPolicy};
use secret_agent::proposer::filter::select_clusters;
use secret_agent::proposer::impact::{analyze_impact, effort_tier, estimate_impact};
use secret_agent::proposer::index::SubroutineAssignmentIndex;
use secret_agent::proposer::prompt::{
    join_code, module_code_prompt, module_name_for, proposer_preamble,
};
use secret_agent::proposer::resolve::{
    add_new, collect_dependencies, lookup_subroutine, resolve_subroutines,
};
use secret_agent::proposer::synthesis::{
    assemble_proposal, build_module_proposal, generation_failure, high_confidence_clusters,
    GeneratedCode,
};
use secret_agent::proposer::DefaultRefactoringProposer;
use secret_agent::validator::DefaultDependencyValidator;

fn strings(items: &[&str]) -> Vec<String> {
    items.iter().map(|s| s.to_string()).collect()
}

fn sub(name: &str, deps: &[&str]) -> Subroutine {
    Subroutine {
        name: name.to_string(),
        code: format!("sub {} {{ }}", name),
        line_start: 1,
        line_end: 2,
        dependencies: strings(deps),
    }
}

fn cluster(name: &str, related: &[&str], millionths: u32) -> ResponsibilityCluster {
    ResponsibilityCluster {
        name: name.to_string(),
        description: format!("{} things", name),
        related_subroutines: strings(related),
        suggested_module_name: None,
        confidence: Confidence::from_millionths(millionths).unwrap(),
    }
}

fn module(subs: Vec<Subroutine>, clusters: Vec<ResponsibilityCluster>) -> PerlModule {
    PerlModule {
        name: "Calculator".to_string(),
        path: "Calculator.pm".to_string(),
        content: "package Calculator;".to_string(),
        subroutines: subs,
        dependencies: strings(&["strict", "warnings"]),
        responsibility_clusters: clusters,
    }
}

fn generated(clusters: Vec<ResponsibilityCluster>) -> Vec<GeneratedCode> {
    clusters
        .into_iter()
        .map(|c| GeneratedCode { code: format!("package {};", c.name), cluster: c })
        .collect()
}

#[test]
fn select_keeps_the_confident_clusters_in_order() {
    let clusters = vec![
        cluster("A", &[], 900_000),
        cluster("B", &[], 500_000),
        cluster("C", &[], 700_000),
        cluster("D", &[], 699_999),
        cluster("E", &[], 1_000_000),
    ];
    let kept = select_clusters(&clusters, Confidence::default_threshold());
    let names: Vec<&str> = kept.iter().map(|c| c.name.as_str()).collect();
    assert_eq!(names, vec!["A", "C", "E"]);
    assert_eq!(kept[0], clusters[0]);
    let all = select_clusters(&clusters, Confidence::from_millionths(0).unwrap());
    assert_eq!(all, clusters);
    let none = select_clusters(&vec![], Confidence::default_threshold());
    assert!(none.is_empty());
    let top = select_clusters(&clusters, Confidence::full());
    assert_eq!(top.len(), 1);
    assert_eq!(top[0].name, "E");
}

#[test]
fn select_is_idempotent() {
    let clusters = vec![
        cluster("A", &[], 900_000),
        cluster("B", &[], 500_000),
        cluster("C", &[], 750_000),
    ];
    for t in [0u32, 500_000, 700_000, 800_000, 1_000_000] {
        let threshold = Confidence::from_millionths(t).unwrap();
        let once = select_clusters(&clusters, threshold);
        let twice = select_clusters(&once, threshold);
        assert_eq!(once, twice);
    }
}

#[test]
fn default_threshold_is_seven_tenths() {
    assert_eq!(Confidence::default_threshold().millionths(), 700_000);
}

#[test]
fn lookup_takes_the_first_of_a_name() {
    let mut first = sub("x", &["One"]);
    first.code = "first".to_string();
    let subs = vec![sub("a", &[]), first, sub("x", &["Two"])];
    let found = lookup_subroutine(&subs, &"x".to_string()).unwrap();
    assert_eq!(found.code, "first");
    assert!(lookup_subroutine(&subs, &"missing".to_string()).is_none());
    assert!(lookup_subroutine(&vec![], &"x".to_string()).is_none());
}

#[test]
fn unknown_names_are_skipped() {
    let subs = vec![sub("x", &[]), sub("y", &[]), sub("z", &[])];
    let resolved = resolve_subroutines(&subs, &strings(&["z", "nope", "x", "z"]));
    let names: Vec<&str> = resolved.iter().map(|s| s.name.as_str()).collect();
    assert_eq!(names, vec!["z", "x", "z"]);
    assert_eq!(resolved[0], subs[2]);
    assert!(resolve_subroutines(&subs, &strings(&["nope"])).is_empty());
}

#[test]
fn dependencies_are_gathered_once_each() {
    let subs = vec![
        sub("x", &["List::Util", "DBI"]),
        sub("y", &["DBI", "Math::Complex", "DBI"]),
        sub("z", &[]),
    ];
    assert_eq!(
        collect_dependencies(&subs),
        strings(&["List::Util", "DBI", "Math::Complex"])
    );
    assert!(collect_dependencies(&vec![]).is_empty());
    let mut known = strings(&["a"]);
    add_new(&mut known, &strings(&["b", "a", "b", "c"]));
    assert_eq!(known, strings(&["a", "b", "c"]));
}

#[test]
fn module_name_is_suggested_or_derived() {
    let mut c = cluster("Data validation", &[], 900_000);
    assert_eq!(
        module_name_for(&"MyApp".to_string(), &c),
        "MyApp::Datavalidation"
    );
    c.name = " Order\tManagement ".to_string();
    assert_eq!(
        module_name_for(&"MyApp".to_string(), &c),
        "MyApp::OrderManagement"
    );
    c.suggested_module_name = Some("MyApp::Validation".to_string());
    assert_eq!(module_name_for(&"MyApp".to_string(), &c), "MyApp::Validation");
}

#[test]
fn code_is_joined_with_blank_lines() {
    let subs = vec![sub("x", &[]), sub("y", &[])];
    assert_eq!(join_code(&subs), "sub x { }\n\nsub y { }");
    assert_eq!(join_code(&vec![]), "");
}

#[test]
fn prompt_holds_names_description_confidence_and_code() {
    let m = module(
        vec![sub("x", &[]), sub("y", &[]), sub("z", &[])],
        vec![],
    );
    let c = cluster("Data validation", &["y", "nope", "x"], 850_000);
    let expected = format!(
        r#"You are a Perl refactoring expert. Your task is to create a new Perl module for a specific responsibility cluster.

            Original module: {}
            New module name: {}
            Responsibility: {} - {}
            Confidence: {}
                    
            Subroutines from the original module that should be included in this new module:
            ```perl
            {}
            ```
                    
            Based on this information, generate a complete, well-structured Perl module that:
            1. Has proper package declaration
            2. Includes all necessary pragmas (strict, warnings) and dependencies
            3. Contains all the subroutines provided, keeping their functionality identical
            4. Exports the necessary subroutines
            5. Has appropriate documentation and structure
            6. Makes minimal changes to the actual code of each subroutine
                    
            Only return the complete Perl module code with no additional explanation.
            "#,
        "Calculator",
        "Calculator::Datavalidation",
        "Data validation",
        "Data validation things",
        0.85f32,
        "sub y { }\n\nsub x { }"
    );
    assert_eq!(module_code_prompt(&m, &c), expected);
    assert_eq!(
        proposer_preamble(),
        "You are a Perl refactoring expert. You will generate clean, well-structured Perl modules based on responsibility clusters."
    );
}

#[test]
fn a_cluster_that_resolves_to_nothing_still_gets_its_prompt() {
    let m = module(vec![sub("x", &[])], vec![]);
    let c = cluster("Ghost", &["nope"], 900_000);
    let prompt = module_code_prompt(&m, &c);
    assert!(prompt.contains("New module name: Calculator::Ghost"));
    assert!(prompt.contains("```perl\n            \n            ```"));
    let mut index = SubroutineAssignmentIndex::new();
    let proposed = build_module_proposal(&m, &c, "code".to_string(), &mut index);
    assert!(proposed.subroutines.is_empty());
    assert!(proposed.dependencies.is_empty());
    assert_eq!(index.len(), 0);
}

#[test]
fn index_appends_claims() {
    let mut index = SubroutineAssignmentIndex::new();
    assert_eq!(index.len(), 0);
    assert_eq!(index.duplicated_count(), 0);
    index.record(&"x".to_string(), &"A".to_string());
    index.record(&"y".to_string(), &"A".to_string());
    index.record(&"y".to_string(), &"B".to_string());
    index.record(&"z".to_string(), &"B".to_string());
    assert_eq!(index.len(), 3);
    assert_eq!(index.claims(&"x".to_string()), Some(strings(&["A"])));
    assert_eq!(index.claims(&"y".to_string()), Some(strings(&["A", "B"])));
    assert_eq!(index.claims(&"w".to_string()), None);
    assert_eq!(index.duplicated_count(), 1);
    index.record(&"x".to_string(), &"C".to_string());
    index.record(&"x".to_string(), &"D".to_string());
    assert_eq!(index.claims(&"x".to_string()), Some(strings(&["A", "C", "D"])));
    assert_eq!(index.duplicated_count(), 2);
    assert_eq!(index.len(), 3);
}

#[test]
fn duplicated_count_is_the_number_of_shared_subroutines() {
    let m = module(
        vec![sub("x", &[]), sub("y", &[]), sub("z", &[])],
        vec![],
    );
    let clusters = vec![
        cluster("A", &["x", "y"], 1_000_000),
        cluster("B", &["y", "z"], 1_000_000),
    ];
    let proposal = assemble_proposal(&m, generated(clusters));
    assert_eq!(proposal.suggested_modules.len(), 2);
    assert_eq!(proposal.impact.complexity, 3);
    assert_eq!(proposal.impact.effort, EffortTier::Medium);
    assert_eq!(
        proposal.impact.risks,
        strings(&["1 subroutines appear in multiple modules, which may lead to code duplication"])
    );
}

#[test]
fn effort_tier_boundaries() {
    assert_eq!(effort_tier(0), EffortTier::Low);
    assert_eq!(effort_tier(2), EffortTier::Low);
    assert_eq!(effort_tier(3), EffortTier::Medium);
    assert_eq!(effort_tier(5), EffortTier::Medium);
    assert_eq!(effort_tier(6), EffortTier::High);
    assert_eq!(effort_tier(u32::MAX), EffortTier::High);
    assert_eq!(effort_tier(2).description(), "Low: Less than 1 day");
    assert_eq!(effort_tier(3).description(), "Medium: 1-3 days");
    assert_eq!(effort_tier(6).description(), "High: More than 3 days");
}

#[test]
fn impact_lists_risks_and_benefits() {
    let calm = estimate_impact(1, 0);
    assert_eq!(calm.complexity, 1);
    assert_eq!(calm.effort, EffortTier::Low);
    assert!(calm.risks.is_empty());
    assert_eq!(
        calm.benefits,
        strings(&[
            "Improved code organization with clear separation of responsibilities",
            "Better maintainability through modular design",
            "Reduced cognitive load with 1 focused modules",
        ])
    );
    let busy = estimate_impact(6, 12);
    assert_eq!(busy.complexity, 18);
    assert_eq!(busy.effort, EffortTier::High);
    assert_eq!(
        busy.risks,
        strings(&[
            "12 subroutines appear in multiple modules, which may lead to code duplication",
            "Large number of modules may increase maintenance overhead",
        ])
    );
    assert_eq!(busy.benefits[2], "Reduced cognitive load with 6 focused modules");
    let five = estimate_impact(5, 0);
    assert!(five.risks.is_empty());
    assert_eq!(five.effort, EffortTier::Medium);
    let six = estimate_impact(6, 0);
    assert_eq!(
        six.risks,
        strings(&["Large number of modules may increase maintenance overhead"])
    );
    assert_eq!(estimate_impact(6, 12), estimate_impact(6, 12));
    let index = SubroutineAssignmentIndex::new();
    assert_eq!(analyze_impact(&vec![], &index), estimate_impact(0, 0));
}

#[test]
fn proposed_subroutines_come_from_the_model() {
    let m = module(
        vec![
            sub("x", &["List::Util"]),
            sub("y", &["DBI", "List::Util"]),
            sub("z", &[]),
        ],
        vec![],
    );
    let mut named = cluster("Named", &["z"], 800_000);
    named.suggested_module_name = Some("Calc::Named".to_string());
    let clusters = vec![cluster("Math Ops", &["y", "ghost", "x"], 900_000), named];
    let proposal = assemble_proposal(&m, generated(clusters));
    assert_eq!(proposal.original_module, m);
    for proposed in &proposal.suggested_modules {
        for s in &proposed.subroutines {
            assert!(m.subroutines.iter().any(|o| o.name == s.name && o.code == s.code));
            assert!(m.subroutines.contains(s));
        }
    }
    let first = &proposal.suggested_modules[0];
    assert_eq!(first.name, "Calculator::MathOps");
    assert_eq!(first.responsibility, "Math Ops things");
    assert_eq!(first.subroutines, vec![m.subroutines[1].clone(), m.subroutines[0].clone()]);
    assert_eq!(first.dependencies, strings(&["DBI", "List::Util"]));
    assert_eq!(first.suggested_code, "package Math Ops;");
    assert_eq!(first.confidence.millionths(), 900_000);
    assert_eq!(proposal.suggested_modules[1].name, "Calc::Named");
    assert_eq!(proposal.impact.complexity, 2);
}

#[test]
fn end_to_end_with_one_surviving_cluster() {
    let m = module(
        vec![sub("add", &[]), sub("subtract", &[]), sub("calculate_average", &["List::Util"])],
        vec![
            cluster("Arithmetic", &["add", "subtract"], 900_000),
            cluster("Statistics", &["calculate_average"], 500_000),
        ],
    );
    let selected = high_confidence_clusters(&m).unwrap();
    assert_eq!(selected.len(), 1);
    assert_eq!(selected[0].name, "Arithmetic");
    let proposal = assemble_proposal(&m, generated(selected));
    assert_eq!(proposal.suggested_modules.len(), 1);
    assert_eq!(proposal.impact.complexity, 1);
    assert_eq!(proposal.impact.effort, EffortTier::Low);
}

#[test]
fn no_confident_cluster_is_a_validation_error() {
    let m = module(vec![sub("x", &[])], vec![cluster("Weak", &["x"], 100_000)]);
    assert_eq!(
        high_confidence_clusters(&m),
        Err(Error::ValidationError(
            "No high confidence responsibility clusters found".to_string()
        ))
    );
}

#[test]
fn generation_failures_are_service_errors() {
    let attempt = generation_failure("timeout");
    assert_eq!(
        attempt,
        Attempt::Failed {
            kind: FailureKind::Transport,
            detail: "Failed to generate module code: timeout".to_string(),
        }
    );
    let policy = RetryPolicy { max_attempts: 1, ..RetryPolicy::default() };
    let (_, decision) = policy.decide(policy.start(), attempt, 0);
    assert_eq!(
        decision,
        Decision::GiveUp(Error::AIError("Failed to generate module code: timeout".to_string()))
    );
}

#[test]
fn the_default_proposer_and_validator_decline() {
    let m = module(vec![], vec![]);
    let declined = Error::ValidationError("Not implemented".to_string());
    assert_eq!(
        DefaultRefactoringProposer::new().generate_proposal(&m),
        Err(declined.clone())
    );
    let proposal = assemble_proposal(&m, vec![]);
    assert_eq!(
        DefaultDependencyValidator::new().validate_dependencies(&proposal),
        Err(declined)
    );
}
