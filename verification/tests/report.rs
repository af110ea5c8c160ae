use secret_agent::domain::models::{
    Confidence, EffortTier, NewModuleProposal, PerlModule, RefactoringImpact,
    RefactoringProposal, ResponsibilityCluster, Subroutine,
};
use secret_agent::report::{module_analysis_report, proposal_text_report};
use secret_agent::text::hundredths_text;

fn strings(items: &[&str]) -> Vec<String> {
    items.iter().map(|s| s.to_string()).collect()
}

fn module() -> PerlModule {
    PerlModule {
        name: "Calculator".to_string(),
        path: "lib/Calculator.pm".to_string(),
        content: "package Calculator;".to_string(),
        subroutines: vec![
            Subroutine {
                name: "add".to_string(),
                code: "sub add { }".to_string(),
                line_start: 3,
                line_end: 12,
                dependencies: vec![],
            },
            Subroutine {
                name: "calculate_average".to_string(),
                code: "sub calculate_average { }".to_string(),
                line_start: 14,
                line_end: 20,
                dependencies: strings(&["List::Util"]),
            },
        ],
        dependencies: strings(&["strict", "warnings"]),
        responsibility_clusters: vec![
            ResponsibilityCluster {
                name: "Arithmetic".to_string(),
                description: "Basic operations".to_string(),
                related_subroutines: strings(&["add"]),
                suggested_module_name: Some("Calculator::Arithmetic".to_string()),
                confidence: Confidence::from_millionths(900_000).unwrap(),
            },
            ResponsibilityCluster {
                name: "Statistics".to_string(),
                description: "Averages".to_string(),
                related_subroutines: strings(&["calculate_average", "median"]),
                suggested_module_name: None,
                confidence: Confidence::from_millionths(854_999).unwrap(),
            },
        ],
    }
}

#[test]
fn analysis_report_lists_the_model() {
    assert_eq!(
        module_analysis_report(&module()),
        strings(&[
            "Module Analysis Results:",
            "Name: Calculator",
            "Path: lib/Calculator.pm",
            "",
            "Dependencies:",
            "  - strict",
            "  - warnings",
            "",
            "Subroutines:",
            "",
            "  add",
            "  Lines: 3-12",
            "",
            "  calculate_average",
            "  Lines: 14-20",
            "  Dependencies:",
            "    - List::Util",
            "",
            "Responsibility Clusters:",
            "",
            "  Arithmetic",
            "  Description: Basic operations",
            "  Confidence: 0.90",
            "  Related subroutines:",
            "    - add",
            "  Suggested module name: Calculator::Arithmetic",
            "",
            "  Statistics",
            "  Description: Averages",
            "  Confidence: 0.85",
            "  Related subroutines:",
            "    - calculate_average",
            "    - median",
        ])
    );
}

#[test]
fn analysis_report_of_an_empty_model() {
    let empty = PerlModule {
        name: String::new(),
        path: String::new(),
        content: String::new(),
        subroutines: vec![],
        dependencies: vec![],
        responsibility_clusters: vec![],
    };
    assert_eq!(
        module_analysis_report(&empty),
        strings(&[
            "Module Analysis Results:",
            "Name: ",
            "Path: ",
            "",
            "Dependencies:",
            "",
            "Subroutines:",
            "",
            "Responsibility Clusters:",
        ])
    );
}

#[test]
fn proposal_report_lists_modules_and_impact() {
    let original = module();
    let proposal = RefactoringProposal {
        suggested_modules: vec![NewModuleProposal {
            name: "Calculator::Statistics".to_string(),
            responsibility: "Averages".to_string(),
            subroutines: vec![original.subroutines[1].clone(), original.subroutines[0].clone()],
            dependencies: strings(&["List::Util", "POSIX"]),
            suggested_code: "package Calculator::Statistics;".to_string(),
            confidence: Confidence::full(),
        }],
        original_module: original,
        impact: RefactoringImpact {
            complexity: 4,
            effort: EffortTier::Medium,
            risks: strings(&["a risk"]),
            benefits: strings(&["one", "two"]),
        },
    };
    assert_eq!(
        proposal_text_report(&proposal),
        strings(&[
            "Refactoring Proposal for Calculator",
            "",
            "Suggested modules:",
            "",
            "  Calculator::Statistics (confidence: 1.00)",
            "  Responsibility: Averages",
            "  Subroutines: calculate_average, add",
            "  Dependencies: List::Util, POSIX",
            "",
            "Impact Analysis:",
            "  Complexity: 4",
            "  Effort: Medium: 1-3 days",
            "",
            "  Risks:",
            "    - a risk",
            "",
            "  Benefits:",
            "    - one",
            "    - two",
        ])
    );
}

#[test]
fn two_decimals_round_to_the_nearest_hundredth() {
    assert_eq!(hundredths_text(0), "0.00");
    assert_eq!(hundredths_text(4_999), "0.00");
    assert_eq!(hundredths_text(5_000), "0.01");
    assert_eq!(hundredths_text(850_000), "0.85");
    assert_eq!(hundredths_text(994_999), "0.99");
    assert_eq!(hundredths_text(995_000), "1.00");
    assert_eq!(hundredths_text(1_000_000), "1.00");
    assert_eq!(hundredths_text(12_345_678), "12.35");
    assert_eq!(hundredths_text(u32::MAX), "4294.97");
}
