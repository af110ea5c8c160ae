use secret_agent::domain::models::{Confidence, PerlModule, ResponsibilityCluster};
use secret_agent::error::Error;
use secret_agent::gateway::{Attempt, Decision, FailureKind, RetryPolicy};
use secret_agent::parser::{
    analysis_prompt, module_from_response, module_name, parser_preamble, unanswered_request,
    undecodable_answer, ParseResponse, ParsedSubroutine,
};
use secret_agent::workflow::{
    choose_source, clusters_to_propose, output_format, saved_analysis_failure, AnalysisSource,
    OutputFormat,
};

fn response() -> ParseResponse {
    ParseResponse {
        subroutines: vec![ParsedSubroutine {
            name: "test_sub".to_string(),
            code: "sub test_sub { }".to_string(),
            line_start: 1,
            line_end: 3,
            dependencies: vec!["Test::More".to_string()],
        }],
        dependencies: vec!["Test::More".to_string()],
        package_name: Some("TestModule".to_string()),
    }
}

#[test]
fn test_with_mock_ai() {
    let content = "package TestModule;\nuse Test::More;\nsub test_sub { }\n1;";
    let prompt = analysis_prompt(content);
    assert_eq!(
        prompt,
        format!(
            "Analyze this Perl module and extract its structure. Return ONLY a raw JSON object (no markdown formatting, no code blocks) containing:\n            - package_name: The name of the Perl package/module\n            - subroutines: Array of objects, each containing:\n                - name: Subroutine name\n                - code: The complete subroutine code including its definition\n                - line_start: Starting line number\n                - line_end: Ending line number\n                - dependencies: Array of module/package names this subroutine depends on\n            - dependencies: Array of all module/package dependencies\n\n            Module content:\n            {}\n            ",
            "package TestModule;\nuse Test::More;\nsub test_sub { }\n1;"
        )
    );
    assert_eq!(
        parser_preamble(),
        "You are a Perl code analyzer. You will analyze Perl code and extract its structure in JSON format."
    );

    let module = module_from_response(
        response(),
        "/tmp/test.pm".to_string(),
        Some("test".to_string()),
        content.to_string(),
    );

    assert_eq!(module.name, "TestModule");
    assert_eq!(module.subroutines.len(), 1);
    assert_eq!(module.dependencies, vec!["Test::More"]);
    assert_eq!(module.path, "/tmp/test.pm");
    assert_eq!(module.content, content);
    assert_eq!(module.subroutines[0].name, "test_sub");
    assert_eq!(module.subroutines[0].code, "sub test_sub { }");
    assert_eq!((module.subroutines[0].line_start, module.subroutines[0].line_end), (1, 3));
    assert_eq!(module.subroutines[0].dependencies, vec!["Test::More"]);
    assert!(module.responsibility_clusters.is_empty());
}

#[test]
fn module_name_falls_back_to_the_file_stem() {
    assert_eq!(module_name(Some("A::B".to_string()), Some("b".to_string())), "A::B");
    assert_eq!(module_name(None, Some("Calculator".to_string())), "Calculator");
    assert_eq!(module_name(None, None), "Unknown");
    let mut unnamed = response();
    unnamed.package_name = None;
    unnamed.subroutines.push(ParsedSubroutine {
        name: "second".to_string(),
        code: "sub second { }".to_string(),
        line_start: 5,
        line_end: 6,
        dependencies: vec![],
    });
    let module = module_from_response(unnamed, "lib/OrderManager.pm".to_string(), Some("OrderManager".to_string()), String::new());
    assert_eq!(module.name, "OrderManager");
    let names: Vec<&str> = module.subroutines.iter().map(|s| s.name.as_str()).collect();
    assert_eq!(names, vec!["test_sub", "second"]);
}

#[test]
fn undecodable_answers_are_parse_errors() {
    let attempt = undecodable_answer("expected value at line 1 column 1");
    assert_eq!(
        attempt,
        Attempt::Failed {
            kind: FailureKind::Schema,
            detail: "Failed to parse AI response: expected value at line 1 column 1".to_string(),
        }
    );
    let policy = RetryPolicy { max_attempts: 1, ..RetryPolicy::default() };
    let (_, decision) = policy.decide(policy.start(), attempt, 0);
    assert_eq!(
        decision,
        Decision::GiveUp(Error::ParseError(
            "Failed to parse AI response: expected value at line 1 column 1".to_string()
        ))
    );
    assert_eq!(
        unanswered_request("rate limited".to_string()),
        Attempt::Failed { kind: FailureKind::Transport, detail: "rate limited".to_string() }
    );
    assert_eq!(
        saved_analysis_failure("EOF"),
        Error::DeserializationError("Failed to parse saved analysis: EOF".to_string())
    );
}

#[test]
fn exactly_one_source_must_be_given() {
    assert_eq!(
        choose_source(Some("a.pm".to_string()), None),
        Ok(AnalysisSource::ParseFile("a.pm".to_string()))
    );
    assert_eq!(
        choose_source(None, Some("a.json".to_string())),
        Ok(AnalysisSource::LoadAnalysis("a.json".to_string()))
    );
    assert_eq!(
        choose_source(Some("a.pm".to_string()), Some("a.json".to_string())),
        Err(Error::ValidationError(
            "Cannot provide both file and analysis. Choose one or the other.".to_string()
        ))
    );
    assert_eq!(
        choose_source(None, None),
        Err(Error::ValidationError(
            "Must provide either file to analyze or path to saved analysis.".to_string()
        ))
    );
}

#[test]
fn json_is_the_only_named_format() {
    assert_eq!(output_format("json"), OutputFormat::Json);
    assert_eq!(output_format("text"), OutputFormat::Text);
    assert_eq!(output_format("JSON"), OutputFormat::Text);
    assert_eq!(output_format(""), OutputFormat::Text);
}

#[test]
fn a_proposal_needs_confident_clusters() {
    let mut module = PerlModule {
        name: "M".to_string(),
        path: "M.pm".to_string(),
        content: String::new(),
        subroutines: vec![],
        dependencies: vec![],
        responsibility_clusters: vec![],
    };
    assert_eq!(
        clusters_to_propose(&module),
        Err(Error::ValidationError(
            "No responsibility clusters found to base refactoring on".to_string()
        ))
    );
    let cluster = |name: &str, m: u32| ResponsibilityCluster {
        name: name.to_string(),
        description: String::new(),
        related_subroutines: vec![],
        suggested_module_name: None,
        confidence: Confidence::from_millionths(m).unwrap(),
    };
    module.responsibility_clusters = vec![cluster("weak", 699_999)];
    assert_eq!(
        clusters_to_propose(&module),
        Err(Error::ValidationError(
            "No high confidence responsibility clusters found".to_string()
        ))
    );
    module.responsibility_clusters = vec![cluster("weak", 1), cluster("strong", 700_000)];
    let selected = clusters_to_propose(&module).unwrap();
    assert_eq!(selected.len(), 1);
    assert_eq!(selected[0].name, "strong");
}
