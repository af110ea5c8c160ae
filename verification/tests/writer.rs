use secret_agent::domain::models::{Confidence, NewModuleProposal};
use secret_agent::proposer::synthesis::assemble_proposal;
use secret_agent::domain::models::PerlModule;
use secret_agent::writer::{
    default_output_directory, display_path, module_file, plan_files, split_module_name, ModuleFile,
};

fn strings(items: &[&str]) -> Vec<String> {
    items.iter().map(|s| s.to_string()).collect()
}

fn proposed(name: &str, code: &str) -> NewModuleProposal {
    NewModuleProposal {
        name: name.to_string(),
        responsibility: "r".to_string(),
        subroutines: vec![],
        dependencies: vec![],
        suggested_code: code.to_string(),
        confidence: Confidence::full(),
    }
}

#[test]
fn namespaced_names_map_to_nested_directories() {
    let file = module_file(&proposed("App::Billing::Invoice", "package App::Billing::Invoice;\n1;"));
    assert_eq!(
        file,
        ModuleFile {
            directories: strings(&["App", "Billing"]),
            file_name: "Invoice.pm".to_string(),
            contents: "package App::Billing::Invoice;\n1;".to_string(),
        }
    );
    assert_eq!(display_path("out", &file), "out/App/Billing/Invoice.pm");
}

#[test]
fn single_segment_names_need_no_directories() {
    let file = module_file(&proposed("Util", "1;"));
    assert!(file.directories.is_empty());
    assert_eq!(file.file_name, "Util.pm");
    assert_eq!(display_path("out", &file), "out/Util.pm");
}

#[test]
fn names_split_as_the_standard_library_splits_them() {
    for name in [
        "", "A", "A::B", "A::B::C", "::", "A::", "::A", "A:::B", "A::::B", ":", "A:B", ":::",
        "::::", "é::ü", "A::B:", "a b::c",
    ] {
        let expected: Vec<String> = name.split("::").map(|s| s.to_string()).collect();
        assert_eq!(split_module_name(name), expected, "{:?}", name);
        assert_eq!(split_module_name(name).join("::"), name);
    }
    assert_eq!(split_module_name("A:::B"), strings(&["A", ":B"]));
}

#[test]
fn default_directory_is_named_after_the_module() {
    assert_eq!(default_output_directory("Calculator"), "refactored_Calculator");
    assert_eq!(default_output_directory("A::B"), "refactored_A::B");
}

#[test]
fn files_are_planned_in_the_order_of_the_modules() {
    let module = PerlModule {
        name: "M".to_string(),
        path: "M.pm".to_string(),
        content: String::new(),
        subroutines: vec![],
        dependencies: vec![],
        responsibility_clusters: vec![],
    };
    let mut proposal = assemble_proposal(&module, vec![]);
    assert!(plan_files(&proposal).is_empty());
    proposal.suggested_modules = vec![proposed("M::A", "a"), proposed("B", "b")];
    let files = plan_files(&proposal);
    assert_eq!(files.len(), 2);
    assert_eq!(files[0], module_file(&proposal.suggested_modules[0]));
    assert_eq!(files[0].directories, strings(&["M"]));
    assert_eq!(files[0].contents, "a");
    assert_eq!(files[1].file_name, "B.pm");
}

#[test]
fn io_failures_name_the_path() {
    assert_eq!(
        secret_agent::writer::io_failure("out/App/Invoice.pm", "permission denied"),
        secret_agent::error::Error::IOError("out/App/Invoice.pm: permission denied".to_string())
    );
}
