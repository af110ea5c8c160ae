//! From the structured answer of the text-generation service to the
//! structural model of a source unit.
use crate::domain::models::{ModuleView, PerlModule, Subroutine, SubroutineView};
use crate::gateway::{Attempt, AttemptView, FailureKind};
use vstd::prelude::*;

verus! {

/// The instruction that every analysis request starts from.
pub const PARSER_PREAMBLE: &'static str =
    "You are a Perl code analyzer. You will analyze Perl code and extract its structure in JSON format.";

pub const ANALYSIS_PROMPT_OPENING: &'static str =
    "Analyze this Perl module and extract its structure. Return ONLY a raw JSON object (no markdown formatting, no code blocks) containing:\n            - package_name: The name of the Perl package/module\n            - subroutines: Array of objects, each containing:\n                - name: Subroutine name\n                - code: The complete subroutine code including its definition\n                - line_start: Starting line number\n                - line_end: Ending line number\n                - dependencies: Array of module/package names this subroutine depends on\n            - dependencies: Array of all module/package dependencies\n\n            Module content:\n            ";

pub const ANALYSIS_PROMPT_CLOSING: &'static str = "\n            ";

/// The name of a module that neither the answer nor the file's name gives one.
pub const UNKNOWN_MODULE: &'static str = "Unknown";

pub const PARSE_FAILED: &'static str = "Failed to parse AI response: ";

/// One sub-routine as the service reports it.
#[derive(Debug, PartialEq, Eq)]
pub struct ParsedSubroutine {
    pub name: String,
    pub code: String,
    pub line_start: usize,
    pub line_end: usize,
    pub dependencies: Vec<String>,
}

impl View for ParsedSubroutine {
    type V = SubroutineView;

    open spec fn view(&self) -> SubroutineView {
        SubroutineView {
            name: self.name@,
            code: self.code@,
            line_start: self.line_start as nat,
            line_end: self.line_end as nat,
            dependencies: self.dependencies.deep_view(),
        }
    }
}

impl DeepView for ParsedSubroutine {
    type V = SubroutineView;

    open spec fn deep_view(&self) -> SubroutineView {
        self@
    }
}

/// The structure of a source unit as the service reports it.
#[derive(Debug, PartialEq, Eq)]
pub struct ParseResponse {
    pub subroutines: Vec<ParsedSubroutine>,
    pub dependencies: Vec<String>,
    pub package_name: Option<String>,
}

/// The mathematical value of a [`ParseResponse`].
pub struct ParseResponseView {
    pub subroutines: Seq<SubroutineView>,
    pub dependencies: Seq<Seq<char>>,
    pub package_name: Option<Seq<char>>,
}

impl View for ParseResponse {
    type V = ParseResponseView;

    open spec fn view(&self) -> ParseResponseView {
        ParseResponseView {
            subroutines: self.subroutines.deep_view(),
            dependencies: self.dependencies.deep_view(),
            package_name: self.package_name.deep_view(),
        }
    }
}

/// The prompt that asks for the structure of the source text `content`.
pub open spec fn analysis_prompt_text(content: Seq<char>) -> Seq<char> {
    ANALYSIS_PROMPT_OPENING@ + content + ANALYSIS_PROMPT_CLOSING@
}

/// The name of a module: the package name that the answer gives, else the
/// stem of the file's name, else `Unknown`.
pub open spec fn module_name_from(package_name: Option<Seq<char>>, file_stem: Option<Seq<char>>) -> Seq<
    char,
> {
    match package_name {
        Some(name) => name,
        None => match file_stem {
            Some(stem) => stem,
            None => UNKNOWN_MODULE@,
        },
    }
}

/// The structural model that `response` describes, for the source text
/// `content` read from `path`. It has no responsibility clusters yet.
pub open spec fn module_model(
    response: ParseResponseView,
    path: Seq<char>,
    file_stem: Option<Seq<char>>,
    content: Seq<char>,
) -> ModuleView {
    ModuleView {
        name: module_name_from(response.package_name, file_stem),
        path,
        content,
        subroutines: response.subroutines,
        dependencies: response.dependencies,
        responsibility_clusters: Seq::empty(),
    }
}

/// The instruction that every analysis request starts from.
pub fn parser_preamble() -> (r: String)
    ensures
        r@ == PARSER_PREAMBLE@,
{
    String::from_str(PARSER_PREAMBLE)
}

/// Composes the prompt that asks for the structure of `content`.
pub fn analysis_prompt(content: &str) -> (r: String)
    ensures
        r@ == analysis_prompt_text(content@),
{
    let mut out = String::from_str(ANALYSIS_PROMPT_OPENING);
    out.append(content);
    out.append(ANALYSIS_PROMPT_CLOSING);
    out
}

/// The failed attempt in which the service's answer could not be decoded,
/// with the decoder's own words: a schema failure.
pub fn undecodable_answer(detail: &str) -> (r: Attempt)
    ensures
        r@ == (AttemptView::Failed { kind: FailureKind::Schema, detail: PARSE_FAILED@ + detail@ }),
{
    let mut text = String::from_str(PARSE_FAILED);
    text.append(detail);
    Attempt::Failed { kind: FailureKind::Schema, detail: text }
}

/// The failed attempt in which the service did not answer, with the
/// service's own words: a transport failure.
pub fn unanswered_request(detail: String) -> (r: Attempt)
    ensures
        r@ == (AttemptView::Failed { kind: FailureKind::Transport, detail: detail@ }),
{
    Attempt::Failed { kind: FailureKind::Transport, detail }
}

/// Chooses the name of a module: the package name, else the file's stem,
/// else `Unknown`.
pub fn module_name(package_name: Option<String>, file_stem: Option<String>) -> (r: String)
    ensures
        r@ == module_name_from(package_name.deep_view(), file_stem.deep_view()),
{
    match package_name {
        Some(name) => name,
        None => match file_stem {
            Some(stem) => stem,
            None => String::from_str(UNKNOWN_MODULE),
        },
    }
}

/// Builds the structural model from the service's answer: the reported
/// sub-routines and dependencies as they are, under the name that
/// [`module_name`] chooses.
pub fn module_from_response(
    response: ParseResponse,
    path: String,
    file_stem: Option<String>,
    content: String,
) -> (r: PerlModule)
    ensures
        r@ == module_model(response@, path@, file_stem.deep_view(), content@),
{
    let ghost reported = response.subroutines.deep_view();
    let ghost items = response.subroutines@;
    let mut subroutines: Vec<Subroutine> = Vec::new();
    for item in it: response.subroutines
        invariant
            it.seq() == items,
            items.len() == reported.len(),
            forall|j: int| 0 <= j < items.len() ==> (#[trigger] items[j])@ == reported[j],
            subroutines.len() == it.index(),
            forall|j: int| 0 <= j < it.index() ==> (#[trigger] subroutines[j])@ == reported[j],
    {
        assert(item@ == reported[it.index() as int]);
        subroutines.push(
            Subroutine {
                name: item.name,
                code: item.code,
                line_start: item.line_start,
                line_end: item.line_end,
                dependencies: item.dependencies,
            },
        );
    }
    let responsibility_clusters = Vec::new();
    proof {
        assert(subroutines.deep_view() =~= reported);
        assert(responsibility_clusters.deep_view() =~= Seq::empty());
    }
    PerlModule {
        name: module_name(response.package_name, file_stem),
        path,
        content,
        subroutines,
        dependencies: response.dependencies,
        responsibility_clusters,
    }
}

} // verus!
