//! The name of the module that a cluster becomes, and the prompt that asks
//! the text-generation service for its code.
use crate::domain::models::{ClusterView, PerlModule, ResponsibilityCluster, Subroutine, SubroutineView};
use crate::proposer::resolve::{resolve, resolve_subroutines};
use crate::text::{join, join_strings, millionths_numeral, strip_whitespace, without_whitespace};
use vstd::prelude::*;

verus! {

/// What separates the segments of a namespaced module name.
pub const NAMESPACE_SEPARATOR: &'static str = "::";

/// What separates the code of two sub-routines in a prompt: a blank line.
pub const CODE_SEPARATOR: &'static str = "\n\n";

/// The instruction that every code generation request starts from.
pub const PROPOSER_PREAMBLE: &'static str =
    "You are a Perl refactoring expert. You will generate clean, well-structured Perl modules based on responsibility clusters.";

pub const PROMPT_OPENING: &'static str =
    "You are a Perl refactoring expert. Your task is to create a new Perl module for a specific responsibility cluster.\n\n            Original module: ";

pub const PROMPT_NEW_NAME: &'static str = "\n            New module name: ";

pub const PROMPT_RESPONSIBILITY: &'static str = "\n            Responsibility: ";

pub const PROMPT_DESCRIPTION: &'static str = " - ";

pub const PROMPT_CONFIDENCE: &'static str = "\n            Confidence: ";

pub const PROMPT_SUBROUTINES: &'static str =
    "\n                    \n            Subroutines from the original module that should be included in this new module:\n            ```perl\n            ";

pub const PROMPT_CLOSING: &'static str =
    "\n            ```\n                    \n            Based on this information, generate a complete, well-structured Perl module that:\n            1. Has proper package declaration\n            2. Includes all necessary pragmas (strict, warnings) and dependencies\n            3. Contains all the subroutines provided, keeping their functionality identical\n            4. Exports the necessary subroutines\n            5. Has appropriate documentation and structure\n            6. Makes minimal changes to the actual code of each subroutine\n                    \n            Only return the complete Perl module code with no additional explanation.\n            ";

/// The name of the module that `cluster` becomes: the name it suggests, or
/// else the original module's name, the separator, and the cluster's name
/// without its whitespace.
pub open spec fn target_module_name(original: Seq<char>, cluster: ClusterView) -> Seq<char> {
    match cluster.suggested_module_name {
        Some(name) => name,
        None => original + NAMESPACE_SEPARATOR@ + without_whitespace(cluster.name),
    }
}

/// The code of each sub-routine, in order.
pub open spec fn code_texts(subroutines: Seq<SubroutineView>) -> Seq<Seq<char>> {
    Seq::new(subroutines.len(), |i: int| subroutines[i].code)
}

/// The code of `subroutines` as one text, a blank line between neighbours.
pub open spec fn joined_code(subroutines: Seq<SubroutineView>) -> Seq<char> {
    join(code_texts(subroutines), CODE_SEPARATOR@)
}

/// The prompt that asks for the code of the module `target`, made from
/// `cluster` of the module `original`, whose resolved sub-routines read `code`.
pub open spec fn generation_prompt(
    original: Seq<char>,
    target: Seq<char>,
    cluster: ClusterView,
    code: Seq<char>,
) -> Seq<char> {
    PROMPT_OPENING@ + original + PROMPT_NEW_NAME@ + target + PROMPT_RESPONSIBILITY@ + cluster.name
        + PROMPT_DESCRIPTION@ + cluster.description + PROMPT_CONFIDENCE@ + millionths_numeral(
        cluster.confidence,
    ) + PROMPT_SUBROUTINES@ + code + PROMPT_CLOSING@
}

/// The prompt for `cluster` of a module called `original` with the
/// sub-routines `subroutines`.
pub open spec fn cluster_prompt(
    original: Seq<char>,
    subroutines: Seq<SubroutineView>,
    cluster: ClusterView,
) -> Seq<char> {
    generation_prompt(
        original,
        target_module_name(original, cluster),
        cluster,
        joined_code(resolve(subroutines, cluster.related_subroutines)),
    )
}

/// Derives the name of the module that `cluster` becomes.
pub fn module_name_for(original: &String, cluster: &ResponsibilityCluster) -> (r: String)
    ensures
        r@ == target_module_name(original@, cluster@),
{
    match &cluster.suggested_module_name {
        Some(name) => name.clone(),
        None => {
            let mut out = original.clone();
            out.append(NAMESPACE_SEPARATOR);
            let stripped = strip_whitespace(cluster.name.as_str());
            out.append(stripped.as_str());
            out
        },
    }
}

/// The code of `subroutines` as one text, a blank line between neighbours.
pub fn join_code(subroutines: &Vec<Subroutine>) -> (r: String)
    ensures
        r@ == joined_code(subroutines.deep_view()),
{
    let mut codes: Vec<String> = Vec::new();
    let mut i: usize = 0;
    while i < subroutines.len()
        invariant
            i <= subroutines.len(),
            codes.len() == i,
            forall|j: int| 0 <= j < i ==> codes[j]@ == subroutines[j].code@,
        decreases subroutines.len() - i,
    {
        codes.push(subroutines[i].code.clone());
        i = i + 1;
    }
    assert(codes.deep_view() =~= code_texts(subroutines.deep_view()));
    join_strings(&codes, CODE_SEPARATOR)
}

/// Composes the prompt that asks for the code of one cluster's module: the
/// original module's name, the new module's name, the cluster's name,
/// description and confidence, and the code of the sub-routines that the
/// cluster's names resolve to. A cluster that resolves to nothing still
/// gets its prompt, with no code in it.
pub fn module_code_prompt(module: &PerlModule, cluster: &ResponsibilityCluster) -> (r: String)
    ensures
        r@ == cluster_prompt(module@.name, module@.subroutines, cluster@),
{
    let resolved = resolve_subroutines(&module.subroutines, &cluster.related_subroutines);
    let target = module_name_for(&module.name, cluster);
    let code = join_code(&resolved);
    let confidence = cluster.confidence.text();
    let mut out = String::from_str(PROMPT_OPENING);
    out.append(module.name.as_str());
    out.append(PROMPT_NEW_NAME);
    out.append(target.as_str());
    out.append(PROMPT_RESPONSIBILITY);
    out.append(cluster.name.as_str());
    out.append(PROMPT_DESCRIPTION);
    out.append(cluster.description.as_str());
    out.append(PROMPT_CONFIDENCE);
    out.append(confidence.as_str());
    out.append(PROMPT_SUBROUTINES);
    out.append(code.as_str());
    out.append(PROMPT_CLOSING);
    out
}

/// The instruction that every code generation request starts from.
pub fn proposer_preamble() -> (r: String)
    ensures
        r@ == PROPOSER_PREAMBLE@,
{
    String::from_str(PROPOSER_PREAMBLE)
}

} // verus!
