//! The human-readable reports: the analysis of a module and a refactoring
//! proposal, each as the lines to print.
use crate::domain::models::{
    ClusterView,
    ImpactView,
    ModuleView,
    NewModuleProposal,
    NewModuleView,
    PerlModule,
    ProposalView,
    RefactoringImpact,
    RefactoringProposal,
    ResponsibilityCluster,
    Subroutine,
    SubroutineView,
};
use crate::proposer::synthesis::names_of;
use crate::text::{decimal, decimal_text, hundredths_numeral, hundredths_text, join, join_strings};
use vstd::prelude::*;

verus! {

pub const ANALYSIS_TITLE: &'static str = "Module Analysis Results:";

pub const NAME_LABEL: &'static str = "Name: ";

pub const PATH_LABEL: &'static str = "Path: ";

pub const DEPENDENCIES_TITLE: &'static str = "Dependencies:";

pub const SUBROUTINES_TITLE: &'static str = "Subroutines:";

pub const CLUSTERS_TITLE: &'static str = "Responsibility Clusters:";

pub const INDENT: &'static str = "  ";

pub const ITEM: &'static str = "  - ";

pub const NESTED_ITEM: &'static str = "    - ";

pub const LINES_LABEL: &'static str = "  Lines: ";

pub const LINES_DASH: &'static str = "-";

pub const NESTED_DEPENDENCIES_TITLE: &'static str = "  Dependencies:";

pub const DESCRIPTION_LABEL: &'static str = "  Description: ";

pub const CONFIDENCE_LABEL: &'static str = "  Confidence: ";

pub const RELATED_TITLE: &'static str = "  Related subroutines:";

pub const SUGGESTED_NAME_LABEL: &'static str = "  Suggested module name: ";

pub const PROPOSAL_TITLE: &'static str = "Refactoring Proposal for ";

pub const MODULES_TITLE: &'static str = "Suggested modules:";

pub const CONFIDENCE_OPENING: &'static str = " (confidence: ";

pub const CONFIDENCE_CLOSING: &'static str = ")";

pub const RESPONSIBILITY_LABEL: &'static str = "  Responsibility: ";

pub const SUBROUTINES_LABEL: &'static str = "  Subroutines: ";

pub const DEPENDENCIES_LABEL: &'static str = "  Dependencies: ";

pub const LIST_SEPARATOR: &'static str = ", ";

pub const IMPACT_TITLE: &'static str = "Impact Analysis:";

pub const COMPLEXITY_LABEL: &'static str = "  Complexity: ";

pub const EFFORT_LABEL: &'static str = "  Effort: ";

pub const RISKS_TITLE: &'static str = "  Risks:";

pub const BENEFITS_TITLE: &'static str = "  Benefits:";

/// Each of `items` behind `bullet`, one line each.
pub open spec fn bulleted(bullet: Seq<char>, items: Seq<Seq<char>>) -> Seq<Seq<char>> {
    Seq::new(items.len(), |i: int| bullet + items[i])
}

/// The lines that show one sub-routine: a blank line, its name, its line
/// range, and its dependencies where it has any.
pub open spec fn subroutine_lines(subroutine: SubroutineView) -> Seq<Seq<char>> {
    seq![
        Seq::empty(),
        INDENT@ + subroutine.name,
        LINES_LABEL@ + decimal(subroutine.line_start) + LINES_DASH@ + decimal(subroutine.line_end),
    ] + if subroutine.dependencies.len() > 0 {
        seq![NESTED_DEPENDENCIES_TITLE@] + bulleted(NESTED_ITEM@, subroutine.dependencies)
    } else {
        Seq::empty()
    }
}

/// The lines that show `subroutines`, one after the other.
pub open spec fn subroutines_lines(subroutines: Seq<SubroutineView>) -> Seq<Seq<char>>
    decreases subroutines.len(),
{
    if subroutines.len() == 0 {
        Seq::empty()
    } else {
        subroutines_lines(subroutines.drop_last()) + subroutine_lines(subroutines.last())
    }
}

/// The lines that show one cluster: a blank line, its name, description and
/// confidence, the sub-routines it names, and the module name it suggests
/// where it suggests one.
pub open spec fn cluster_lines(cluster: ClusterView) -> Seq<Seq<char>> {
    seq![
        Seq::empty(),
        INDENT@ + cluster.name,
        DESCRIPTION_LABEL@ + cluster.description,
        CONFIDENCE_LABEL@ + hundredths_numeral(cluster.confidence),
        RELATED_TITLE@,
    ] + bulleted(NESTED_ITEM@, cluster.related_subroutines) + match cluster.suggested_module_name {
        Some(name) => seq![SUGGESTED_NAME_LABEL@ + name],
        None => Seq::empty(),
    }
}

/// The lines that show `clusters`, one after the other.
pub open spec fn clusters_lines(clusters: Seq<ClusterView>) -> Seq<Seq<char>>
    decreases clusters.len(),
{
    if clusters.len() == 0 {
        Seq::empty()
    } else {
        clusters_lines(clusters.drop_last()) + cluster_lines(clusters.last())
    }
}

/// The report on the analysis of `module`, line by line.
pub open spec fn analysis_report(module: ModuleView) -> Seq<Seq<char>> {
    seq![
        ANALYSIS_TITLE@,
        NAME_LABEL@ + module.name,
        PATH_LABEL@ + module.path,
        Seq::empty(),
        DEPENDENCIES_TITLE@,
    ] + bulleted(ITEM@, module.dependencies) + seq![Seq::empty(), SUBROUTINES_TITLE@]
        + subroutines_lines(module.subroutines) + seq![Seq::empty(), CLUSTERS_TITLE@]
        + clusters_lines(module.responsibility_clusters)
}

/// The lines that show one proposed module: a blank line, its name and
/// confidence, its responsibility, and the names of its sub-routines and
/// its dependencies, each list on one line.
pub open spec fn proposed_module_lines(module: NewModuleView) -> Seq<Seq<char>> {
    seq![
        Seq::empty(),
        INDENT@ + module.name + CONFIDENCE_OPENING@ + hundredths_numeral(module.confidence)
            + CONFIDENCE_CLOSING@,
        RESPONSIBILITY_LABEL@ + module.responsibility,
        SUBROUTINES_LABEL@ + join(names_of(module.subroutines), LIST_SEPARATOR@),
        DEPENDENCIES_LABEL@ + join(module.dependencies, LIST_SEPARATOR@),
    ]
}

/// The lines that show `modules`, one after the other.
pub open spec fn proposed_modules_lines(modules: Seq<NewModuleView>) -> Seq<Seq<char>>
    decreases modules.len(),
{
    if modules.len() == 0 {
        Seq::empty()
    } else {
        proposed_modules_lines(modules.drop_last()) + proposed_module_lines(modules.last())
    }
}

/// The lines that show an impact estimate.
pub open spec fn impact_lines(impact: ImpactView) -> Seq<Seq<char>> {
    seq![
        Seq::empty(),
        IMPACT_TITLE@,
        COMPLEXITY_LABEL@ + decimal(impact.complexity),
        EFFORT_LABEL@ + impact.effort.spec_description(),
        Seq::empty(),
        RISKS_TITLE@,
    ] + bulleted(NESTED_ITEM@, impact.risks) + seq![Seq::empty(), BENEFITS_TITLE@] + bulleted(
        NESTED_ITEM@,
        impact.benefits,
    )
}

/// The report on `proposal`, line by line.
pub open spec fn proposal_report(proposal: ProposalView) -> Seq<Seq<char>> {
    seq![PROPOSAL_TITLE@ + proposal.original_module.name, Seq::empty(), MODULES_TITLE@]
        + proposed_modules_lines(proposal.suggested_modules) + impact_lines(proposal.impact)
}

fn labelled(label: &str, text: &str) -> (r: String)
    ensures
        r@ == label@ + text@,
{
    let mut line = String::from_str(label);
    line.append(text);
    line
}

fn push_bulleted(lines: &mut Vec<String>, bullet: &str, items: &Vec<String>)
    ensures
        final(lines).deep_view() == old(lines).deep_view() + bulleted(bullet@, items.deep_view()),
{
    let ghost before = lines.deep_view();
    let mut i: usize = 0;
    while i < items.len()
        invariant
            i <= items.len(),
            lines.len() == before.len() + i,
            forall|j: int| 0 <= j < before.len() ==> lines[j]@ == before[j],
            forall|j: int| 0 <= j < i ==> lines[before.len() + j]@ == bullet@ + items[j]@,
        decreases items.len() - i,
    {
        lines.push(labelled(bullet, items[i].as_str()));
        i = i + 1;
    }
    assert(lines.deep_view() =~= before + bulleted(bullet@, items.deep_view()));
}

fn push_subroutine(lines: &mut Vec<String>, subroutine: &Subroutine)
    ensures
        final(lines).deep_view() == old(lines).deep_view() + subroutine_lines(subroutine@),
{
    let ghost before = lines.deep_view();
    lines.push(String::new());
    lines.push(labelled(INDENT, subroutine.name.as_str()));
    let mut range = String::from_str(LINES_LABEL);
    let start = decimal_text(subroutine.line_start as u64);
    range.append(start.as_str());
    range.append(LINES_DASH);
    let end = decimal_text(subroutine.line_end as u64);
    range.append(end.as_str());
    lines.push(range);
    let ghost head = lines.deep_view();
    assert(head =~= before + seq![
        Seq::empty(),
        INDENT@ + subroutine@.name,
        LINES_LABEL@ + decimal(subroutine@.line_start) + LINES_DASH@ + decimal(
            subroutine@.line_end,
        ),
    ]);
    if subroutine.dependencies.len() > 0 {
        lines.push(String::from_str(NESTED_DEPENDENCIES_TITLE));
        let ghost titled = lines.deep_view();
        assert(titled =~= head + seq![NESTED_DEPENDENCIES_TITLE@]);
        push_bulleted(lines, NESTED_ITEM, &subroutine.dependencies);
        assert(lines.deep_view() =~= before + subroutine_lines(subroutine@));
    } else {
        assert(subroutine@.dependencies.len() == 0);
        assert(lines.deep_view() =~= before + subroutine_lines(subroutine@));
    }
}

fn push_cluster(lines: &mut Vec<String>, cluster: &ResponsibilityCluster)
    ensures
        final(lines).deep_view() == old(lines).deep_view() + cluster_lines(cluster@),
{
    let ghost before = lines.deep_view();
    lines.push(String::new());
    lines.push(labelled(INDENT, cluster.name.as_str()));
    lines.push(labelled(DESCRIPTION_LABEL, cluster.description.as_str()));
    let confidence = hundredths_text(cluster.confidence.millionths());
    lines.push(labelled(CONFIDENCE_LABEL, confidence.as_str()));
    lines.push(String::from_str(RELATED_TITLE));
    let ghost head = lines.deep_view();
    assert(head =~= before + seq![
        Seq::empty(),
        INDENT@ + cluster@.name,
        DESCRIPTION_LABEL@ + cluster@.description,
        CONFIDENCE_LABEL@ + hundredths_numeral(cluster@.confidence),
        RELATED_TITLE@,
    ]);
    push_bulleted(lines, NESTED_ITEM, &cluster.related_subroutines);
    let ghost listed = lines.deep_view();
    match &cluster.suggested_module_name {
        Some(name) => {
            lines.push(labelled(SUGGESTED_NAME_LABEL, name.as_str()));
            assert(lines.deep_view() =~= listed + seq![SUGGESTED_NAME_LABEL@ + name@]);
            assert(lines.deep_view() =~= before + cluster_lines(cluster@));
        },
        None => {
            assert(lines.deep_view() =~= before + cluster_lines(cluster@));
        },
    }
}

/// The report on the analysis of `module`: its name and path, its
/// dependencies, its sub-routines with their line ranges and dependencies,
/// and its responsibility clusters, as the lines to print.
pub fn module_analysis_report(module: &PerlModule) -> (r: Vec<String>)
    ensures
        r.deep_view() == analysis_report(module@),
{
    let mut lines: Vec<String> = Vec::new();
    lines.push(String::from_str(ANALYSIS_TITLE));
    lines.push(labelled(NAME_LABEL, module.name.as_str()));
    lines.push(labelled(PATH_LABEL, module.path.as_str()));
    lines.push(String::new());
    lines.push(String::from_str(DEPENDENCIES_TITLE));
    let ghost head = lines.deep_view();
    assert(head =~= seq![
        ANALYSIS_TITLE@,
        NAME_LABEL@ + module@.name,
        PATH_LABEL@ + module@.path,
        Seq::empty(),
        DEPENDENCIES_TITLE@,
    ]);
    push_bulleted(&mut lines, ITEM, &module.dependencies);
    let ghost listed = lines.deep_view();
    lines.push(String::new());
    lines.push(String::from_str(SUBROUTINES_TITLE));
    let ghost titled = lines.deep_view();
    assert(titled =~= listed + seq![Seq::empty(), SUBROUTINES_TITLE@]);
    let mut i: usize = 0;
    proof {
        assert(module@.subroutines.take(0).len() == 0);
        assert(titled + Seq::<Seq<char>>::empty() =~= titled);
    }
    while i < module.subroutines.len()
        invariant
            i <= module.subroutines.len(),
            lines.deep_view() == titled + subroutines_lines(module@.subroutines.take(i as int)),
        decreases module.subroutines.len() - i,
    {
        let ghost sofar = subroutines_lines(module@.subroutines.take(i as int));
        proof {
            let all = module@.subroutines;
            assert(all.take(i + 1).drop_last() == all.take(i as int));
            assert(all.take(i + 1).last() == module.subroutines[i as int]@);
        }
        push_subroutine(&mut lines, &module.subroutines[i]);
        assert(lines.deep_view() =~= titled + (sofar + subroutine_lines(
            module.subroutines[i as int]@,
        )));
        i = i + 1;
    }
    assert(module@.subroutines.take(i as int) == module@.subroutines);
    let ghost shown = lines.deep_view();
    lines.push(String::new());
    lines.push(String::from_str(CLUSTERS_TITLE));
    let ghost retitled = lines.deep_view();
    assert(retitled =~= shown + seq![Seq::empty(), CLUSTERS_TITLE@]);
    let mut k: usize = 0;
    proof {
        assert(module@.responsibility_clusters.take(0).len() == 0);
        assert(retitled + Seq::<Seq<char>>::empty() =~= retitled);
    }
    while k < module.responsibility_clusters.len()
        invariant
            k <= module.responsibility_clusters.len(),
            lines.deep_view() == retitled + clusters_lines(
                module@.responsibility_clusters.take(k as int),
            ),
        decreases module.responsibility_clusters.len() - k,
    {
        let ghost sofar = clusters_lines(module@.responsibility_clusters.take(k as int));
        proof {
            let all = module@.responsibility_clusters;
            assert(all.take(k + 1).drop_last() == all.take(k as int));
            assert(all.take(k + 1).last() == module.responsibility_clusters[k as int]@);
        }
        push_cluster(&mut lines, &module.responsibility_clusters[k]);
        assert(lines.deep_view() =~= retitled + (sofar + cluster_lines(
            module.responsibility_clusters[k as int]@,
        )));
        k = k + 1;
    }
    assert(module@.responsibility_clusters.take(k as int) == module@.responsibility_clusters);
    assert(lines.deep_view() =~= analysis_report(module@));
    lines
}

fn subroutine_names(subroutines: &Vec<Subroutine>) -> (r: Vec<String>)
    ensures
        r.deep_view() == names_of(subroutines.deep_view()),
{
    let mut names: Vec<String> = Vec::new();
    let mut i: usize = 0;
    while i < subroutines.len()
        invariant
            i <= subroutines.len(),
            names.len() == i,
            forall|j: int| 0 <= j < i ==> names[j]@ == subroutines[j].name@,
        decreases subroutines.len() - i,
    {
        names.push(subroutines[i].name.clone());
        i = i + 1;
    }
    assert(names.deep_view() =~= names_of(subroutines.deep_view()));
    names
}

fn push_proposed_module(lines: &mut Vec<String>, module: &NewModuleProposal)
    ensures
        final(lines).deep_view() == old(lines).deep_view() + proposed_module_lines(module@),
{
    let ghost before = lines.deep_view();
    lines.push(String::new());
    let mut title = labelled(INDENT, module.name.as_str());
    title.append(CONFIDENCE_OPENING);
    let confidence = hundredths_text(module.confidence.millionths());
    title.append(confidence.as_str());
    title.append(CONFIDENCE_CLOSING);
    lines.push(title);
    lines.push(labelled(RESPONSIBILITY_LABEL, module.responsibility.as_str()));
    let names = join_strings(&subroutine_names(&module.subroutines), LIST_SEPARATOR);
    lines.push(labelled(SUBROUTINES_LABEL, names.as_str()));
    let dependencies = join_strings(&module.dependencies, LIST_SEPARATOR);
    lines.push(labelled(DEPENDENCIES_LABEL, dependencies.as_str()));
    assert(lines.deep_view() =~= before + proposed_module_lines(module@));
}

fn push_impact(lines: &mut Vec<String>, impact: &RefactoringImpact)
    ensures
        final(lines).deep_view() == old(lines).deep_view() + impact_lines(impact@),
{
    let ghost before = lines.deep_view();
    lines.push(String::new());
    lines.push(String::from_str(IMPACT_TITLE));
    let complexity = decimal_text(impact.complexity as u64);
    lines.push(labelled(COMPLEXITY_LABEL, complexity.as_str()));
    let effort = impact.effort.description();
    lines.push(labelled(EFFORT_LABEL, effort.as_str()));
    lines.push(String::new());
    lines.push(String::from_str(RISKS_TITLE));
    let ghost head = lines.deep_view();
    assert(head =~= before + seq![
        Seq::empty(),
        IMPACT_TITLE@,
        COMPLEXITY_LABEL@ + decimal(impact@.complexity),
        EFFORT_LABEL@ + impact@.effort.spec_description(),
        Seq::empty(),
        RISKS_TITLE@,
    ]);
    push_bulleted(lines, NESTED_ITEM, &impact.risks);
    let ghost risks = lines.deep_view();
    lines.push(String::new());
    lines.push(String::from_str(BENEFITS_TITLE));
    let ghost titled = lines.deep_view();
    assert(titled =~= risks + seq![Seq::empty(), BENEFITS_TITLE@]);
    push_bulleted(lines, NESTED_ITEM, &impact.benefits);
    assert(lines.deep_view() =~= before + impact_lines(impact@));
}

/// The report on `proposal`: the module it is for, each proposed module
/// with its confidence, responsibility, sub-routines and dependencies, and
/// the impact with its risks and benefits, as the lines to print.
pub fn proposal_text_report(proposal: &RefactoringProposal) -> (r: Vec<String>)
    ensures
        r.deep_view() == proposal_report(proposal@),
{
    let mut lines: Vec<String> = Vec::new();
    lines.push(labelled(PROPOSAL_TITLE, proposal.original_module.name.as_str()));
    lines.push(String::new());
    lines.push(String::from_str(MODULES_TITLE));
    let ghost head = lines.deep_view();
    assert(head =~= seq![
        PROPOSAL_TITLE@ + proposal@.original_module.name,
        Seq::empty(),
        MODULES_TITLE@,
    ]);
    let mut i: usize = 0;
    proof {
        assert(proposal@.suggested_modules.take(0).len() == 0);
        assert(head + Seq::<Seq<char>>::empty() =~= head);
    }
    while i < proposal.suggested_modules.len()
        invariant
            i <= proposal.suggested_modules.len(),
            lines.deep_view() == head + proposed_modules_lines(
                proposal@.suggested_modules.take(i as int),
            ),
        decreases proposal.suggested_modules.len() - i,
    {
        let ghost sofar = proposed_modules_lines(proposal@.suggested_modules.take(i as int));
        proof {
            let all = proposal@.suggested_modules;
            assert(all.take(i + 1).drop_last() == all.take(i as int));
            assert(all.take(i + 1).last() == proposal.suggested_modules[i as int]@);
        }
        push_proposed_module(&mut lines, &proposal.suggested_modules[i]);
        assert(lines.deep_view() =~= head + (sofar + proposed_module_lines(
            proposal.suggested_modules[i as int]@,
        )));
        i = i + 1;
    }
    assert(proposal@.suggested_modules.take(i as int) == proposal@.suggested_modules);
    push_impact(&mut lines, &proposal.impact);
    lines
}

} // verus!
