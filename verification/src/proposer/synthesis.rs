//! The module synthesizer: from the selected clusters and the code generated
//! for each, the proposal with its modules and its impact.
use crate::domain::models::{
    ClusterView,
    Confidence,
    ModuleView,
    NewModuleProposal,
    NewModuleView,
    PerlModule,
    ProposalView,
    RefactoringProposal,
    ResponsibilityCluster,
    SubroutineView,
    DEFAULT_THRESHOLD_MILLIONTHS,
};
use crate::error::{Error, ErrorView};
use crate::gateway::{Attempt, AttemptView, FailureKind};
use crate::proposer::filter::{select, select_clusters};
use crate::proposer::impact::{analyze_impact, impact_of};
use crate::proposer::index::{duplicated_names, record_claim, Claims, SubroutineAssignmentIndex};
use crate::proposer::prompt::{module_name_for, target_module_name};
use crate::proposer::resolve::{
    collect_dependencies,
    lemma_resolved_are_original,
    resolve,
    resolve_subroutines,
    union_dependencies,
};
use vstd::prelude::*;

verus! {

pub const NO_CONFIDENT_CLUSTER: &'static str = "No high confidence responsibility clusters found";

pub const GENERATION_FAILED: &'static str = "Failed to generate module code: ";

/// A selected cluster together with the code generated for it.
#[derive(Debug, PartialEq, Eq)]
pub struct GeneratedCode {
    pub cluster: ResponsibilityCluster,
    pub code: String,
}

/// The mathematical value of a [`GeneratedCode`].
pub struct GeneratedView {
    pub cluster: ClusterView,
    pub code: Seq<char>,
}

impl View for GeneratedCode {
    type V = GeneratedView;

    open spec fn view(&self) -> GeneratedView {
        GeneratedView { cluster: self.cluster@, code: self.code@ }
    }
}

impl DeepView for GeneratedCode {
    type V = GeneratedView;

    open spec fn deep_view(&self) -> GeneratedView {
        self@
    }
}

/// The names of `subroutines`, in order.
pub open spec fn names_of(subroutines: Seq<SubroutineView>) -> Seq<Seq<char>> {
    Seq::new(subroutines.len(), |i: int| subroutines[i].name)
}

/// `claims` after `cluster` has claimed each of `names` in turn.
pub open spec fn record_all(claims: Claims, names: Seq<Seq<char>>, cluster: Seq<char>) -> Claims
    decreases names.len(),
{
    if names.len() == 0 {
        claims
    } else {
        record_claim(record_all(claims, names.drop_last(), cluster), names.last(), cluster)
    }
}

/// `claims` after `cluster` has claimed every sub-routine of `subroutines`
/// that one of its names resolves to.
pub open spec fn claims_after(
    claims: Claims,
    subroutines: Seq<SubroutineView>,
    cluster: ClusterView,
) -> Claims {
    record_all(
        claims,
        names_of(resolve(subroutines, cluster.related_subroutines)),
        cluster.name,
    )
}

/// The claims recorded when `clusters` are worked through in order.
pub open spec fn assignments(subroutines: Seq<SubroutineView>, clusters: Seq<ClusterView>) -> Claims
    decreases clusters.len(),
{
    if clusters.len() == 0 {
        Map::empty()
    } else {
        claims_after(assignments(subroutines, clusters.drop_last()), subroutines, clusters.last())
    }
}

/// The module proposed for `cluster`, given the code generated for it.
pub open spec fn module_for(module: ModuleView, cluster: ClusterView, code: Seq<char>) -> NewModuleView {
    let resolved = resolve(module.subroutines, cluster.related_subroutines);
    NewModuleView {
        name: target_module_name(module.name, cluster),
        responsibility: cluster.description,
        subroutines: resolved,
        dependencies: union_dependencies(resolved),
        suggested_code: code,
        confidence: cluster.confidence,
    }
}

/// The clusters of `generated`, in order.
pub open spec fn clusters_of(generated: Seq<GeneratedView>) -> Seq<ClusterView> {
    Seq::new(generated.len(), |i: int| generated[i].cluster)
}

/// The modules proposed for `generated`, one for each cluster, in order.
pub open spec fn modules_for(module: ModuleView, generated: Seq<GeneratedView>) -> Seq<
    NewModuleView,
> {
    Seq::new(generated.len(), |i: int| module_for(module, generated[i].cluster, generated[i].code))
}

/// The proposal for `module` from the generated code of its selected clusters.
pub open spec fn proposal_of(module: ModuleView, generated: Seq<GeneratedView>) -> ProposalView {
    ProposalView {
        original_module: module,
        suggested_modules: modules_for(module, generated),
        impact: impact_of(
            generated.len(),
            duplicated_names(assignments(module.subroutines, clusters_of(generated))).len(),
        ),
    }
}

/// Every claimed name is the name of a sub-routine of the model.
pub open spec fn claims_within(claims: Claims, subroutines: Seq<SubroutineView>) -> bool {
    claims.dom().subset_of(names_of(subroutines).to_set())
}

/// Recording the claims of one cluster claims only names of the model.
pub proof fn lemma_claims_after_within(
    claims: Claims,
    subroutines: Seq<SubroutineView>,
    cluster: ClusterView,
)
    requires
        claims_within(claims, subroutines),
    ensures
        claims_within(claims_after(claims, subroutines, cluster), subroutines),
{
    let resolved = resolve(subroutines, cluster.related_subroutines);
    lemma_resolved_are_original(subroutines, cluster.related_subroutines);
    assert forall|k: int| 0 <= k < resolved.len() implies names_of(subroutines).to_set().contains(
        #[trigger] names_of(resolved)[k],
    ) by {
        assert(subroutines.contains(resolved[k]));
        let i = choose|i: int| 0 <= i < subroutines.len() && subroutines[i] == resolved[k];
        assert(names_of(subroutines)[i] == resolved[k].name);
    }
    lemma_record_all_within(claims, names_of(resolved), cluster.name, names_of(subroutines).to_set());
}

proof fn lemma_record_all_within(
    claims: Claims,
    names: Seq<Seq<char>>,
    cluster: Seq<char>,
    allowed: Set<Seq<char>>,
)
    requires
        claims.dom().subset_of(allowed),
        forall|k: int| 0 <= k < names.len() ==> allowed.contains(#[trigger] names[k]),
    ensures
        record_all(claims, names, cluster).dom().subset_of(allowed),
    decreases names.len(),
{
    if names.len() > 0 {
        let rest = names.drop_last();
        assert forall|k: int| 0 <= k < rest.len() implies allowed.contains(#[trigger] rest[k]) by {
            assert(rest[k] == names[k]);
        }
        lemma_record_all_within(claims, rest, cluster, allowed);
        assert(allowed.contains(names[names.len() - 1]));
    }
}

/// No more names are claimed, and so no more are claimed twice, than the
/// model has sub-routines.
pub proof fn lemma_claims_bounded(claims: Claims, subroutines: Seq<SubroutineView>)
    requires
        claims_within(claims, subroutines),
    ensures
        claims.dom().finite(),
        duplicated_names(claims).finite(),
        duplicated_names(claims).len() <= claims.dom().len() <= subroutines.len(),
{
    let names = names_of(subroutines);
    vstd::seq_lib::seq_to_set_is_finite(names);
    names.lemma_cardinality_of_set();
    vstd::set_lib::lemma_len_subset(claims.dom(), names.to_set());
    assert(duplicated_names(claims).subset_of(claims.dom()));
    vstd::set_lib::lemma_len_subset(duplicated_names(claims), claims.dom());
}

/// The clusters of `module` that reach the default threshold, in order; a
/// validation error where none does.
pub fn high_confidence_clusters(module: &PerlModule) -> (r: Result<Vec<ResponsibilityCluster>, Error>)
    ensures
        match r {
            Ok(selected) => {
                &&& selected.deep_view() == select(
                    module@.responsibility_clusters,
                    DEFAULT_THRESHOLD_MILLIONTHS as nat,
                )
                &&& selected.len() > 0
            },
            Err(e) => {
                &&& select(module@.responsibility_clusters, DEFAULT_THRESHOLD_MILLIONTHS as nat).len()
                    == 0
                &&& e@ == ErrorView::ValidationError(NO_CONFIDENT_CLUSTER@)
            },
        },
{
    let selected = select_clusters(&module.responsibility_clusters, Confidence::default_threshold());
    assert(selected.deep_view().len() == selected.len());
    if selected.len() == 0 {
        Err(Error::ValidationError(String::from_str(NO_CONFIDENT_CLUSTER)))
    } else {
        Ok(selected)
    }
}

/// The failed attempt in which the service generated no code, with the
/// service's own words: a transport failure.
pub fn generation_failure(detail: &str) -> (r: Attempt)
    ensures
        r@ == (AttemptView::Failed {
            kind: FailureKind::Transport,
            detail: GENERATION_FAILED@ + detail@,
        }),
{
    let mut text = String::from_str(GENERATION_FAILED);
    text.append(detail);
    Attempt::Failed { kind: FailureKind::Transport, detail: text }
}

/// Builds the module proposed for `cluster` from the code generated for it,
/// and records in `index` that the cluster claimed each sub-routine that its
/// names resolve to. Every sub-routine of the result is a copy of one of the
/// model's.
pub fn build_module_proposal(
    module: &PerlModule,
    cluster: &ResponsibilityCluster,
    code: String,
    index: &mut SubroutineAssignmentIndex,
) -> (r: NewModuleProposal)
    ensures
        r@ == module_for(module@, cluster@, code@),
        final(index)@ == claims_after(old(index)@, module@.subroutines, cluster@),
        forall|k: int|
            0 <= k < r@.subroutines.len() ==> module@.subroutines.contains(
                #[trigger] r@.subroutines[k],
            ),
{
    let subroutines = resolve_subroutines(&module.subroutines, &cluster.related_subroutines);
    let ghost names = names_of(subroutines.deep_view());
    let mut i: usize = 0;
    proof {
        assert(names.take(0).len() == 0);
    }
    while i < subroutines.len()
        invariant
            i <= subroutines.len(),
            names == names_of(subroutines.deep_view()),
            index@ == record_all(old(index)@, names.take(i as int), cluster.name@),
        decreases subroutines.len() - i,
    {
        proof {
            assert(names.take(i + 1).drop_last() == names.take(i as int));
            assert(names.take(i + 1).last() == subroutines[i as int].name@);
        }
        index.record(&subroutines[i].name, &cluster.name);
        i = i + 1;
    }
    proof {
        assert(names.take(i as int) == names);
        lemma_resolved_are_original(module@.subroutines, cluster@.related_subroutines);
    }
    let dependencies = collect_dependencies(&subroutines);
    NewModuleProposal {
        name: module_name_for(&module.name, cluster),
        responsibility: cluster.description.clone(),
        subroutines,
        dependencies,
        suggested_code: code,
        confidence: cluster.confidence,
    }
}

/// Assembles the proposal for `module` from its selected clusters and the
/// code generated for each: one module per cluster, in order, and the
/// impact estimated from the modules and the recorded claims. Every
/// sub-routine of every proposed module is a copy of one of the model's.
pub fn assemble_proposal(module: &PerlModule, generated: Vec<GeneratedCode>) -> (r:
    RefactoringProposal)
    requires
        generated.len() + module.subroutines.len() <= u32::MAX,
    ensures
        r@ == proposal_of(module@, generated.deep_view()),
        forall|m: int, k: int|
            0 <= m < r@.suggested_modules.len() && 0 <= k < r@.suggested_modules[m].subroutines.len()
                ==> module@.subroutines.contains(
                #[trigger] r@.suggested_modules[m].subroutines[k],
            ),
{
    let ghost all = generated.deep_view();
    let ghost items = generated@;
    let ghost clusters = clusters_of(all);
    let mut suggested_modules: Vec<NewModuleProposal> = Vec::new();
    let mut index = SubroutineAssignmentIndex::new();
    proof {
        assert(clusters.take(0).len() == 0);
        assert(index@.dom() =~= Set::<Seq<char>>::empty());
    }
    for item in it: generated
        invariant
            it.seq() == items,
            items.len() == all.len(),
            forall|j: int| 0 <= j < items.len() ==> (#[trigger] items[j])@ == all[j],
            clusters == clusters_of(all),
            suggested_modules.len() == it.index(),
            forall|j: int|
                0 <= j < it.index() ==> (#[trigger] suggested_modules[j])@ == module_for(
                    module@,
                    all[j].cluster,
                    all[j].code,
                ),
            index@ == assignments(module@.subroutines, clusters.take(it.index() as int)),
            claims_within(index@, module@.subroutines),
    {
        let ghost i = it.index();
        proof {
            assert(item@ == all[i as int]);
            assert(clusters.take(i + 1).drop_last() == clusters.take(i as int));
            assert(clusters.take(i + 1).last() == item.cluster@);
            lemma_claims_after_within(index@, module@.subroutines, item.cluster@);
        }
        let proposed = build_module_proposal(module, &item.cluster, item.code, &mut index);
        suggested_modules.push(proposed);
    }
    proof {
        assert(clusters.take(items.len() as int) == clusters);
        lemma_claims_bounded(index@, module@.subroutines);
        assert(suggested_modules.deep_view() =~= modules_for(module@, all));
        assert forall|m: int, k: int|
            0 <= m < suggested_modules.len() && 0 <= k
                < suggested_modules.deep_view()[m].subroutines.len()
                implies module@.subroutines.contains(
            #[trigger] suggested_modules.deep_view()[m].subroutines[k],
        ) by {
            lemma_resolved_are_original(module@.subroutines, all[m].cluster.related_subroutines);
        }
    }
    let impact = analyze_impact(&suggested_modules, &index);
    RefactoringProposal { original_module: module.clone(), suggested_modules, impact }
}

} // verus!
