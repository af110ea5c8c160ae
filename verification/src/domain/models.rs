//! The structural model of a source unit, the responsibility clusters found
//! in it, and the refactoring proposal built from both.
use crate::text::{millionths_numeral, millionths_text};
use vstd::prelude::*;

verus! {

/// How many parts make up a confidence of one.
pub const CONFIDENCE_SCALE: u32 = 1_000_000;

/// The threshold that clusters are held to where the caller names none:
/// seven tenths.
pub const DEFAULT_THRESHOLD_MILLIONTHS: u32 = 700_000;

/// A confidence score between zero and one, held in millionths.
#[derive(Debug, Clone, Copy, PartialEq, Eq)]
pub struct Confidence {
    millionths: u32,
}

impl View for Confidence {
    type V = nat;

    closed spec fn view(&self) -> nat {
        self.millionths as nat
    }
}

impl Confidence {
    #[verifier::type_invariant]
    spec fn in_unit_interval(self) -> bool {
        self.millionths <= CONFIDENCE_SCALE
    }

    /// The confidence of `millionths` parts in a million, if that is at most one.
    pub fn from_millionths(millionths: u32) -> (r: Option<Confidence>)
        ensures
            r is Some <==> millionths <= CONFIDENCE_SCALE,
            r matches Some(c) ==> c@ == millionths,
    {
        if millionths <= CONFIDENCE_SCALE {
            Some(Confidence { millionths })
        } else {
            None
        }
    }

    /// The threshold that clusters are held to where the caller names none.
    pub fn default_threshold() -> (r: Confidence)
        ensures
            r@ == DEFAULT_THRESHOLD_MILLIONTHS,
    {
        Confidence { millionths: DEFAULT_THRESHOLD_MILLIONTHS }
    }

    /// Certainty: a confidence of one.
    pub fn full() -> (r: Confidence)
        ensures
            r@ == CONFIDENCE_SCALE,
    {
        Confidence { millionths: CONFIDENCE_SCALE }
    }

    /// The score in millionths.
    pub fn millionths(&self) -> (r: u32)
        ensures
            r == self@,
            r <= CONFIDENCE_SCALE,
    {
        proof {
            use_type_invariant(self);
        }
        self.millionths
    }

    /// The score as a decimal numeral, such as `0.85`.
    pub fn text(&self) -> (r: String)
        ensures
            r@ == millionths_numeral(self@),
    {
        millionths_text(self.millionths)
    }

    /// Whether this score reaches `threshold`.
    pub fn at_least(&self, threshold: Confidence) -> (r: bool)
        ensures
            r == (self@ >= threshold@),
    {
        self.millionths >= threshold.millionths
    }
}

/// One sub-routine of a source unit.
#[derive(Debug, PartialEq, Eq)]
pub struct Subroutine {
    pub name: String,
    pub code: String,
    pub line_start: usize,
    pub line_end: usize,
    pub dependencies: Vec<String>,
}

/// The mathematical value of a [`Subroutine`].
pub struct SubroutineView {
    pub name: Seq<char>,
    pub code: Seq<char>,
    pub line_start: nat,
    pub line_end: nat,
    pub dependencies: Seq<Seq<char>>,
}

impl View for Subroutine {
    type V = SubroutineView;

    open spec fn view(&self) -> SubroutineView {
        SubroutineView {
            name: self.name@,
            code: self.code@,
            line_start: self.line_start as nat,
            line_end: self.line_end as nat,
            dependencies: self.dependencies.deep_view(),
        }
    }
}

impl DeepView for Subroutine {
    type V = SubroutineView;

    open spec fn deep_view(&self) -> SubroutineView {
        self@
    }
}

impl Clone for Subroutine {
    fn clone(&self) -> (r: Subroutine)
        ensures
            r@ == self@,
    {
        let dependencies = self.dependencies.clone();
        assert(dependencies.deep_view() =~= self.dependencies.deep_view());
        Subroutine {
            name: self.name.clone(),
            code: self.code.clone(),
            line_start: self.line_start,
            line_end: self.line_end,
            dependencies,
        }
    }
}

/// A confidence-scored group of sub-routine names that form one responsibility.
#[derive(Debug, PartialEq, Eq)]
pub struct ResponsibilityCluster {
    pub name: String,
    pub description: String,
    pub related_subroutines: Vec<String>,
    pub suggested_module_name: Option<String>,
    pub confidence: Confidence,
}

/// The mathematical value of a [`ResponsibilityCluster`].
pub struct ClusterView {
    pub name: Seq<char>,
    pub description: Seq<char>,
    pub related_subroutines: Seq<Seq<char>>,
    pub suggested_module_name: Option<Seq<char>>,
    pub confidence: nat,
}

impl View for ResponsibilityCluster {
    type V = ClusterView;

    open spec fn view(&self) -> ClusterView {
        ClusterView {
            name: self.name@,
            description: self.description@,
            related_subroutines: self.related_subroutines.deep_view(),
            suggested_module_name: self.suggested_module_name.deep_view(),
            confidence: self.confidence@,
        }
    }
}

impl DeepView for ResponsibilityCluster {
    type V = ClusterView;

    open spec fn deep_view(&self) -> ClusterView {
        self@
    }
}

impl Clone for ResponsibilityCluster {
    fn clone(&self) -> (r: ResponsibilityCluster)
        ensures
            r@ == self@,
    {
        let related_subroutines = self.related_subroutines.clone();
        assert(related_subroutines.deep_view() =~= self.related_subroutines.deep_view());
        let suggested_module_name = match &self.suggested_module_name {
            Some(name) => Some(name.clone()),
            None => None,
        };
        ResponsibilityCluster {
            name: self.name.clone(),
            description: self.description.clone(),
            related_subroutines,
            suggested_module_name,
            confidence: self.confidence,
        }
    }
}

/// The structural model of one source unit.
#[derive(Debug, PartialEq, Eq)]
pub struct PerlModule {
    /// The namespaced name, segments joined by `::`.
    pub name: String,
    pub path: String,
    pub content: String,
    pub subroutines: Vec<Subroutine>,
    pub dependencies: Vec<String>,
    pub responsibility_clusters: Vec<ResponsibilityCluster>,
}

/// The mathematical value of a [`PerlModule`].
pub struct ModuleView {
    pub name: Seq<char>,
    pub path: Seq<char>,
    pub content: Seq<char>,
    pub subroutines: Seq<SubroutineView>,
    pub dependencies: Seq<Seq<char>>,
    pub responsibility_clusters: Seq<ClusterView>,
}

impl ModuleView {
    /// No two sub-routines share a name, and each ends no earlier than it starts.
    pub open spec fn well_formed(self) -> bool {
        &&& forall|i: int, j: int|
            0 <= i < j < self.subroutines.len() ==> self.subroutines[i].name
                != self.subroutines[j].name
        &&& forall|i: int|
            0 <= i < self.subroutines.len() ==> (#[trigger] self.subroutines[i]).line_start
                <= self.subroutines[i].line_end
    }
}

impl View for PerlModule {
    type V = ModuleView;

    open spec fn view(&self) -> ModuleView {
        ModuleView {
            name: self.name@,
            path: self.path@,
            content: self.content@,
            subroutines: self.subroutines.deep_view(),
            dependencies: self.dependencies.deep_view(),
            responsibility_clusters: self.responsibility_clusters.deep_view(),
        }
    }
}

impl PerlModule {
    /// Whether no two sub-routines share a name and each ends no earlier
    /// than it starts.
    pub fn is_well_formed(&self) -> (r: bool)
        ensures
            r == self@.well_formed(),
    {
        let n = self.subroutines.len();
        let mut j: usize = 0;
        while j < n
            invariant
                n == self.subroutines.len(),
                j <= n,
                forall|a: int, b: int|
                    0 <= a < b < j ==> self.subroutines[a].name@ != self.subroutines[b].name@,
                forall|a: int|
                    0 <= a < j ==> self.subroutines[a].line_start <= self.subroutines[a].line_end,
            decreases n - j,
        {
            if self.subroutines[j].line_start > self.subroutines[j].line_end {
                assert(self@.subroutines[j as int].line_start > self@.subroutines[j as int].line_end);
                return false;
            }
            let mut i: usize = 0;
            while i < j
                invariant
                    n == self.subroutines.len(),
                    i <= j < n,
                    forall|a: int|
                        0 <= a < i ==> self.subroutines[a].name@ != self.subroutines[j as int].name@,
                decreases j - i,
            {
                if self.subroutines[i].name == self.subroutines[j].name {
                    assert(self@.subroutines[i as int].name == self@.subroutines[j as int].name);
                    return false;
                }
                i = i + 1;
            }
            j = j + 1;
        }
        assert forall|a: int, b: int| 0 <= a < b < self@.subroutines.len() implies self@.subroutines[a].name
            != self@.subroutines[b].name by {
            assert(self@.subroutines[a].name == self.subroutines[a].name@);
            assert(self@.subroutines[b].name == self.subroutines[b].name@);
        }
        assert forall|a: int| 0 <= a < self@.subroutines.len() implies (
        #[trigger] self@.subroutines[a]).line_start <= self@.subroutines[a].line_end by {
            assert(self@.subroutines[a].line_start == self.subroutines[a].line_start);
        }
        true
    }
}

impl Clone for PerlModule {
    fn clone(&self) -> (r: PerlModule)
        ensures
            r@ == self@,
    {
        let dependencies = self.dependencies.clone();
        assert(dependencies.deep_view() =~= self.dependencies.deep_view());
        PerlModule {
            name: self.name.clone(),
            path: self.path.clone(),
            content: self.content.clone(),
            subroutines: copy_subroutines(&self.subroutines),
            dependencies,
            responsibility_clusters: copy_clusters(&self.responsibility_clusters),
        }
    }
}

/// A copy of `items`, value for value.
pub fn copy_subroutines(items: &Vec<Subroutine>) -> (r: Vec<Subroutine>)
    ensures
        r.deep_view() == items.deep_view(),
{
    let mut out: Vec<Subroutine> = Vec::new();
    let mut i: usize = 0;
    while i < items.len()
        invariant
            i <= items.len(),
            out.len() == i,
            forall|j: int| 0 <= j < i ==> out[j]@ == items[j]@,
        decreases items.len() - i,
    {
        out.push(items[i].clone());
        i = i + 1;
    }
    assert(out.deep_view() =~= items.deep_view());
    out
}

/// A copy of `items`, value for value.
pub fn copy_clusters(items: &Vec<ResponsibilityCluster>) -> (r: Vec<ResponsibilityCluster>)
    ensures
        r.deep_view() == items.deep_view(),
{
    let mut out: Vec<ResponsibilityCluster> = Vec::new();
    let mut i: usize = 0;
    while i < items.len()
        invariant
            i <= items.len(),
            out.len() == i,
            forall|j: int| 0 <= j < i ==> out[j]@ == items[j]@,
        decreases items.len() - i,
    {
        out.push(items[i].clone());
        i = i + 1;
    }
    assert(out.deep_view() =~= items.deep_view());
    out
}

/// One new module that the proposal suggests, covering one cluster.
#[derive(Debug, PartialEq, Eq)]
pub struct NewModuleProposal {
    pub name: String,
    pub responsibility: String,
    pub subroutines: Vec<Subroutine>,
    /// The dependencies of the module's sub-routines, each once.
    pub dependencies: Vec<String>,
    pub suggested_code: String,
    pub confidence: Confidence,
}

/// The mathematical value of a [`NewModuleProposal`].
pub struct NewModuleView {
    pub name: Seq<char>,
    pub responsibility: Seq<char>,
    pub subroutines: Seq<SubroutineView>,
    pub dependencies: Seq<Seq<char>>,
    pub suggested_code: Seq<char>,
    pub confidence: nat,
}

impl View for NewModuleProposal {
    type V = NewModuleView;

    open spec fn view(&self) -> NewModuleView {
        NewModuleView {
            name: self.name@,
            responsibility: self.responsibility@,
            subroutines: self.subroutines.deep_view(),
            dependencies: self.dependencies.deep_view(),
            suggested_code: self.suggested_code@,
            confidence: self.confidence@,
        }
    }
}

impl DeepView for NewModuleProposal {
    type V = NewModuleView;

    open spec fn deep_view(&self) -> NewModuleView {
        self@
    }
}

impl Clone for NewModuleProposal {
    fn clone(&self) -> (r: NewModuleProposal)
        ensures
            r@ == self@,
    {
        let dependencies = self.dependencies.clone();
        assert(dependencies.deep_view() =~= self.dependencies.deep_view());
        NewModuleProposal {
            name: self.name.clone(),
            responsibility: self.responsibility.clone(),
            subroutines: copy_subroutines(&self.subroutines),
            dependencies,
            suggested_code: self.suggested_code.clone(),
            confidence: self.confidence,
        }
    }
}

/// How much work a refactoring is expected to take.
#[derive(Debug, Clone, Copy, PartialEq, Eq, Structural)]
pub enum EffortTier {
    Low,
    Medium,
    High,
}

impl EffortTier {
    /// The fixed description of each tier.
    pub open spec fn spec_description(self) -> Seq<char> {
        match self {
            EffortTier::Low => "Low: Less than 1 day"@,
            EffortTier::Medium => "Medium: 1-3 days"@,
            EffortTier::High => "High: More than 3 days"@,
        }
    }

    /// The fixed description of this tier.
    pub fn description(&self) -> (r: String)
        ensures
            r@ == self.spec_description(),
    {
        match self {
            EffortTier::Low => String::from_str("Low: Less than 1 day"),
            EffortTier::Medium => String::from_str("Medium: 1-3 days"),
            EffortTier::High => String::from_str("High: More than 3 days"),
        }
    }
}

/// The estimated impact of a refactoring proposal.
#[derive(Debug, PartialEq, Eq)]
pub struct RefactoringImpact {
    pub complexity: u32,
    pub effort: EffortTier,
    pub risks: Vec<String>,
    pub benefits: Vec<String>,
}

/// The mathematical value of a [`RefactoringImpact`].
pub struct ImpactView {
    pub complexity: nat,
    pub effort: EffortTier,
    pub risks: Seq<Seq<char>>,
    pub benefits: Seq<Seq<char>>,
}

impl View for RefactoringImpact {
    type V = ImpactView;

    open spec fn view(&self) -> ImpactView {
        ImpactView {
            complexity: self.complexity as nat,
            effort: self.effort,
            risks: self.risks.deep_view(),
            benefits: self.benefits.deep_view(),
        }
    }
}

impl Clone for RefactoringImpact {
    fn clone(&self) -> (r: RefactoringImpact)
        ensures
            r@ == self@,
    {
        let risks = self.risks.clone();
        assert(risks.deep_view() =~= self.risks.deep_view());
        let benefits = self.benefits.clone();
        assert(benefits.deep_view() =~= self.benefits.deep_view());
        RefactoringImpact { complexity: self.complexity, effort: self.effort, risks, benefits }
    }
}

/// A complete refactoring proposal for one source unit.
#[derive(Debug, PartialEq, Eq)]
pub struct RefactoringProposal {
    pub original_module: PerlModule,
    pub suggested_modules: Vec<NewModuleProposal>,
    pub impact: RefactoringImpact,
}

/// The mathematical value of a [`RefactoringProposal`].
pub struct ProposalView {
    pub original_module: ModuleView,
    pub suggested_modules: Seq<NewModuleView>,
    pub impact: ImpactView,
}

impl View for RefactoringProposal {
    type V = ProposalView;

    open spec fn view(&self) -> ProposalView {
        ProposalView {
            original_module: self.original_module@,
            suggested_modules: self.suggested_modules.deep_view(),
            impact: self.impact@,
        }
    }
}

/// The outcome of validating a proposal's dependencies.
#[derive(Debug, PartialEq, Eq)]
pub struct ValidationResult {
    pub is_valid: bool,
    pub issues: Vec<String>,
    pub warnings: Vec<String>,
}

/// The mathematical value of a [`ValidationResult`].
pub struct ValidationView {
    pub is_valid: bool,
    pub issues: Seq<Seq<char>>,
    pub warnings: Seq<Seq<char>>,
}

impl View for ValidationResult {
    type V = ValidationView;

    open spec fn view(&self) -> ValidationView {
        ValidationView {
            is_valid: self.is_valid,
            issues: self.issues.deep_view(),
            warnings: self.warnings.deep_view(),
        }
    }
}

} // verus!
