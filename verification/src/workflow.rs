//! The rules of the two operations that the pipeline offers: which source a
//! proposal starts from, how results are shown, and which clusters of a
//! model are acted upon.
use crate::domain::models::{
    ClusterView,
    PerlModule,
    ResponsibilityCluster,
    DEFAULT_THRESHOLD_MILLIONTHS,
};
use crate::error::{Error, ErrorView};
use crate::proposer::filter::select;
use crate::proposer::synthesis::{high_confidence_clusters, NO_CONFIDENT_CLUSTER};
use crate::text::text_eq;
use vstd::prelude::*;

verus! {

pub const BOTH_SOURCES: &'static str =
    "Cannot provide both file and analysis. Choose one or the other.";

pub const NO_SOURCE: &'static str =
    "Must provide either file to analyze or path to saved analysis.";

pub const NO_CLUSTERS: &'static str = "No responsibility clusters found to base refactoring on";

pub const SAVED_ANALYSIS_UNREADABLE: &'static str = "Failed to parse saved analysis: ";

/// The name of the output format that prints JSON.
pub const JSON_FORMAT: &'static str = "json";

/// Where the structural model of a proposal comes from.
#[derive(Debug, PartialEq, Eq)]
pub enum AnalysisSource {
    /// The source file at this path is parsed.
    ParseFile(String),
    /// The analysis saved at this path is loaded.
    LoadAnalysis(String),
}

/// The mathematical value of an [`AnalysisSource`].
pub enum AnalysisSourceView {
    ParseFile(Seq<char>),
    LoadAnalysis(Seq<char>),
}

impl View for AnalysisSource {
    type V = AnalysisSourceView;

    open spec fn view(&self) -> AnalysisSourceView {
        match self {
            AnalysisSource::ParseFile(path) => AnalysisSourceView::ParseFile(path@),
            AnalysisSource::LoadAnalysis(path) => AnalysisSourceView::LoadAnalysis(path@),
        }
    }
}

/// How results are shown.
#[derive(Debug, Clone, Copy, PartialEq, Eq, Structural)]
pub enum OutputFormat {
    Json,
    Text,
}

/// The source that the two optional paths select: exactly one of them must
/// be given.
pub open spec fn source_for(file: Option<Seq<char>>, analysis: Option<Seq<char>>) -> Result<
    AnalysisSourceView,
    ErrorView,
> {
    match (file, analysis) {
        (Some(path), None) => Ok(AnalysisSourceView::ParseFile(path)),
        (None, Some(path)) => Ok(AnalysisSourceView::LoadAnalysis(path)),
        (Some(_), Some(_)) => Err(ErrorView::ValidationError(BOTH_SOURCES@)),
        (None, None) => Err(ErrorView::ValidationError(NO_SOURCE@)),
    }
}

/// Selects the source of the structural model from the two optional paths.
/// Giving both, or neither, is a validation error.
pub fn choose_source(file: Option<String>, analysis: Option<String>) -> (r: Result<
    AnalysisSource,
    Error,
>)
    ensures
        match (r, source_for(file.deep_view(), analysis.deep_view())) {
            (Ok(source), Ok(wanted)) => source@ == wanted,
            (Err(error), Err(wanted)) => error@ == wanted,
            _ => false,
        },
{
    match (file, analysis) {
        (Some(path), None) => Ok(AnalysisSource::ParseFile(path)),
        (None, Some(path)) => Ok(AnalysisSource::LoadAnalysis(path)),
        (Some(_), Some(_)) => Err(Error::ValidationError(String::from_str(BOTH_SOURCES))),
        (None, None) => Err(Error::ValidationError(String::from_str(NO_SOURCE))),
    }
}

/// The output format that `name` selects: JSON for `json`, text for
/// anything else.
pub fn output_format(name: &str) -> (r: OutputFormat)
    ensures
        r == if name@ == JSON_FORMAT@ {
            OutputFormat::Json
        } else {
            OutputFormat::Text
        },
{
    if text_eq(name, JSON_FORMAT) {
        OutputFormat::Json
    } else {
        OutputFormat::Text
    }
}

/// The failure to decode a saved analysis, with the decoder's own words.
pub fn saved_analysis_failure(detail: &str) -> (r: Error)
    ensures
        r@ == ErrorView::DeserializationError(SAVED_ANALYSIS_UNREADABLE@ + detail@),
{
    let mut text = String::from_str(SAVED_ANALYSIS_UNREADABLE);
    text.append(detail);
    Error::DeserializationError(text)
}

/// The clusters of `module` that a proposal is built from: those that
/// reach the default threshold, in order. A model without clusters, and a
/// model none of whose clusters reaches the threshold, are validation
/// errors, each with its own message.
pub fn clusters_to_propose(module: &PerlModule) -> (r: Result<Vec<ResponsibilityCluster>, Error>)
    ensures
        match r {
            Ok(selected) => {
                &&& selected.deep_view() == select(
                    module@.responsibility_clusters,
                    DEFAULT_THRESHOLD_MILLIONTHS as nat,
                )
                &&& selected.len() > 0
            },
            Err(error) => {
                &&& select(module@.responsibility_clusters, DEFAULT_THRESHOLD_MILLIONTHS as nat).len()
                    == 0
                &&& error@ == ErrorView::ValidationError(
                    if module@.responsibility_clusters.len() == 0 {
                        NO_CLUSTERS@
                    } else {
                        NO_CONFIDENT_CLUSTER@
                    },
                )
            },
        },
{
    if module.responsibility_clusters.len() == 0 {
        proof {
            let all = module@.responsibility_clusters;
            assert(all.len() == 0);
            all.lemma_filter_len(
                |c: ClusterView| c.confidence >= DEFAULT_THRESHOLD_MILLIONTHS as nat,
            );
        }
        return Err(Error::ValidationError(String::from_str(NO_CLUSTERS)));
    }
    assert(module@.responsibility_clusters.len() == module.responsibility_clusters.len());
    high_confidence_clusters(module)
}

} // verus!
