//! The failures that the pipeline reports, and the text each one shows.
use vstd::prelude::*;
use serde_json::Error as JsonError;
use vstd::std_specs::convert::FromSpecImpl;

verus! {

/// A failure of one pipeline stage. Every variant but `NoAIProvider` carries
/// the detail that the stage reported.
#[derive(Debug, PartialEq, Eq)]
pub enum Error {
    /// A structured response could not be decoded into the expected shape.
    ParseError(String),
    /// Responsibility analysis failed.
    AnalysisError(String),
    /// A business rule was violated; never retried.
    ValidationError(String),
    /// The text-generation service failed.
    AIError(String),
    /// A file could not be read or written; the detail names the path.
    IOError(String),
    /// A value could not be turned into its persisted form.
    SerializationError(String),
    /// Persisted state could not be decoded.
    DeserializationError(String),
    /// No text-generation provider is configured.
    NoAIProvider,
    /// A required environment variable is not set.
    MissingEnvVar(String),
}

/// The mathematical value of an [`Error`].
pub enum ErrorView {
    ParseError(Seq<char>),
    AnalysisError(Seq<char>),
    ValidationError(Seq<char>),
    AIError(Seq<char>),
    IOError(Seq<char>),
    SerializationError(Seq<char>),
    DeserializationError(Seq<char>),
    NoAIProvider,
    MissingEnvVar(Seq<char>),
}

impl ErrorView {
    /// The text shown to the user for this failure.
    pub open spec fn message(self) -> Seq<char> {
        match self {
            ErrorView::ParseError(detail) => "Parse error: "@ + detail,
            ErrorView::AnalysisError(detail) => "Analysis error: "@ + detail,
            ErrorView::ValidationError(detail) => "Validation error: "@ + detail,
            ErrorView::AIError(detail) => "AI service error: "@ + detail,
            ErrorView::IOError(detail) => "I/O error: "@ + detail,
            ErrorView::SerializationError(detail) => "Serialization error: "@ + detail,
            ErrorView::DeserializationError(detail) => "Deserialization error: "@ + detail,
            ErrorView::NoAIProvider => "No AI provider available"@,
            ErrorView::MissingEnvVar(name) => "Missing environment variable: "@ + name,
        }
    }
}

impl View for Error {
    type V = ErrorView;

    open spec fn view(&self) -> ErrorView {
        match self {
            Error::ParseError(detail) => ErrorView::ParseError(detail@),
            Error::AnalysisError(detail) => ErrorView::AnalysisError(detail@),
            Error::ValidationError(detail) => ErrorView::ValidationError(detail@),
            Error::AIError(detail) => ErrorView::AIError(detail@),
            Error::IOError(detail) => ErrorView::IOError(detail@),
            Error::SerializationError(detail) => ErrorView::SerializationError(detail@),
            Error::DeserializationError(detail) => ErrorView::DeserializationError(detail@),
            Error::NoAIProvider => ErrorView::NoAIProvider,
            Error::MissingEnvVar(name) => ErrorView::MissingEnvVar(name@),
        }
    }
}

impl Clone for Error {
    fn clone(&self) -> (r: Error)
        ensures
            r@ == self@,
    {
        match self {
            Error::ParseError(detail) => Error::ParseError(detail.clone()),
            Error::AnalysisError(detail) => Error::AnalysisError(detail.clone()),
            Error::ValidationError(detail) => Error::ValidationError(detail.clone()),
            Error::AIError(detail) => Error::AIError(detail.clone()),
            Error::IOError(detail) => Error::IOError(detail.clone()),
            Error::SerializationError(detail) => Error::SerializationError(detail.clone()),
            Error::DeserializationError(detail) => Error::DeserializationError(detail.clone()),
            Error::NoAIProvider => Error::NoAIProvider,
            Error::MissingEnvVar(name) => Error::MissingEnvVar(name.clone()),
        }
    }
}

fn prefixed(prefix: &str, detail: &String) -> (r: String)
    ensures
        r@ == prefix@ + detail@,
{
    let mut out = String::from_str(prefix);
    out.append(detail.as_str());
    out
}

impl Error {
    /// The text shown to the user for this failure.
    pub fn message(&self) -> (r: String)
        ensures
            r@ == self@.message(),
    {
        match self {
            Error::ParseError(detail) => prefixed("Parse error: ", detail),
            Error::AnalysisError(detail) => prefixed("Analysis error: ", detail),
            Error::ValidationError(detail) => prefixed("Validation error: ", detail),
            Error::AIError(detail) => prefixed("AI service error: ", detail),
            Error::IOError(detail) => prefixed("I/O error: ", detail),
            Error::SerializationError(detail) => prefixed("Serialization error: ", detail),
            Error::DeserializationError(detail) => prefixed("Deserialization error: ", detail),
            Error::NoAIProvider => String::from_str("No AI provider available"),
            Error::MissingEnvVar(name) => prefixed("Missing environment variable: ", name),
        }
    }

    /// The failure to persist a value, with the encoder's own words.
    pub fn serialization(detail: String) -> (r: Error)
        ensures
            r@ == ErrorView::SerializationError(detail@),
    {
        Error::SerializationError(detail)
    }
}

/// `serde_json::Error`, carried through as a value that nothing is known of.
#[verifier::external_type_specification]
#[verifier::external_body]
pub struct ExJsonError(JsonError);

/// `serde_json::Error`'s `Display` text, through `to_string`. Nothing is
/// claimed of the text: it may quote an operating-system message.
#[verifier::external_body]
fn json_error_text(err: &JsonError) -> (text: String) {
    err.to_string()
}

impl From<JsonError> for Error {
    /// A JSON failure becomes a `SerializationError` that carries the JSON
    /// library's description.
    fn from(err: JsonError) -> (r: Error)
        ensures
            r is SerializationError,
    {
        Error::serialization(json_error_text(&err))
    }
}

/// The conversion has no model: the detail is the JSON library's text, so
/// all that is stated of it is the `ensures` of `from`.
impl FromSpecImpl<JsonError> for Error {
    open spec fn obeys_from_spec() -> bool {
        false
    }

    open spec fn from_spec(err: JsonError) -> Error {
        arbitrary()
    }
}

} // verus!
