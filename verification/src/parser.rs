//! The parser interface: the closed failure taxonomy, the contract-carrying
//! parser trait, and the capability interface of the black-box analyzer
//! engine.

use vstd::prelude::*;

verus! {

/// Every way the pipeline can fail, produced directly at the point of
/// detection.
#[derive(Debug, PartialEq, Eq)]
pub enum ParserError {
    /// The configured dictionary path does not exist on the filesystem at
    /// construction time.
    DictionaryIsNotFound,
    /// The dictionary path cannot be represented as valid unicode text.
    DictionaryPathMustBeEncodedWithUnicode,
    /// A required environment value was absent at construction time; `key`
    /// names it.
    EnvVarIsNotSet { key: String },
    /// Some tokenized record carried fewer than `at_least` features: a
    /// dictionary/schema mismatch, failing the whole batch.
    ParserResultHasIllegalState { at_least: usize },
    /// The analyzer engine call itself failed; the cause is passed through.
    EngineFailure { message: String },
}

/// A parser: one operation from an input text to an ordered sequence of
/// parsed values, or a categorized failure. Each implementation states its
/// own contract through `parse_req` and `parse_ens`.
pub trait Parser: Sized {
    type Parsed;

    /// What a caller must establish before calling `parse`.
    spec fn parse_req(&self, input: Seq<char>) -> bool;

    /// What the implementation promises of every `parse` outcome.
    spec fn parse_ens(&self, input: Seq<char>, r: Result<Vec<Self::Parsed>, ParserError>) -> bool;

    /// Analyzes one input text.
    fn parse(&self, input: &str) -> (r: Result<Vec<Self::Parsed>, ParserError>)
        requires
            self.parse_req(input@),
        ensures
            self.parse_ens(input@, r),
    ;
}

/// Capability interface of the black-box morphological analyzer: raw text
/// in, raw line-oriented analysis text out. Implementations live outside
/// the verified library (the native engine binding, or an in-memory fake
/// under test), and nothing is promised of what they return: callers state
/// what holds of every outcome.
pub trait AnalyzerEngine {
    /// Runs the analyzer once on `input`; a failure carries only an opaque
    /// message, which the pipeline surfaces as an engine failure.
    fn run(&self, input: &str) -> (r: Result<String, String>);
}

} // verus!
