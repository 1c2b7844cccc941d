//! The facade over the whole pipeline for the neologism dictionary: engine,
//! tokenizer, validator and projector composed into one operation, failing
//! fast for the whole batch on the first categorized failure.

use vstd::prelude::*;

use crate::mecab_parser::MecabParser;
use crate::parser::{AnalyzerEngine, Parser, ParserError};
use crate::projector::{
    min_details_len_ok, project_all, project_spec, result_views, validate, NeologdParserResult,
    ProjectedView,
};
use crate::schema::{neologd_schema_view, Schema, SchemaView};
use crate::tokenizer::{record_views, tokenize, tokenize_spec, RecordView};

verus! {

/// What a full parse of raw analyzer output yields under a schema: every
/// tokenized record, projected, in order.
pub open spec fn parse_raw_results(raw: Seq<char>, s: SchemaView) -> Seq<ProjectedView> {
    tokenize_spec(raw).map_values(|r: RecordView| project_spec(r, s))
}

/// A parse outcome is accounted for by some raw analyzer output: it passed
/// validation under the schema and is exactly that output's projection.
pub open spec fn accounted_by_raw(v: Seq<ProjectedView>, s: SchemaView) -> bool {
    exists|raw: Seq<char>|
        min_details_len_ok(#[trigger] tokenize_spec(raw), s.min_arity) && v == parse_raw_results(
            raw,
            s,
        )
}

/// Normalizes one text's worth of raw analyzer output: tokenize, validate
/// all-or-nothing against the schema, and project every record. Succeeds
/// exactly when every tokenized record carries enough features.
pub fn parse_raw(raw: &str, schema: &Schema) -> (r: Result<Vec<NeologdParserResult>, ParserError>)
    requires
        schema.wf(),
    ensures
        r is Ok <==> min_details_len_ok(tokenize_spec(raw@), schema@.min_arity),
        r matches Ok(v) ==> result_views(v@) == parse_raw_results(raw@, schema@),
        r matches Err(e) ==> e == (ParserError::ParserResultHasIllegalState {
            at_least: schema.min_arity,
        }),
{
    let records = tokenize(raw);
    match validate(&records, schema) {
        Err(e) => Err(e),
        Ok(_) => {
            let out = project_all(&records, schema);
            Ok(out)
        },
    }
}

/// Decides the construction-time lookup of the neologism dictionary path:
/// the caller hands in the environment value under the dictionary-path key,
/// and an absent value is the configuration failure naming that key.
pub fn neologd_dic_path(env_value: Option<String>) -> (r: Result<String, ParserError>)
    ensures
        env_value matches Some(v) ==> r == Ok::<String, ParserError>(v),
        env_value is None ==> (r matches Err(e) && e matches ParserError::EnvVarIsNotSet { key }
            && key@ == "NEOLOGD_DIC_PATH"@),
{
    match env_value {
        Some(v) => Ok(v),
        None => Err(ParserError::EnvVarIsNotSet { key: "NEOLOGD_DIC_PATH".to_owned() }),
    }
}

/// The schema-specific parser for the neologism dictionary: an engine-level
/// parser composed with validation and projection under its schema.
pub struct NeoglogdParser<E: AnalyzerEngine> {
    /// The engine-level parser that produces generic records.
    pub inner: MecabParser<E>,
    /// The active dictionary schema.
    pub schema: Schema,
}

impl<E: AnalyzerEngine> NeoglogdParser<E> {
    /// Wraps an engine bound to the neologism dictionary, under the
    /// extended schema.
    pub fn new(engine: E) -> (r: Self)
        ensures
            r.schema.wf(),
            r.schema@ == neologd_schema_view(),
    {
        NeoglogdParser { inner: MecabParser::new(engine), schema: Schema::neologd() }
    }

    /// Wraps an engine under an explicit schema.
    pub fn with_schema(engine: E, schema: Schema) -> (r: Self)
        requires
            schema.wf(),
        ensures
            r.schema == schema,
    {
        NeoglogdParser { inner: MecabParser::new(engine), schema }
    }

    /// Analyzes a batch of input texts, one engine run per text, failing
    /// fast: the first per-text failure aborts the whole batch, since a
    /// dictionary mismatch is a configuration problem, not a per-input
    /// anomaly.
    pub fn parse_batch(&self, inputs: &Vec<String>) -> (r: Result<
        Vec<Vec<NeologdParserResult>>,
        ParserError,
    >)
        requires
            self.schema.wf(),
        ensures
            r matches Ok(vs) ==> vs@.len() == inputs@.len(),
            r matches Ok(vs) ==> forall|i: int|
                0 <= i < vs@.len() ==> accounted_by_raw(
                    result_views((#[trigger] vs@[i])@),
                    self.schema@,
                ),
            r matches Err(e) ==> match e {
                ParserError::ParserResultHasIllegalState { at_least } => at_least
                    == self.schema.min_arity,
                ParserError::EngineFailure { .. } => true,
                _ => false,
            },
    {
        let mut out: Vec<Vec<NeologdParserResult>> = Vec::new();
        let mut i: usize = 0;
        while i < inputs.len()
            invariant
                i <= inputs@.len(),
                out@.len() == i,
                self.schema.wf(),
                forall|j: int|
                    0 <= j < i ==> accounted_by_raw(
                        result_views((#[trigger] out@[j])@),
                        self.schema@,
                    ),
            decreases inputs@.len() - i,
        {
            match self.parse(inputs[i].as_str()) {
                Ok(v) => {
                    out.push(v);
                },
                Err(e) => {
                    return Err(e);
                },
            }
            i = i + 1;
        }
        Ok(out)
    }
}

impl<E: AnalyzerEngine> Parser for NeoglogdParser<E> {
    type Parsed = NeologdParserResult;

    open spec fn parse_req(&self, input: Seq<char>) -> bool {
        self.schema.wf()
    }

    /// A success is the validated projection of some raw engine output; a
    /// failure is either the schema-mismatch failure, carrying this
    /// schema's minimum arity, or an engine failure passed through.
    open spec fn parse_ens(
        &self,
        input: Seq<char>,
        r: Result<Vec<NeologdParserResult>, ParserError>,
    ) -> bool {
        &&& r matches Ok(v) ==> accounted_by_raw(result_views(v@), self.schema@)
        &&& r matches Err(e) ==> match e {
            ParserError::ParserResultHasIllegalState { at_least } => at_least
                == self.schema.min_arity,
            ParserError::EngineFailure { .. } => true,
            _ => false,
        }
    }

    fn parse(&self, input: &str) -> (r: Result<Vec<NeologdParserResult>, ParserError>) {
        let records = match self.inner.parse(input) {
            Ok(records) => records,
            Err(e) => {
                return Err(e);
            },
        };
        match validate(&records, &self.schema) {
            Err(e) => Err(e),
            Ok(_) => {
                let out = project_all(&records, &self.schema);
                proof {
                    let raw = choose|raw: Seq<char>|
                        record_views(records@) == #[trigger] tokenize_spec(raw);
                    assert(min_details_len_ok(tokenize_spec(raw), self.schema@.min_arity));
                    assert(result_views(out@) == parse_raw_results(raw, self.schema@));
                }
                Ok(out)
            },
        }
    }
}

} // verus!
