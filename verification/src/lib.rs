//! Normalization pipeline for the line-oriented output of a morphological
//! analyzer: raw text is tokenized into word/feature records, the feature
//! vectors are validated against a dictionary schema, and validated records
//! are projected into a typed result with derived sub-fields.
//!
//! The analyzer engine itself is an external collaborator reached through the
//! [`AnalyzerEngine`] capability trait; everything on this side of that trait
//! is verified.

mod err_msg_json_gen;
mod mecab_parser;
mod neologd_parser;
mod parser;
mod projector;
mod schema;
mod split;
mod tokenizer;

pub use err_msg_json_gen::ErrMsgJsonGenerator;
pub use mecab_parser::{dic_args_spec, opt_str_view, with_custom_dic, MecabParser};
pub use neologd_parser::{
    accounted_by_raw, neologd_dic_path, parse_raw, parse_raw_results, NeoglogdParser,
};
pub use parser::{AnalyzerEngine, Parser, ParserError};
pub use projector::{
    min_details_len_ok, placeholder, project, project_all, project_spec, result_views,
    subtypes_spec, validate, NeologdParserResult, ProjectedView,
};
pub use schema::{neologd_schema_view, Schema, SchemaView};
pub use split::{contains_char, first_index_of, split_char, split_char_exec, string_views};
pub use tokenizer::{
    record_of_line, record_views, records_of_lines, kept_lines, tokenize, tokenize_spec,
    MecabParserResult, RecordView,
};
