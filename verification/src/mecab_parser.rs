//! The engine-level parser: wraps the black-box analyzer behind the
//! [`AnalyzerEngine`] capability and tokenizes whatever raw output it
//! returns. Also decides engine construction for a custom dictionary.

use vstd::prelude::*;
use vstd::string::StringExecFns;

use crate::parser::{AnalyzerEngine, Parser, ParserError};
use crate::tokenizer::{record_views, tokenize, tokenize_spec, MecabParserResult};

verus! {

/// A parser that runs the analyzer engine and tokenizes its raw output into
/// generic word/feature records.
pub struct MecabParser<E: AnalyzerEngine> {
    /// The engine this parser runs. Opaque: nothing is known of its output.
    pub engine: E,
}

impl<E: AnalyzerEngine> MecabParser<E> {
    /// Wraps an engine.
    pub fn new(engine: E) -> (r: Self)
        ensures
            r.engine == engine,
    {
        MecabParser { engine }
    }
}

impl<E: AnalyzerEngine> Parser for MecabParser<E> {
    type Parsed = MecabParserResult;

    open spec fn parse_req(&self, input: Seq<char>) -> bool {
        true
    }

    /// Whatever raw text the engine returned, the records are exactly its
    /// tokenization; an engine failure is passed through as such.
    open spec fn parse_ens(
        &self,
        input: Seq<char>,
        r: Result<Vec<MecabParserResult>, ParserError>,
    ) -> bool {
        &&& r matches Ok(v) ==> exists|raw: Seq<char>| record_views(v@) == #[trigger] tokenize_spec(
            raw,
        )
        &&& r matches Err(e) ==> e is EngineFailure
    }

    fn parse(&self, input: &str) -> (r: Result<Vec<MecabParserResult>, ParserError>) {
        match self.engine.run(input) {
            Ok(raw) => {
                let records = tokenize(raw.as_str());
                proof {
                    assert(record_views(records@) == tokenize_spec(raw@));
                }
                Ok(records)
            },
            Err(message) => Err(ParserError::EngineFailure { message }),
        }
    }
}

/// The view of an optional borrowed string.
pub open spec fn opt_str_view(o: Option<&str>) -> Option<Seq<char>> {
    match o {
        Some(s) => Some(s@),
        None => None,
    }
}

/// The argument text that binds the engine to a custom dictionary: the
/// dictionary flag and path, then any further arguments.
pub open spec fn dic_args_spec(path: Seq<char>, other: Option<Seq<char>>) -> Seq<char> {
    let base = "-d "@ + path;
    match other {
        Some(o) => base + " "@ + o,
        None => base,
    }
}

/// Decides engine construction against a custom dictionary. The caller
/// reports whether the dictionary path exists on the filesystem and whether
/// it could be represented as unicode text (`None` when it could not);
/// construction is refused unless both hold, and otherwise yields the
/// argument text the engine is to be started with.
pub fn with_custom_dic(dic_path_exists: bool, dic_path: Option<&str>, other_args: Option<&str>) -> (r:
    Result<String, ParserError>)
    ensures
        !dic_path_exists ==> r == Err::<String, ParserError>(ParserError::DictionaryIsNotFound),
        dic_path_exists && dic_path is None ==> r == Err::<String, ParserError>(
            ParserError::DictionaryPathMustBeEncodedWithUnicode,
        ),
        dic_path_exists ==> (dic_path matches Some(p) ==> (r matches Ok(args) && args@
            == dic_args_spec(p@, opt_str_view(other_args)))),
{
    if !dic_path_exists {
        return Err(ParserError::DictionaryIsNotFound);
    }
    match dic_path {
        None => Err(ParserError::DictionaryPathMustBeEncodedWithUnicode),
        Some(p) => {
            let mut args = "-d ".to_owned();
            args.append(p);
            match other_args {
                Some(o) => {
                    args.append(" ");
                    args.append(o);
                },
                None => {},
            }
            Ok(args)
        },
    }
}

} // verus!
