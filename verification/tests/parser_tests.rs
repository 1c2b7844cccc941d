use mecab_wrapper::{
    neologd_dic_path, parse_raw, project, validate, with_custom_dic, AnalyzerEngine,
    ErrMsgJsonGenerator, MecabParser, MecabParserResult, NeoglogdParser, NeologdParserResult,
    Parser, ParserError, Schema,
};

fn strings(v: Vec<&str>) -> Vec<String> {
    v.into_iter().map(|s| s.to_string()).collect()
}

/// An in-memory analyzer engine that answers every run with the same raw
/// output.
struct FixedEngine {
    raw: String,
}

impl AnalyzerEngine for FixedEngine {
    fn run(&self, _input: &str) -> Result<String, String> {
        Ok(self.raw.clone())
    }
}

/// An in-memory analyzer engine that always fails.
struct BrokenEngine;

impl AnalyzerEngine for BrokenEngine {
    fn run(&self, _input: &str) -> Result<String, String> {
        Err("engine unavailable".to_string())
    }
}

#[test]
fn create_parser_with_illegal_dic_path_should_return_err() {
    let res = with_custom_dic(false, Some("The dir path doesn't exist"), None);
    assert!(res.is_err());
    assert_eq!(res.err().unwrap(), ParserError::DictionaryIsNotFound);
}

#[test]
fn parse_empty_string_should_return_empty_vec() {
    let parser = MecabParser::new(FixedEngine { raw: "EOS\n".to_string() });
    assert!(parser.parse("").unwrap().is_empty())
}

#[test]
fn parse_string_should_return_result() {
    // NOTE: Mecab default dictionary should be IPADIC, so the expected result format is IPADIC.
    let parser = MecabParser::new(FixedEngine {
        raw: "あ\tフィラー,*,*,*,*,*,あ,ア,ア\nEOS\n".to_string(),
    });
    let expected = MecabParserResult::new(
        "あ".to_string(),
        strings(vec!["フィラー", "*", "*", "*", "*", "*", "あ", "ア", "ア"]),
    );
    assert_eq!(parser.parse("あ").unwrap(), vec![expected]);
}

#[test]
fn unicode_check_comes_after_existence_check() {
    let res = with_custom_dic(true, None, None);
    assert_eq!(
        res.err().unwrap(),
        ParserError::DictionaryPathMustBeEncodedWithUnicode
    );
}

#[test]
fn custom_dic_args_name_the_dictionary() {
    assert_eq!(with_custom_dic(true, Some("/dic"), None).unwrap(), "-d /dic");
    assert_eq!(
        with_custom_dic(true, Some("/dic"), Some("-Owakati")).unwrap(),
        "-d /dic -Owakati"
    );
}

#[test]
fn missing_env_value_names_its_key() {
    let res = neologd_dic_path(None);
    assert_eq!(
        res.err().unwrap(),
        ParserError::EnvVarIsNotSet { key: "NEOLOGD_DIC_PATH".to_string() }
    );
    assert_eq!(neologd_dic_path(Some("/dic".to_string())).unwrap(), "/dic");
}

#[test]
fn projection_collapses_placeholder_subtypes() {
    let record = MecabParserResult::new(
        "あ".to_string(),
        strings(vec!["フィラー", "*", "*", "*", "*", "*", "あ", "ア", "ア"]),
    );
    let schema = Schema::neologd();
    let projected = project(&record, &schema);
    assert_eq!(projected.input, "あ");
    assert_eq!(projected.part_of_speech, "フィラー");
    assert!(projected.parts_of_speech_subtyping.is_empty());
    assert_eq!(projected.conjugation_type, "*");
    assert_eq!(projected.conjugated_form, "*");
    assert_eq!(projected.original_form, "あ");
    assert_eq!(projected.reading, "ア");
}

#[test]
fn subtype_filtering_preserves_order_and_values() {
    let record = MecabParserResult::new(
        "田中".to_string(),
        strings(vec!["名詞", "固有名詞", "人名", "姓", "*", "*", "田中", "タナカ"]),
    );
    let schema = Schema::neologd();
    let projected = project(&record, &schema);
    assert_eq!(
        projected.parts_of_speech_subtyping,
        strings(vec!["固有名詞", "人名", "姓"])
    );
}

#[test]
fn from_record_refuses_short_feature_vectors() {
    let schema = Schema::neologd();
    let short = MecabParserResult::new("x".to_string(), strings(vec!["a", "b"]));
    assert!(NeologdParserResult::from_record(&short, &schema).is_none());
    let long = MecabParserResult::new(
        "田中".to_string(),
        strings(vec!["名詞", "固有名詞", "人名", "姓", "*", "*", "田中", "タナカ"]),
    );
    let projected = NeologdParserResult::from_record(&long, &schema).unwrap();
    assert_eq!(projected.input, "田中");
    assert_eq!(projected.original_form, "田中");
    assert_eq!(projected.reading, "タナカ");
}

#[test]
fn validate_accepts_exact_arity_and_rejects_one_short() {
    let schema = Schema::neologd();
    let ok = vec![MecabParserResult::new(
        "x".to_string(),
        strings(vec!["a", "b", "c", "d", "e", "f", "g", "h"]),
    )];
    assert!(validate(&ok, &schema).is_ok());
    let bad = vec![
        MecabParserResult::new(
            "x".to_string(),
            strings(vec!["a", "b", "c", "d", "e", "f", "g", "h"]),
        ),
        MecabParserResult::new("y".to_string(), strings(vec!["a", "b"])),
    ];
    assert_eq!(
        validate(&bad, &schema).err().unwrap(),
        ParserError::ParserResultHasIllegalState { at_least: 8 }
    );
}

#[test]
fn short_feature_vector_fails_whole_parse() {
    let schema = Schema::neologd();
    let raw = "あ\tフィラー,*,*,*,*,*,あ,ア,ア\nx\tA,B\nEOS\n";
    let res = parse_raw(raw, &schema);
    assert_eq!(
        res.err().unwrap(),
        ParserError::ParserResultHasIllegalState { at_least: 8 }
    );
}

#[test]
fn parse_raw_projects_every_record() {
    let schema = Schema::neologd();
    let raw = "田中\t名詞,固有名詞,人名,姓,*,*,田中,タナカ\nあ\tフィラー,*,*,*,*,*,あ,ア,ア\nEOS\n";
    let results = parse_raw(raw, &schema).unwrap();
    assert_eq!(results.len(), 2);
    assert_eq!(results[0].input, "田中");
    assert_eq!(
        results[0].parts_of_speech_subtyping,
        strings(vec!["固有名詞", "人名", "姓"])
    );
    assert_eq!(results[1].input, "あ");
    assert_eq!(results[1].reading, "ア");
}

#[test]
fn legacy_seven_field_schema_is_representable() {
    let schema = Schema {
        min_arity: 7,
        part_of_speech_index: 0,
        subtype_indices: vec![1, 2, 3],
        conjugation_type_index: 4,
        conjugated_form_index: 4,
        original_form_index: 5,
        reading_index: 6,
    };
    let raw = "走る\t動詞,自立,*,*,五段・ラ行,走る,ハシル\nEOS\n";
    let results = parse_raw(raw, &schema).unwrap();
    assert_eq!(results.len(), 1);
    assert_eq!(results[0].part_of_speech, "動詞");
    assert_eq!(results[0].parts_of_speech_subtyping, strings(vec!["自立"]));
    assert_eq!(results[0].conjugation_type, "五段・ラ行");
    assert_eq!(results[0].original_form, "走る");
    assert_eq!(results[0].reading, "ハシル");
}

#[test]
fn empty_input_parses_to_empty_batch() {
    let parser = NeoglogdParser::new(FixedEngine { raw: "EOS\n".to_string() });
    let batch = parser.parse_batch(&vec!["".to_string()]).unwrap();
    assert_eq!(batch.len(), 1);
    assert!(batch[0].is_empty());
}

#[test]
fn neologd_parse_projects_engine_output() {
    let parser = NeoglogdParser::new(FixedEngine {
        raw: "あ\tフィラー,*,*,*,*,*,あ,ア,ア\nEOS\n".to_string(),
    });
    let results = parser.parse("あ").unwrap();
    assert_eq!(results.len(), 1);
    assert_eq!(results[0].input, "あ");
    assert_eq!(results[0].part_of_speech, "フィラー");
    assert!(results[0].parts_of_speech_subtyping.is_empty());
}

#[test]
fn neologd_parse_rejects_short_records() {
    let parser = NeoglogdParser::new(FixedEngine { raw: "x\tA,B\nEOS\n".to_string() });
    assert_eq!(
        parser.parse("x").err().unwrap(),
        ParserError::ParserResultHasIllegalState { at_least: 8 }
    );
}

#[test]
fn engine_failure_is_passed_through() {
    let parser = NeoglogdParser::new(BrokenEngine);
    assert_eq!(
        parser.parse("x").err().unwrap(),
        ParserError::EngineFailure { message: "engine unavailable".to_string() }
    );
}

#[test]
fn batch_failure_returns_no_partial_results() {
    let parser = NeoglogdParser::new(FixedEngine { raw: "x\tA,B\nEOS\n".to_string() });
    let res = parser.parse_batch(&vec!["a".to_string(), "b".to_string()]);
    assert!(res.is_err());
}

#[test]
fn error_message_carrier_round_trips() {
    let by_value = ErrMsgJsonGenerator::new("boom".to_string());
    assert_eq!(by_value.into_message(), "boom");
    let by_ref = ErrMsgJsonGenerator::from_impl("kaboom");
    assert_eq!(by_ref.into_message(), "kaboom");
}
