use mecab_wrapper::{split_char_exec, tokenize, MecabParserResult};

fn strings(v: Vec<&str>) -> Vec<String> {
    v.into_iter().map(|s| s.to_string()).collect()
}

#[test]
fn split_preserves_empty_pieces() {
    assert_eq!(split_char_exec("a,b,,c", ','), strings(vec!["a", "b", "", "c"]));
    assert_eq!(split_char_exec("", ','), strings(vec![""]));
    assert_eq!(split_char_exec(",", ','), strings(vec!["", ""]));
    assert_eq!(split_char_exec("abc", ','), strings(vec!["abc"]));
}

#[test]
fn tokenize_empty_input_yields_no_records() {
    assert!(tokenize("").is_empty());
    assert!(tokenize("EOS\n").is_empty());
}

#[test]
fn tokenize_well_formed_line_round_trip() {
    let records = tokenize("あ\tフィラー,*,*,*,*,*,あ,ア,ア\nEOS\n");
    assert_eq!(records.len(), 1);
    assert_eq!(records[0].word, "あ");
    assert_eq!(
        records[0].details,
        strings(vec!["フィラー", "*", "*", "*", "*", "*", "あ", "ア", "ア"])
    );
    assert_eq!(records[0].details.len(), 9);
}

#[test]
fn tokenize_skips_line_without_tab() {
    let records = tokenize("noise without a tab\nあ\tフィラー,*,*,*,*,*,あ,ア,ア\nEOS\n");
    assert_eq!(records.len(), 1);
    assert_eq!(records[0].word, "あ");
}

#[test]
fn tokenize_keeps_line_order() {
    let records = tokenize("一\tA,B\n二\tC\n三\tD,E,F\nEOS\n");
    let words: Vec<String> = records.iter().map(|r| r.word.clone()).collect();
    assert_eq!(words, strings(vec!["一", "二", "三"]));
    assert_eq!(records[1].details, strings(vec!["C"]));
}

#[test]
fn tokenize_splits_at_first_tab_only() {
    let records = tokenize("w\ta,b\tc\nEOS\n");
    assert_eq!(records.len(), 1);
    assert_eq!(records[0].word, "w");
    assert_eq!(records[0].details, strings(vec!["a", "b\tc"]));
}

#[test]
fn tokenize_twice_is_structurally_equal() {
    let raw = "あ\tフィラー,*,*,*,*,*,あ,ア,ア\n二\t名詞,X\nEOS\n";
    assert_eq!(tokenize(raw), tokenize(raw));
}

#[test]
fn record_constructor_keeps_parts() {
    let r = MecabParserResult::new("語".to_string(), strings(vec!["名詞", "*"]));
    assert_eq!(r.word, "語");
    assert_eq!(r.details, strings(vec!["名詞", "*"]));
}
