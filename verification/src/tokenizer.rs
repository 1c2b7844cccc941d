//! The record tokenizer: splits raw analyzer output into one generic
//! word/feature record per recognized word, dropping the terminator line and
//! the trailing empty line, and silently skipping malformed lines that hold
//! no tab character.

use vstd::prelude::*;
use vstd::string::StrSliceExecFns;

use crate::split::{
    contains_char, first_index_of, lemma_first_index_of, lemma_first_index_of_unique,
    lemma_split_char_len, split_char, split_char_exec, string_views,
};

verus! {

/// One recognized token of raw analyzer output: the surface text and its
/// ordered feature vector, exactly as the analyzer emitted them.
#[derive(Debug, PartialEq, Eq)]
pub struct MecabParserResult {
    /// Surface text of the token (everything before the first tab).
    pub word: String,
    /// Dictionary-dependent feature tags (the comma-split remainder of the
    /// line); placeholder entries are kept verbatim.
    pub details: Vec<String>,
}

/// The mathematical content of a record: the word and its features as
/// character sequences.
pub struct RecordView {
    pub word: Seq<char>,
    pub details: Seq<Seq<char>>,
}

impl View for MecabParserResult {
    type V = RecordView;

    open spec fn view(&self) -> RecordView {
        RecordView { word: self.word@, details: string_views(self.details@) }
    }
}

impl MecabParserResult {
    /// Builds a record from its parts.
    pub fn new(word: String, details: Vec<String>) -> (r: Self)
        ensures
            r.word == word,
            r.details == details,
    {
        MecabParserResult { word, details }
    }
}

/// The views of a sequence of owned records.
pub open spec fn record_views(v: Seq<MecabParserResult>) -> Seq<RecordView> {
    v.map_values(|r: MecabParserResult| r@)
}

/// The record a single line denotes: the text before the first tab is the
/// word and the comma-split remainder is the feature vector; a line without
/// a tab denotes no record at all.
pub open spec fn record_of_line(line: Seq<char>) -> Option<RecordView> {
    if contains_char(line, '\t') {
        let i = first_index_of(line, '\t');
        Some(
            RecordView {
                word: line.subrange(0, i),
                details: split_char(line.subrange(i + 1, line.len() as int), ','),
            },
        )
    } else {
        None
    }
}

/// The records of a sequence of lines, in order, tab-less lines skipped.
pub open spec fn records_of_lines(lines: Seq<Seq<char>>) -> Seq<RecordView>
    decreases lines.len(),
{
    if lines.len() == 0 {
        Seq::empty()
    } else {
        let rest = records_of_lines(lines.drop_first());
        match record_of_line(lines[0]) {
            Some(r) => seq![r] + rest,
            None => rest,
        }
    }
}

/// The lines of raw analyzer output that carry tokens: everything except
/// the final two lines (the terminator sentinel and the empty line a
/// trailing newline produces); raw output of fewer than two lines carries
/// none.
pub open spec fn kept_lines(raw: Seq<char>) -> Seq<Seq<char>> {
    let lines = split_char(raw, '\n');
    if lines.len() >= 2 {
        lines.take(lines.len() - 2)
    } else {
        Seq::empty()
    }
}

/// What tokenization returns for raw analyzer output `raw`.
pub open spec fn tokenize_spec(raw: Seq<char>) -> Seq<RecordView> {
    records_of_lines(kept_lines(raw))
}

/// Appending a line appends exactly the records that line denotes.
pub proof fn lemma_records_of_lines_push(lines: Seq<Seq<char>>, line: Seq<char>)
    ensures
        records_of_lines(lines.push(line)) == records_of_lines(lines) + (match record_of_line(
            line,
        ) {
            Some(r) => seq![r],
            None => Seq::<RecordView>::empty(),
        }),
    decreases lines.len(),
{
    let pushed = lines.push(line);
    if lines.len() == 0 {
        reveal_with_fuel(records_of_lines, 2);
        assert(pushed[0] == line);
        assert(pushed.drop_first() =~= lines);
        match record_of_line(line) {
            Some(r) => {
                assert(records_of_lines(pushed) =~= records_of_lines(lines) + seq![r]);
            },
            None => {
                assert(records_of_lines(pushed) =~= records_of_lines(lines) + Seq::<
                    RecordView,
                >::empty());
            },
        }
    } else {
        assert(pushed.drop_first() =~= lines.drop_first().push(line));
        lemma_records_of_lines_push(lines.drop_first(), line);
        assert(pushed[0] == lines[0]);
        match record_of_line(line) {
            Some(r) => {
                assert(records_of_lines(pushed) =~= records_of_lines(lines) + seq![r]);
            },
            None => {
                assert(records_of_lines(pushed) =~= records_of_lines(lines) + Seq::<
                    RecordView,
                >::empty());
            },
        }
    }
}

/// Malformed-line tolerance: removing a line that holds no tab character
/// leaves the tokenized records unchanged.
pub proof fn lemma_line_without_tab_skipped(lines: Seq<Seq<char>>, i: int)
    requires
        0 <= i < lines.len(),
        !contains_char(lines[i], '\t'),
    ensures
        records_of_lines(lines.remove(i)) == records_of_lines(lines),
    decreases lines.len(),
{
    if i == 0 {
        assert(lines.remove(0) =~= lines.drop_first());
    } else {
        let rest = lines.drop_first();
        lemma_line_without_tab_skipped(rest, i - 1);
        assert(lines.remove(i).drop_first() =~= rest.remove(i - 1));
        assert(lines.remove(i)[0] == lines[0]);
    }
}

/// Tokenization is a function of the raw text alone: any two record
/// sequences that meet `tokenize`'s contract for equal raw output are equal.
pub proof fn lemma_tokenize_deterministic(raw: Seq<char>, a: Seq<RecordView>, b: Seq<RecordView>)
    requires
        a == tokenize_spec(raw),
        b == tokenize_spec(raw),
    ensures
        a == b,
{
}

/// Position of the first tab in `line`, when one stands there.
fn find_tab(line: &str) -> (r: Option<usize>)
    ensures
        match r {
            Some(j) => {
                &&& j < line@.len()
                &&& j == first_index_of(line@, '\t')
                &&& contains_char(line@, '\t')
            },
            None => !contains_char(line@, '\t'),
        },
{
    let n = line.unicode_len();
    let mut j: usize = 0;
    while j < n
        invariant
            n == line@.len(),
            j <= n,
            forall|k: int| 0 <= k < j ==> line@[k] != '\t',
        decreases n - j,
    {
        if line.get_char(j) == '\t' {
            proof {
                lemma_first_index_of_unique(line@, '\t', j as int);
            }
            return Some(j);
        }
        j = j + 1;
    }
    proof {
        lemma_first_index_of(line@, '\t');
    }
    None
}

/// Tokenizes raw analyzer output: one record per kept line that holds a tab,
/// in line order.
pub fn tokenize(raw: &str) -> (records: Vec<MecabParserResult>)
    ensures
        record_views(records@) == tokenize_spec(raw@),
{
    let lines = split_char_exec(raw, '\n');
    let mut records: Vec<MecabParserResult> = Vec::new();
    if lines.len() < 2 {
        proof {
            assert(kept_lines(raw@) =~= Seq::<Seq<char>>::empty());
            assert(record_views(records@) =~= tokenize_spec(raw@));
        }
        return records;
    }
    let end = lines.len() - 2;
    proof {
        assert(kept_lines(raw@) =~= string_views(lines@).take(end as int));
    }
    let mut idx: usize = 0;
    proof {
        assert(kept_lines(raw@).take(0) =~= Seq::<Seq<char>>::empty());
        assert(record_views(records@) =~= records_of_lines(kept_lines(raw@).take(0)));
    }
    while idx < end
        invariant
            idx <= end,
            end == lines@.len() - 2,
            lines@.len() >= 2,
            kept_lines(raw@) == string_views(lines@).take(end as int),
            record_views(records@) == records_of_lines(kept_lines(raw@).take(idx as int)),
        decreases end - idx,
    {
        let line = &lines[idx];
        let ghost kept = kept_lines(raw@);
        proof {
            assert(kept[idx as int] == line@);
            assert(kept.take(idx + 1) =~= kept.take(idx as int).push(line@));
            lemma_records_of_lines_push(kept.take(idx as int), line@);
        }
        match find_tab(line.as_str()) {
            Some(j) => {
                let n = line.as_str().unicode_len();
                let word = line.as_str().substring_char(0, j).to_owned();
                let blob = line.as_str().substring_char(j + 1, n);
                let details = split_char_exec(blob, ',');
                let record = MecabParserResult { word, details };
                proof {
                    let r = record_of_line(line@).unwrap();
                    assert(record@.word == r.word);
                    assert(record@.details == r.details);
                    assert(record@ == r);
                    assert(record_views(records@.push(record)) =~= record_views(records@).push(
                        record@,
                    ));
                    assert(record_views(records@.push(record)) =~= records_of_lines(
                        kept.take(idx + 1),
                    ));
                }
                records.push(record);
            },
            None => {
                proof {
                    assert(records_of_lines(kept.take(idx + 1)) =~= records_of_lines(
                        kept.take(idx as int),
                    ));
                }
            },
        }
        idx = idx + 1;
    }
    proof {
        assert(kept_lines(raw@).take(end as int) =~= kept_lines(raw@));
    }
    records
}

} // verus!
