//! Validation and projection: checks every record's feature vector against
//! the schema's minimum arity (all-or-nothing), and projects a validated
//! record into the typed, schema-specific result.

use vstd::prelude::*;

use crate::parser::ParserError;
use crate::schema::{Schema, SchemaView};
use crate::split::string_views;
use crate::tokenizer::{record_views, MecabParserResult, RecordView};

verus! {

/// The typed decomposition of one validated token.
#[derive(Debug, PartialEq, Eq)]
pub struct NeologdParserResult {
    /// Original surface text of the token.
    pub input: String,
    /// Primary grammatical category.
    pub part_of_speech: String,
    /// Secondary category tags in configured order, placeholders removed.
    pub parts_of_speech_subtyping: Vec<String>,
    /// Conjugation type.
    pub conjugation_type: String,
    /// Conjugated form.
    pub conjugated_form: String,
    /// Original (dictionary) form.
    pub original_form: String,
    /// Reading.
    pub reading: String,
}

/// The mathematical content of a projected result.
pub struct ProjectedView {
    pub input: Seq<char>,
    pub part_of_speech: Seq<char>,
    pub parts_of_speech_subtyping: Seq<Seq<char>>,
    pub conjugation_type: Seq<char>,
    pub conjugated_form: Seq<char>,
    pub original_form: Seq<char>,
    pub reading: Seq<char>,
}

impl View for NeologdParserResult {
    type V = ProjectedView;

    open spec fn view(&self) -> ProjectedView {
        ProjectedView {
            input: self.input@,
            part_of_speech: self.part_of_speech@,
            parts_of_speech_subtyping: string_views(self.parts_of_speech_subtyping@),
            conjugation_type: self.conjugation_type@,
            conjugated_form: self.conjugated_form@,
            original_form: self.original_form@,
            reading: self.reading@,
        }
    }
}

impl NeologdParserResult {
    /// Builds a projected result from its parts.
    pub fn new(
        input: String,
        part_of_speech: String,
        parts_of_speech_subtyping: Vec<String>,
        conjugation_type: String,
        conjugated_form: String,
        original_form: String,
        reading: String,
    ) -> (r: Self)
        ensures
            r == (NeologdParserResult {
                input,
                part_of_speech,
                parts_of_speech_subtyping,
                conjugation_type,
                conjugated_form,
                original_form,
                reading,
            }),
    {
        NeologdParserResult {
            input,
            part_of_speech,
            parts_of_speech_subtyping,
            conjugation_type,
            conjugated_form,
            original_form,
            reading,
        }
    }
}

impl NeologdParserResult {
    /// The per-record face of validation and projection: projects one
    /// record exactly when its feature vector carries the schema's minimum
    /// arity, and refuses it otherwise.
    pub fn from_record(record: &MecabParserResult, schema: &Schema) -> (r: Option<
        NeologdParserResult,
    >)
        requires
            schema.wf(),
        ensures
            r is Some <==> record@.details.len() >= schema@.min_arity,
            r matches Some(p) ==> p@ == project_spec(record@, schema@),
    {
        if record.details.len() < schema.min_arity {
            None
        } else {
            Some(project(record, schema))
        }
    }
}

/// The views of a sequence of owned projected results.
pub open spec fn result_views(v: Seq<NeologdParserResult>) -> Seq<ProjectedView> {
    v.map_values(|r: NeologdParserResult| r@)
}

/// The placeholder sentinel the analyzer writes for "field not applicable".
pub open spec fn placeholder() -> Seq<char> {
    "*"@
}

/// The subtype tags a feature vector yields under the configured subtype
/// indices: the features at those indices, in configured order, with
/// entries equal to the placeholder sentinel removed.
pub open spec fn subtypes_spec(details: Seq<Seq<char>>, idxs: Seq<int>) -> Seq<Seq<char>> {
    idxs.map_values(|i: int| details[i]).filter(|v: Seq<char>| v != placeholder())
}

/// Reading no subtype indices yields no subtype tags.
pub proof fn lemma_subtypes_spec_empty(details: Seq<Seq<char>>)
    ensures
        subtypes_spec(details, Seq::<int>::empty()) == Seq::<Seq<char>>::empty(),
{
    reveal_with_fuel(Seq::filter, 2);
    assert(Seq::<int>::empty().map_values(|i: int| details[i]) =~= Seq::<Seq<char>>::empty());
    assert(subtypes_spec(details, Seq::<int>::empty()) =~= Seq::<Seq<char>>::empty());
}

/// Reading one more subtype index appends its feature entry exactly when
/// that entry is not the placeholder.
pub proof fn lemma_subtypes_spec_take_step(details: Seq<Seq<char>>, idxs: Seq<int>, k: int)
    requires
        0 <= k < idxs.len(),
    ensures
        subtypes_spec(details, idxs.take(k + 1)) == if details[idxs[k]] != placeholder() {
            subtypes_spec(details, idxs.take(k)).push(details[idxs[k]])
        } else {
            subtypes_spec(details, idxs.take(k))
        },
{
    reveal_with_fuel(Seq::filter, 2);
    let f = |i: int| details[i];
    let pred = |v: Seq<char>| v != placeholder();
    let a = idxs.take(k).map_values(f);
    let x = details[idxs[k]];
    assert(idxs.take(k + 1) =~= idxs.take(k).push(idxs[k]));
    assert(idxs.take(k + 1).map_values(f) =~= a + seq![x]);
    Seq::filter_distributes_over_add(a, seq![x], pred);
    assert(seq![x].drop_last() =~= Seq::<Seq<char>>::empty());
    if pred(x) {
        assert(seq![x].filter(pred) =~= seq![x]);
        assert(subtypes_spec(details, idxs.take(k + 1)) =~= subtypes_spec(
            details,
            idxs.take(k),
        ).push(x));
    } else {
        assert(seq![x].filter(pred) =~= Seq::<Seq<char>>::empty());
        assert(subtypes_spec(details, idxs.take(k + 1)) =~= subtypes_spec(details, idxs.take(k)));
    }
}

/// Subtype filtering preserves order and non-placeholder values: the
/// subtyping sequence never holds the placeholder, holds every configured
/// non-placeholder entry, and never holds more entries than are configured.
/// (That the surviving entries keep their configured order is the filter
/// equation `subtypes_spec` itself.)
pub proof fn lemma_subtype_filtering(details: Seq<Seq<char>>, idxs: Seq<int>)
    ensures
        forall|i: int|
            0 <= i < subtypes_spec(details, idxs).len() ==> #[trigger] subtypes_spec(
                details,
                idxs,
            )[i] != placeholder(),
        forall|k: int|
            0 <= k < idxs.len() && details[idxs[k]] != placeholder() ==> subtypes_spec(
                details,
                idxs,
            ).contains(#[trigger] details[idxs[k]]),
        subtypes_spec(details, idxs).len() <= idxs.len(),
{
    broadcast use vstd::seq_lib::group_filter_ensures;

    let f = |i: int| details[i];
    let pred = |v: Seq<char>| v != placeholder();
    let mapped = idxs.map_values(f);
    assert forall|k: int|
        0 <= k < idxs.len() && details[idxs[k]] != placeholder() implies subtypes_spec(
        details,
        idxs,
    ).contains(#[trigger] details[idxs[k]]) by {
        assert(mapped[k] == details[idxs[k]]);
        assert(pred(mapped[k]));
    }
}

/// All-or-nothing batch validity: every record carries at least `min_arity`
/// features.
pub open spec fn min_details_len_ok(records: Seq<RecordView>, min_arity: int) -> bool {
    forall|i: int|
        0 <= i < records.len() ==> (#[trigger] records[i].details.len()) >= min_arity
}

/// Validates a whole batch of records against the schema's minimum arity.
/// The policy is all-or-nothing: one short feature vector fails the batch,
/// so a caller that gets `Ok` knows every record is projectable.
pub fn validate(records: &Vec<MecabParserResult>, schema: &Schema) -> (r: Result<(), ParserError>)
    ensures
        r is Ok <==> min_details_len_ok(record_views(records@), schema@.min_arity),
        r matches Err(e) ==> e == (ParserError::ParserResultHasIllegalState {
            at_least: schema.min_arity,
        }),
{
    let mut i: usize = 0;
    while i < records.len()
        invariant
            i <= records@.len(),
            forall|j: int|
                0 <= j < i ==> (#[trigger] record_views(records@)[j].details.len())
                    >= schema@.min_arity,
        decreases records@.len() - i,
    {
        if records[i].details.len() < schema.min_arity {
            proof {
                assert(record_views(records@)[i as int].details.len() == records@[i as int]@.details.len());
                assert(!min_details_len_ok(record_views(records@), schema@.min_arity));
            }
            return Err(ParserError::ParserResultHasIllegalState { at_least: schema.min_arity });
        }
        i = i + 1;
    }
    Ok(())
}

/// What projecting a validated record under a schema yields: each named
/// field is the feature at its configured index, verbatim, and the subtype
/// tags are the filtered subtype entries.
pub open spec fn project_spec(r: RecordView, s: SchemaView) -> ProjectedView {
    ProjectedView {
        input: r.word,
        part_of_speech: r.details[s.part_of_speech_index],
        parts_of_speech_subtyping: subtypes_spec(r.details, s.subtype_indices),
        conjugation_type: r.details[s.conjugation_type_index],
        conjugated_form: r.details[s.conjugated_form_index],
        original_form: r.details[s.original_form_index],
        reading: r.details[s.reading_index],
    }
}

/// Projects every record of a validated batch, in order.
pub fn project_all(records: &Vec<MecabParserResult>, schema: &Schema) -> (out: Vec<
    NeologdParserResult,
>)
    requires
        schema.wf(),
        min_details_len_ok(record_views(records@), schema@.min_arity),
    ensures
        result_views(out@) == record_views(records@).map_values(
            (|r: RecordView| project_spec(r, schema@)),
        ),
{
    let ghost projected = record_views(records@).map_values(
        (|r: RecordView| project_spec(r, schema@)),
    );
    let mut out: Vec<NeologdParserResult> = Vec::new();
    let mut i: usize = 0;
    proof {
        assert(result_views(out@) =~= projected.take(0));
    }
    while i < records.len()
        invariant
            i <= records@.len(),
            schema.wf(),
            min_details_len_ok(record_views(records@), schema@.min_arity),
            projected == record_views(records@).map_values(
                (|r: RecordView| project_spec(r, schema@)),
            ),
            result_views(out@) == projected.take(i as int),
        decreases records@.len() - i,
    {
        proof {
            assert(record_views(records@)[i as int].details.len() >= schema@.min_arity);
            assert(record_views(records@)[i as int] == records@[i as int]@);
        }
        let p = project(&records[i], schema);
        proof {
            assert(projected[i as int] == project_spec(records@[i as int]@, schema@));
            assert(result_views(out@.push(p)) =~= result_views(out@).push(p@));
            assert(projected.take(i + 1) =~= projected.take(i as int).push(projected[i as int]));
        }
        out.push(p);
        i = i + 1;
    }
    proof {
        assert(projected.take(records@.len() as int) =~= projected);
    }
    out
}

/// Projects one validated record into the typed result. Reachable only with
/// every configured index in range: validation must have passed first.
pub fn project(record: &MecabParserResult, schema: &Schema) -> (r: NeologdParserResult)
    requires
        schema.wf(),
        record@.details.len() >= schema@.min_arity,
    ensures
        r@ == project_spec(record@, schema@),
{
    let star: String = "*".to_owned();
    let mut parts_of_speech_subtyping: Vec<String> = Vec::new();
    proof {
        assert(schema@.subtype_indices.take(0) =~= Seq::<int>::empty());
        lemma_subtypes_spec_empty(record@.details);
        assert(string_views(parts_of_speech_subtyping@) =~= Seq::<Seq<char>>::empty());
    }
    let nsub = schema.subtype_indices.len();
    let mut k: usize = 0;
    while k < nsub
        invariant
            k <= nsub,
            nsub == schema@.subtype_indices.len(),
            schema.wf(),
            record@.details.len() >= schema@.min_arity,
            star@ == placeholder(),
            string_views(parts_of_speech_subtyping@) == subtypes_spec(
                record@.details,
                schema@.subtype_indices.take(k as int),
            ),
        decreases nsub - k,
    {
        let idx = schema.subtype_indices[k];
        proof {
            assert(schema@.subtype_indices[k as int] == idx as int);
            lemma_subtypes_spec_take_step(record@.details, schema@.subtype_indices, k as int);
        }
        let value = record.details[idx].clone();
        if value == star {
            proof {
                assert(record@.details[idx as int] == placeholder());
            }
        } else {
            proof {
                assert(string_views(parts_of_speech_subtyping@.push(value)) =~= string_views(
                    parts_of_speech_subtyping@,
                ).push(value@));
            }
            parts_of_speech_subtyping.push(value);
        }
        k = k + 1;
    }
    proof {
        assert(schema@.subtype_indices.take(nsub as int) =~= schema@.subtype_indices);
    }
    let r = NeologdParserResult {
        input: record.word.clone(),
        part_of_speech: record.details[schema.part_of_speech_index].clone(),
        parts_of_speech_subtyping,
        conjugation_type: record.details[schema.conjugation_type_index].clone(),
        conjugated_form: record.details[schema.conjugated_form_index].clone(),
        original_form: record.details[schema.original_form_index].clone(),
        reading: record.details[schema.reading_index].clone(),
    };
    proof {
        assert(r@ == project_spec(record@, schema@));
    }
    r
}

} // verus!
