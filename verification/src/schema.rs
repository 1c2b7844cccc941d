//! Dictionary schemas: which feature index carries which named field, and
//! the minimum feature-vector length a record must have before those indices
//! may be read. Different dictionaries impose different schemas, so the
//! mapping is data, not code.

use vstd::prelude::*;

verus! {

/// Index-to-field mapping of one dictionary's feature vectors, plus the
/// minimum arity that makes every configured index readable.
pub struct Schema {
    /// Least number of features a record must carry.
    pub min_arity: usize,
    /// Index of the primary grammatical category.
    pub part_of_speech_index: usize,
    /// Indices of the secondary category tags, in the order they are read.
    pub subtype_indices: Vec<usize>,
    /// Index of the conjugation type.
    pub conjugation_type_index: usize,
    /// Index of the conjugated form.
    pub conjugated_form_index: usize,
    /// Index of the original (dictionary) form.
    pub original_form_index: usize,
    /// Index of the reading.
    pub reading_index: usize,
}

/// The mathematical content of a schema.
pub struct SchemaView {
    pub min_arity: int,
    pub part_of_speech_index: int,
    pub subtype_indices: Seq<int>,
    pub conjugation_type_index: int,
    pub conjugated_form_index: int,
    pub original_form_index: int,
    pub reading_index: int,
}

impl View for Schema {
    type V = SchemaView;

    open spec fn view(&self) -> SchemaView {
        SchemaView {
            min_arity: self.min_arity as int,
            part_of_speech_index: self.part_of_speech_index as int,
            subtype_indices: self.subtype_indices@.map_values(|u: usize| u as int),
            conjugation_type_index: self.conjugation_type_index as int,
            conjugated_form_index: self.conjugated_form_index as int,
            original_form_index: self.original_form_index as int,
            reading_index: self.reading_index as int,
        }
    }
}

impl SchemaView {
    /// Every configured index lies below the minimum arity, so a record that
    /// passes validation can never be read out of range.
    pub open spec fn wf(&self) -> bool {
        &&& 0 <= self.part_of_speech_index < self.min_arity
        &&& forall|k: int|
            0 <= k < self.subtype_indices.len() ==> 0 <= #[trigger] self.subtype_indices[k]
                < self.min_arity
        &&& 0 <= self.conjugation_type_index < self.min_arity
        &&& 0 <= self.conjugated_form_index < self.min_arity
        &&& 0 <= self.original_form_index < self.min_arity
        &&& 0 <= self.reading_index < self.min_arity
    }
}

/// The extended (neologism-dictionary) schema as a mathematical value:
/// eight fields at least, the primary category first, three subtype slots,
/// then conjugation type, conjugated form, original form and reading.
pub open spec fn neologd_schema_view() -> SchemaView {
    SchemaView {
        min_arity: 8,
        part_of_speech_index: 0,
        subtype_indices: seq![1int, 2int, 3int],
        conjugation_type_index: 4,
        conjugated_form_index: 5,
        original_form_index: 6,
        reading_index: 7,
    }
}

impl Schema {
    /// Well-formedness of the executable schema.
    pub open spec fn wf(&self) -> bool {
        self@.wf()
    }

    /// Builds the extended (neologism-dictionary) schema.
    pub fn neologd() -> (s: Schema)
        ensures
            s.wf(),
            s@ == neologd_schema_view(),
    {
        let mut subtype_indices: Vec<usize> = Vec::new();
        subtype_indices.push(1);
        subtype_indices.push(2);
        subtype_indices.push(3);
        let s = Schema {
            min_arity: 8,
            part_of_speech_index: 0,
            subtype_indices,
            conjugation_type_index: 4,
            conjugated_form_index: 5,
            original_form_index: 6,
            reading_index: 7,
        };
        proof {
            assert(s@.subtype_indices =~= seq![1int, 2int, 3int]);
            assert(s@ == neologd_schema_view());
        }
        s
    }
}

} // verus!
