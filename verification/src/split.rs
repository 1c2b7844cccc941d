//! Character-level splitting of text, the primitive under the record
//! tokenizer: a mathematical model of splitting a character sequence at a
//! separator, and an executable splitter proved against it.

use vstd::prelude::*;
use vstd::string::StrSliceExecFns;

verus! {

/// The views of a sequence of owned strings.
pub open spec fn string_views(v: Seq<String>) -> Seq<Seq<char>> {
    v.map_values(|s: String| s@)
}

/// True when `c` occurs somewhere in `s`.
pub open spec fn contains_char(s: Seq<char>, c: char) -> bool {
    exists|i: int| 0 <= i < s.len() && s[i] == c
}

/// Index of the first occurrence of `c` in `s`, or `s.len()` when `c` does
/// not occur.
pub open spec fn first_index_of(s: Seq<char>, c: char) -> int
    decreases s.len(),
{
    if s.len() == 0 {
        0
    } else if s[0] == c {
        0
    } else {
        1 + first_index_of(s.drop_first(), c)
    }
}

/// `first_index_of` is a position of `c` preceded by no other occurrence,
/// and it lies inside `s` exactly when `c` occurs at all.
pub proof fn lemma_first_index_of(s: Seq<char>, c: char)
    ensures
        0 <= first_index_of(s, c) <= s.len(),
        contains_char(s, c) <==> first_index_of(s, c) < s.len(),
        first_index_of(s, c) < s.len() ==> s[first_index_of(s, c)] == c,
        forall|j: int| 0 <= j < first_index_of(s, c) ==> s[j] != c,
    decreases s.len(),
{
    if s.len() == 0 {
    } else if s[0] == c {
    } else {
        let rest = s.drop_first();
        lemma_first_index_of(rest, c);
        if contains_char(s, c) {
            let i = choose|i: int| 0 <= i < s.len() && s[i] == c;
            assert(rest[i - 1] == c);
            assert(contains_char(rest, c));
        }
        if contains_char(rest, c) {
            let i = choose|i: int| 0 <= i < rest.len() && rest[i] == c;
            assert(s[i + 1] == c);
            assert(contains_char(s, c));
        }
        assert forall|j: int| 0 <= j < first_index_of(s, c) implies s[j] != c by {
            if j > 0 {
                assert(rest[j - 1] != c);
            }
        }
    }
}

/// `k` is the first position of `c` in `s` when `c` stands there and nowhere
/// earlier.
pub proof fn lemma_first_index_of_unique(s: Seq<char>, c: char, k: int)
    requires
        0 <= k < s.len(),
        s[k] == c,
        forall|j: int| 0 <= j < k ==> s[j] != c,
    ensures
        first_index_of(s, c) == k,
    decreases s.len(),
{
    if k > 0 {
        let rest = s.drop_first();
        assert(rest[k - 1] == c);
        assert forall|j: int| 0 <= j < k - 1 implies rest[j] != c by {
            assert(s[j + 1] != c);
        }
        lemma_first_index_of_unique(rest, c, k - 1);
    }
}

/// The pieces of `s` between occurrences of the separator `sep`: always one
/// more piece than there are separators, in order, separators excluded.
pub open spec fn split_char(s: Seq<char>, sep: char) -> Seq<Seq<char>>
    decreases s.len(),
{
    if s.len() == 0 {
        seq![Seq::<char>::empty()]
    } else {
        let rest = split_char(s.drop_first(), sep);
        if s[0] == sep {
            seq![Seq::<char>::empty()] + rest
        } else {
            seq![seq![s[0]] + rest[0]] + rest.drop_first()
        }
    }
}

/// Splitting yields at least one piece.
pub proof fn lemma_split_char_len(s: Seq<char>, sep: char)
    ensures
        split_char(s, sep).len() >= 1,
    decreases s.len(),
{
    if s.len() > 0 {
        lemma_split_char_len(s.drop_first(), sep);
    }
}

/// A sequence free of the separator splits into itself alone.
pub proof fn lemma_split_char_no_sep(s: Seq<char>, sep: char)
    requires
        forall|j: int| 0 <= j < s.len() ==> s[j] != sep,
    ensures
        split_char(s, sep) == seq![s],
    decreases s.len(),
{
    if s.len() == 0 {
        assert(split_char(s, sep) =~~= seq![s]);
    } else {
        let rest = s.drop_first();
        assert forall|j: int| 0 <= j < rest.len() implies rest[j] != sep by {
            assert(s[j + 1] != sep);
        }
        lemma_split_char_no_sep(rest, sep);
        lemma_split_char_len(rest, sep);
        assert(seq![s[0]] + rest =~= s);
        assert(split_char(s, sep) =~~= seq![s]);
    }
}

/// Splitting off the first piece: when the first separator stands at `k`,
/// the split is the prefix before `k` followed by the split of the suffix
/// after `k`.
pub proof fn lemma_split_char_found(s: Seq<char>, sep: char, k: int)
    requires
        0 <= k < s.len(),
        s[k] == sep,
        forall|j: int| 0 <= j < k ==> s[j] != sep,
    ensures
        split_char(s, sep) == seq![s.subrange(0, k)] + split_char(
            s.subrange(k + 1, s.len() as int),
            sep,
        ),
    decreases k,
{
    let rest = s.drop_first();
    if k == 0 {
        assert(s.subrange(0, 0) =~= Seq::<char>::empty());
        assert(s.subrange(1, s.len() as int) =~= rest);
        assert(split_char(s, sep) =~~= seq![s.subrange(0, k)] + split_char(
            s.subrange(k + 1, s.len() as int),
            sep,
        ));
    } else {
        assert(rest[k - 1] == sep);
        assert forall|j: int| 0 <= j < k - 1 implies rest[j] != sep by {
            assert(s[j + 1] != sep);
        }
        lemma_split_char_found(rest, sep, k - 1);
        let tail_split = split_char(rest.subrange(k, rest.len() as int), sep);
        assert(split_char(rest, sep) == seq![rest.subrange(0, k - 1)] + tail_split);
        assert((seq![rest.subrange(0, k - 1)] + tail_split).drop_first() =~= tail_split);
        assert(seq![s[0]] + rest.subrange(0, k - 1) =~= s.subrange(0, k));
        assert(rest.subrange(k, rest.len() as int) =~= s.subrange(k + 1, s.len() as int));
        assert(split_char(s, sep) =~~= seq![s.subrange(0, k)] + split_char(
            s.subrange(k + 1, s.len() as int),
            sep,
        ));
    }
}

/// Splits `s` at every occurrence of `sep`; empty pieces are preserved, so
/// the result always holds one piece more than there are separators.
pub fn split_char_exec(s: &str, sep: char) -> (pieces: Vec<String>)
    ensures
        string_views(pieces@) == split_char(s@, sep),
{
    let n = s.unicode_len();
    let mut pieces: Vec<String> = Vec::new();
    let mut start: usize = 0;
    let mut i: usize = 0;
    proof {
        assert(s@.subrange(0, n as int) =~= s@);
        assert(split_char(s@, sep) =~= string_views(pieces@) + split_char(
            s@.subrange(0, n as int),
            sep,
        ));
    }
    while i < n
        invariant
            n == s@.len(),
            start <= i <= n,
            forall|j: int| start <= j < i ==> s@[j] != sep,
            split_char(s@, sep) == string_views(pieces@) + split_char(
                s@.subrange(start as int, n as int),
                sep,
            ),
        decreases n - i,
    {
        if s.get_char(i) == sep {
            let piece = s.substring_char(start, i);
            let owned = piece.to_owned();
            proof {
                let suffix = s@.subrange(start as int, n as int);
                lemma_split_char_found(suffix, sep, i - start);
                assert(suffix.subrange(0, i - start) =~= s@.subrange(start as int, i as int));
                assert(suffix.subrange(i - start + 1, suffix.len() as int) =~= s@.subrange(
                    i + 1,
                    n as int,
                ));
                assert(string_views(pieces@.push(owned)) =~= string_views(pieces@).push(owned@));
                assert(split_char(s@, sep) =~~= string_views(pieces@.push(owned)) + split_char(
                    s@.subrange(i + 1, n as int),
                    sep,
                ));
            }
            pieces.push(owned);
            start = i + 1;
        }
        i = i + 1;
    }
    let last = s.substring_char(start, n);
    let owned = last.to_owned();
    proof {
        let suffix = s@.subrange(start as int, n as int);
        lemma_split_char_no_sep(suffix, sep);
        assert(string_views(pieces@.push(owned)) =~= string_views(pieces@).push(owned@));
        assert(split_char(s@, sep) =~~= string_views(pieces@.push(owned)));
    }
    pieces.push(owned);
    pieces
}

} // verus!
