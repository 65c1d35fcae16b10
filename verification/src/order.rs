//! What holds of every array that marshaling produces: which morphemes it
//! has records for, and that their spans stay in the engine's order.

use vstd::prelude::*;
use crate::array::marshal;
use crate::morpheme::MorphemeView;
use crate::text::representable;
use crate::token::marshaled;
use crate::token::TokenView;

verus! {

/// The engine's spans are well-formed and do not overlap: no span ends before
/// it begins, and each span begins where the one before it ended or later.
pub open spec fn morphemes_in_order(morphemes: Seq<MorphemeView>) -> bool {
    &&& forall|i: int|
        0 <= i < morphemes.len() ==> (#[trigger] morphemes[i]).begin <= morphemes[i].end
    &&& forall|i: int, j: int|
        0 <= i && j == i + 1 && j < morphemes.len() ==> (#[trigger] morphemes[i]).end <= (
        #[trigger] morphemes[j]).begin
}

/// The same of the records' spans.
pub open spec fn tokens_in_order(tokens: Seq<TokenView>) -> bool {
    &&& forall|i: int| 0 <= i < tokens.len() ==> (#[trigger] tokens[i]).begin <= tokens[i].end
    &&& forall|i: int, j: int|
        0 <= i && j == i + 1 && j < tokens.len() ==> (#[trigger] tokens[i]).end <= (
        #[trigger] tokens[j]).begin
}

/// Every offset of the engine's answer fits the record's 32-bit field.
pub open spec fn offsets_fit(morphemes: Seq<MorphemeView>) -> bool {
    forall|i: int| 0 <= i < morphemes.len() ==> (#[trigger] morphemes[i]).end <= i32::MAX
}

/// The morphemes that get a record: those whose surface can be written as a
/// C string.
pub open spec fn has_record() -> spec_fn(MorphemeView) -> bool {
    |m: MorphemeView| representable(m.surface)
}

/// In an ordered answer a later morpheme begins no earlier than any earlier
/// one ends, whether or not the two are neighbours.
pub proof fn lemma_order_spans_gaps(morphemes: Seq<MorphemeView>, i: int, j: int)
    requires
        morphemes_in_order(morphemes),
        0 <= i < j < morphemes.len(),
    ensures
        morphemes[i].end <= morphemes[j].begin,
    decreases j - i,
{
    if j > i + 1 {
        lemma_order_spans_gaps(morphemes, i, j - 1);
        assert(morphemes[j - 1].begin <= morphemes[j - 1].end);
        assert(morphemes[j - 1].end <= morphemes[j].begin);
    }
}

/// The place in the answer of the morpheme that record `k` was made from.
pub open spec fn source_index(morphemes: Seq<MorphemeView>, k: int) -> int
    decreases morphemes.len(),
{
    if morphemes.len() == 0 {
        0
    } else if marshaled(morphemes.last()) is Some && k == marshal(morphemes.drop_last()).len() {
        morphemes.len() - 1
    } else {
        source_index(morphemes.drop_last(), k)
    }
}

/// Every record comes from a morpheme of the answer: it is that morpheme's
/// record, and it has its surface.
pub proof fn lemma_record_has_source(morphemes: Seq<MorphemeView>, k: int)
    requires
        0 <= k < marshal(morphemes).len(),
    ensures
        0 <= source_index(morphemes, k) < morphemes.len(),
        marshaled(morphemes[source_index(morphemes, k)]) == Some(marshal(morphemes)[k]),
        marshal(morphemes)[k].surface is Some,
    decreases morphemes.len(),
{
    let rest = morphemes.drop_last();
    if !(marshaled(morphemes.last()) is Some && k == marshal(rest).len()) {
        lemma_record_has_source(rest, k);
        assert(rest[source_index(rest, k)] == morphemes[source_index(rest, k)]);
    }
}

/// Records stand in the order of the morphemes they were made from.
pub proof fn lemma_records_keep_engine_order(morphemes: Seq<MorphemeView>, j: int, k: int)
    requires
        0 <= j < k < marshal(morphemes).len(),
    ensures
        source_index(morphemes, j) < source_index(morphemes, k),
    decreases morphemes.len(),
{
    let rest = morphemes.drop_last();
    if marshaled(morphemes.last()) is Some && k == marshal(rest).len() {
        lemma_record_has_source(rest, j);
    } else {
        lemma_records_keep_engine_order(rest, j, k);
    }
}

/// The array has one record for each morpheme whose surface can be written as
/// a C string, and none besides.
pub proof fn lemma_record_count(morphemes: Seq<MorphemeView>)
    ensures
        marshal(morphemes).len() == morphemes.filter(has_record()).len(),
        marshal(morphemes).len() <= morphemes.len(),
    decreases morphemes.len(),
{
    reveal(Seq::filter);
    if morphemes.len() > 0 {
        lemma_record_count(morphemes.drop_last());
    }
}

/// Marshaling keeps the engine's spans as they are and in order: where the
/// engine's answer is ordered and its offsets fit the 32-bit field, the
/// records are ordered too.
pub proof fn lemma_marshal_keeps_spans_in_order(morphemes: Seq<MorphemeView>)
    requires
        morphemes_in_order(morphemes),
        offsets_fit(morphemes),
    ensures
        tokens_in_order(marshal(morphemes)),
    decreases morphemes.len(),
{
    if morphemes.len() > 0 {
        let rest = morphemes.drop_last();
        let last = morphemes.last();
        let n = rest.len() as int;
        assert forall|i: int| 0 <= i < rest.len() implies rest[i] == morphemes[i] by {}
        assert(morphemes_in_order(rest)) by {
            assert forall|i: int, j: int| 0 <= i && j == i + 1 && j < rest.len() implies (
            #[trigger] rest[i]).end <= (#[trigger] rest[j]).begin by {
                assert(morphemes[i].end <= morphemes[j].begin);
            }
        }
        assert(offsets_fit(rest));
        lemma_marshal_keeps_spans_in_order(rest);
        if marshaled(last) is Some {
            let token = marshaled(last)->0;
            let before = marshal(rest);
            let after = marshal(morphemes);
            assert(after == before + seq![token]);
            assert(morphemes[n].begin <= morphemes[n].end);
            assert(token.begin <= token.end);
            assert forall|i: int| 0 <= i < after.len() implies (#[trigger] after[i]).begin
                <= after[i].end by {
                if i < before.len() {
                    assert(after[i] == before[i]);
                }
            }
            assert forall|i: int, j: int| 0 <= i && j == i + 1 && j < after.len() implies (
            #[trigger] after[i]).end <= (#[trigger] after[j]).begin by {
                if j < before.len() {
                    assert(after[i] == before[i] && after[j] == before[j]);
                } else {
                    lemma_record_has_source(rest, i);
                    let s = source_index(rest, i);
                    assert(rest[s] == morphemes[s]);
                    lemma_order_spans_gaps(morphemes, s, n);
                    assert(morphemes[s].begin <= morphemes[s].end);
                    assert(after[i] == before[i]);
                    assert(after[j] == token);
                }
            }
        }
    }
}

/// Every surface of the answer can be written as a C string.
pub open spec fn surfaces_representable(morphemes: Seq<MorphemeView>) -> bool {
    forall|i: int| 0 <= i < morphemes.len() ==> representable((#[trigger] morphemes[i]).surface)
}

/// Marshaling opens no gap of its own: where every surface can be written as
/// a C string and every offset fits the 32-bit field, there is one record for
/// each morpheme, in the same place, with the same span.
pub proof fn lemma_marshal_keeps_every_span(morphemes: Seq<MorphemeView>)
    requires
        surfaces_representable(morphemes),
        offsets_fit(morphemes),
        forall|i: int|
            0 <= i < morphemes.len() ==> (#[trigger] morphemes[i]).begin <= morphemes[i].end,
    ensures
        marshal(morphemes).len() == morphemes.len(),
        forall|i: int|
            #![trigger marshal(morphemes)[i]]
            0 <= i < morphemes.len() ==> marshaled(morphemes[i]) == Some(marshal(morphemes)[i])
                && marshal(morphemes)[i].begin == morphemes[i].begin && marshal(morphemes)[i].end
                == morphemes[i].end,
    decreases morphemes.len(),
{
    if morphemes.len() > 0 {
        let rest = morphemes.drop_last();
        let n = rest.len() as int;
        assert forall|i: int| 0 <= i < rest.len() implies rest[i] == morphemes[i] by {}
        lemma_marshal_keeps_every_span(rest);
        assert(representable(morphemes[n].surface));
        assert(morphemes[n].begin <= morphemes[n].end);
        let token = marshaled(morphemes.last())->0;
        assert(marshal(morphemes) == marshal(rest) + seq![token]);
        assert forall|i: int|
            #![trigger marshal(morphemes)[i]]
            0 <= i < morphemes.len() implies marshaled(morphemes[i]) == Some(marshal(morphemes)[i])
            && marshal(morphemes)[i].begin == morphemes[i].begin && marshal(morphemes)[i].end
            == morphemes[i].end by {
            if i < n {
                assert(marshal(morphemes)[i] == marshal(rest)[i]);
                assert(rest[i] == morphemes[i]);
                assert(rest[i].begin <= rest[i].end);
            }
        }
    }
}

} // verus!
