//! The array of records that one tokenization hands to the caller.

use vstd::prelude::*;
use crate::morpheme::Morpheme;
use crate::morpheme::MorphemeView;
use crate::token::marshal_morpheme;
use crate::token::marshaled;
use crate::token::sudachi_free_token;
use crate::token::SudachiToken;
use crate::token::TokenView;

verus! {

/// The conversion of one morpheme, as a function value.
pub open spec fn marshaler() -> spec_fn(MorphemeView) -> Option<TokenView> {
    |m: MorphemeView| marshaled(m)
}

/// The records for an engine answer: one for each morpheme that has a record,
/// in the engine's order.
pub open spec fn marshal(morphemes: Seq<MorphemeView>) -> Seq<TokenView> {
    morphemes.filter_map(marshaler())
}

/// An array by its elements: the record behind each one, or `None` for an
/// empty slot.
pub open spec fn array_view(array: Seq<Option<Box<SudachiToken>>>) -> Seq<Option<TokenView>> {
    Seq::new(
        array.len(),
        |i: int|
            match array[i] {
                Some(record) => Some(record@),
                None => None,
            },
    )
}

/// An array without empty slots that holds exactly `tokens`.
pub open spec fn filled(tokens: Seq<TokenView>) -> Seq<Option<TokenView>> {
    Seq::new(tokens.len(), |i: int| Some(tokens[i]))
}

/// Converts the engine's answer into an array of owned records. Morphemes
/// without a record are left out; the others keep their order.
pub fn marshal_morphemes(morphemes: &Vec<Morpheme>) -> (array: Vec<Option<Box<SudachiToken>>>)
    ensures
        array_view(array@) == filled(marshal(morphemes.deep_view())),
        array.len() == marshal(morphemes.deep_view()).len(),
        array.len() <= morphemes.len(),
{
    let mut array: Vec<Option<Box<SudachiToken>>> = Vec::new();
    let ghost source = morphemes.deep_view();
    let mut i: usize = 0;
    while i < morphemes.len()
        invariant
            i <= morphemes.len(),
            source == morphemes.deep_view(),
            array.len() <= i,
            array_view(array@) == filled(marshal(source.take(i as int))),
        decreases morphemes.len() - i,
    {
        let ghost before = marshal(source.take(i as int));
        let ghost slots = array_view(array@);
        proof {
            source.lemma_filter_map_take_succ(marshaler(), i as int);
            assert(source[i as int] == morphemes[i as int]@);
        }
        match marshal_morpheme(&morphemes[i]) {
            Some(token) => {
                array.push(Some(Box::new(token)));
                proof {
                    let after = marshal(source.take(i + 1));
                    assert(after == before + seq![token@]);
                    assert(array_view(array@) =~= slots.push(Some(token@)));
                    assert(filled(after) =~= filled(before).push(Some(token@)));
                }
            },
            None => {
                assert(marshal(source.take(i + 1)) == before);
            },
        }
        i += 1;
    }
    assert(source.take(i as int) == source);
    assert(array@.len() == array_view(array@).len());
    array
}

/// Releases an array: every record in it, then the array's own storage. An
/// absent array is left alone, and so is an empty slot.
pub fn sudachi_free_tokens(tokens: Option<Vec<Option<Box<SudachiToken>>>>) {
    match tokens {
        Some(array) => {
            let mut rest = array;
            while rest.len() > 0
                decreases rest.len(),
            {
                match rest.pop() {
                    Some(slot) => sudachi_free_token(slot),
                    None => {},
                }
            }
        },
        None => {},
    }
}

} // verus!
