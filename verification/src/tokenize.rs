//! One tokenization call: what is checked before the engine runs, what the
//! engine is asked, and what the caller gets for the engine's answer.

use vstd::prelude::*;
use vstd::utf8::*;
use crate::array::array_view;
use crate::array::filled;
use crate::array::marshal;
use crate::array::marshal_morphemes;
use crate::handle::SudachiTokenizer;
use crate::mode::engine_mode;
use crate::mode::Mode;
use crate::mode::SudachiTokenMode;
use crate::morpheme::Morpheme;
use crate::morpheme::MorphemeView;
use crate::text::decode_text;
use crate::token::SudachiToken;
use crate::token::TokenView;

verus! {

/// What one call asks of the engine.
#[derive(Debug, Clone, PartialEq, Eq)]
pub struct AnalysisRequest {
    pub text: String,
    pub mode: Mode,
    pub split_sentences: bool,
}

/// A request as a mathematical value.
pub struct RequestView {
    pub text: Seq<char>,
    pub mode: Mode,
    pub split_sentences: bool,
}

impl View for AnalysisRequest {
    type V = RequestView;

    open spec fn view(&self) -> RequestView {
        RequestView { text: self.text@, mode: self.mode, split_sentences: self.split_sentences }
    }
}

/// What a text and a mode ask of the engine, where the text is UTF-8. The
/// whole input is analysed as one unit: sentence splitting is always off.
pub open spec fn request_for(text: Seq<u8>, mode: SudachiTokenMode) -> Option<RequestView> {
    if valid_utf8(text) {
        Some(RequestView { text: decode_utf8(text), mode: engine_mode(mode), split_sentences: false })
    } else {
        None
    }
}

/// The request that opening a call gives. A call that lacks its handle, its
/// text or the place for its count has none.
pub open spec fn opened_request(
    has_tokenizer: bool,
    text: Option<Seq<u8>>,
    mode: SudachiTokenMode,
    has_count: bool,
) -> Option<RequestView> {
    if has_tokenizer && has_count && text is Some {
        request_for(text->0, mode)
    } else {
        None
    }
}

/// The count that opening a call leaves behind, where there is a place for
/// it: zero after a text that is not UTF-8, else the count as it was.
pub open spec fn count_after_opening(
    has_tokenizer: bool,
    text: Option<Seq<u8>>,
    before: usize,
) -> usize {
    if has_tokenizer && text is Some && !valid_utf8(text->0) {
        0
    } else {
        before
    }
}

/// The records that closing a call gives for the engine's answer.
pub open spec fn closing_records(answer: Option<Seq<MorphemeView>>) -> Option<Seq<TokenView>> {
    match answer {
        Some(morphemes) => Some(marshal(morphemes)),
        None => None,
    }
}

/// The count that closing a call writes.
pub open spec fn closing_count(answer: Option<Seq<MorphemeView>>) -> nat {
    match answer {
        Some(morphemes) => marshal(morphemes).len(),
        None => 0,
    }
}

/// Opens a tokenization call.
///
/// A call that lacks its handle, its text or the place for its count is
/// refused and changes nothing. A text that is not UTF-8 ends the call with a
/// count of zero. Otherwise the result is what to ask of the engine, and the
/// count is left for `complete_tokenize` to write.
pub fn sudachi_tokenize<D, T>(
    tokenizer: Option<&SudachiTokenizer<D, T>>,
    text: Option<&[u8]>,
    mode: SudachiTokenMode,
    out_count: Option<&mut usize>,
) -> (request: Option<AnalysisRequest>)
    ensures
        match request {
            Some(r) => Some(r@),
            None => None,
        } == opened_request(
            tokenizer is Some,
            match text {
                Some(bytes) => Some(bytes@),
                None => None,
            },
            mode,
            out_count is Some,
        ),
        out_count matches Some(slot) ==> *final(slot) == count_after_opening(
            tokenizer is Some,
            match text {
                Some(bytes) => Some(bytes@),
                None => None,
            },
            *slot,
        ),
{
    let slot = match out_count {
        Some(slot) => slot,
        None => { return None; },
    };
    if tokenizer.is_none() {
        return None;
    }
    let bytes = match text {
        Some(bytes) => bytes,
        None => { return None; },
    };
    match decode_text(bytes) {
        Some(decoded) => Some(
            AnalysisRequest { text: decoded, mode: Mode::from(mode), split_sentences: false },
        ),
        None => {
            *slot = 0;
            None
        },
    }
}

/// The engine's answer as a mathematical value.
pub open spec fn answer_view(analysis: Option<Vec<Morpheme>>) -> Option<Seq<MorphemeView>> {
    match analysis {
        Some(morphemes) => Some(morphemes.deep_view()),
        None => None,
    }
}

/// Closes a tokenization call with the engine's answer, `None` where the
/// engine failed.
///
/// On an answer the result is the array of records and the count is its
/// length; on a failure there is no array and the count is zero.
pub fn complete_tokenize(analysis: Option<Vec<Morpheme>>, out_count: &mut usize) -> (tokens: Option<
    Vec<Option<Box<SudachiToken>>>,
>)
    ensures
        match tokens {
            Some(array) => analysis is Some && array_view(array@) == filled(
                closing_records(answer_view(analysis))->0,
            ),
            None => analysis is None,
        },
        *final(out_count) == closing_count(answer_view(analysis)),
{
    match analysis {
        Some(morphemes) => {
            let array = marshal_morphemes(&morphemes);
            *out_count = array.len();
            Some(array)
        },
        None => {
            *out_count = 0;
            None
        },
    }
}

/// What one whole call gives a caller who supplied all three arguments, where
/// `engine` is the engine's answer to each request and `before` the count the
/// caller's variable held: the records, and the count afterwards.
pub open spec fn call_result(
    text: Seq<u8>,
    mode: SudachiTokenMode,
    engine: spec_fn(RequestView) -> Option<Seq<MorphemeView>>,
    before: usize,
) -> (Option<Seq<TokenView>>, nat) {
    match opened_request(true, Some(text), mode, true) {
        Some(request) => (closing_records(engine(request)), closing_count(engine(request))),
        None => (None, count_after_opening(true, Some(text), before) as nat),
    }
}

/// Tokenizing the same text again gives the same records and the same count:
/// a call keeps no state of its own, and what an earlier call left in the
/// caller's count does not reach the next one. The handle is only read, so the
/// engine answers the second request as it answered the first.
pub proof fn lemma_retokenizing_gives_equal_result(
    text: Seq<u8>,
    mode: SudachiTokenMode,
    engine: spec_fn(RequestView) -> Option<Seq<MorphemeView>>,
    first_count: usize,
    second_count: usize,
)
    ensures
        call_result(text, mode, engine, first_count) == call_result(
            text,
            mode,
            engine,
            second_count,
        ),
{
}

} // verus!
