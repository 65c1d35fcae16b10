//! What the analysis engine reports for one morpheme, as plain values.

use vstd::prelude::*;

verus! {

/// One morpheme of the engine's answer.
#[derive(Debug, Clone, PartialEq, Eq)]
pub struct Morpheme {
    pub surface: String,
    pub reading_form: String,
    pub dictionary_form: String,
    pub normalized_form: String,
    pub part_of_speech: Vec<String>,
    pub begin: usize,
    pub end: usize,
}

/// A morpheme as a mathematical value.
pub struct MorphemeView {
    pub surface: Seq<char>,
    pub reading_form: Seq<char>,
    pub dictionary_form: Seq<char>,
    pub normalized_form: Seq<char>,
    pub part_of_speech: Seq<Seq<char>>,
    pub begin: nat,
    pub end: nat,
}

impl View for Morpheme {
    type V = MorphemeView;

    open spec fn view(&self) -> MorphemeView {
        MorphemeView {
            surface: self.surface@,
            reading_form: self.reading_form@,
            dictionary_form: self.dictionary_form@,
            normalized_form: self.normalized_form@,
            part_of_speech: self.part_of_speech.deep_view(),
            begin: self.begin as nat,
            end: self.end as nat,
        }
    }
}

impl DeepView for Morpheme {
    type V = MorphemeView;

    open spec fn deep_view(&self) -> MorphemeView {
        self@
    }
}

} // verus!
