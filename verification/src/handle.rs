//! The handle a caller holds between calls.

use vstd::prelude::*;
use std::sync::Arc;

verus! {

/// Owns one share of a loaded dictionary and the tokenizer bound to it.
///
/// The two engine types are parameters: nothing here looks inside them. A
/// handle is made once, when loading has succeeded, read by every
/// tokenization, and consumed by `sudachi_free_tokenizer`.
pub struct SudachiTokenizer<D, T> {
    dictionary: Arc<D>,
    tokenizer: T,
}

impl<D, T> SudachiTokenizer<D, T> {
    /// The dictionary this handle shares.
    pub closed spec fn shared_dictionary(self) -> Arc<D> {
        self.dictionary
    }

    /// The tokenizer this handle owns.
    pub closed spec fn bound_tokenizer(self) -> T {
        self.tokenizer
    }

    /// Pairs a shared dictionary with the tokenizer bound to it.
    pub fn new(dictionary: Arc<D>, tokenizer: T) -> (handle: Self)
        ensures
            handle.shared_dictionary() == dictionary,
            handle.bound_tokenizer() == tokenizer,
    {
        SudachiTokenizer { dictionary, tokenizer }
    }

    /// Read access to the shared dictionary.
    pub fn dictionary(&self) -> (dictionary: &Arc<D>)
        ensures
            *dictionary == self.shared_dictionary(),
    {
        &self.dictionary
    }

    /// Read access to the tokenizer.
    pub fn tokenizer(&self) -> (tokenizer: &T)
        ensures
            *tokenizer == self.bound_tokenizer(),
    {
        &self.tokenizer
    }
}

/// Releases a handle, and with it this handle's share of the dictionary. An
/// absent handle is left alone.
pub fn sudachi_free_tokenizer<D, T>(tokenizer: Option<Box<SudachiTokenizer<D, T>>>) {
    match tokenizer {
        Some(handle) => {
            let SudachiTokenizer { dictionary, tokenizer } = *handle;
            let _ = tokenizer;
            let _ = dictionary;
        },
        None => {},
    }
}

} // verus!
