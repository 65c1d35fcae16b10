//! The flat record a caller receives for one morpheme, and how it is made.

use vstd::prelude::*;
use crate::json::json_text;
use crate::json::tags_to_json;
use crate::morpheme::Morpheme;
use crate::morpheme::MorphemeView;
use crate::text::c_text_of;
use crate::text::representable;
use crate::text::CText;

verus! {

/// One record of a tokenization result.
///
/// Every text field is either an owned NUL-terminated buffer or absent. A
/// record that tokenization produced always has its surface; the other four
/// are absent where the engine's text could not be written as a C string.
/// `begin` and `end` bound the morpheme's span in the analysed input.
#[derive(Debug, Clone, PartialEq, Eq)]
pub struct SudachiToken {
    pub surface: Option<CText>,
    pub reading: Option<CText>,
    pub dictionary_form: Option<CText>,
    pub normalized_form: Option<CText>,
    pub pos: Option<CText>,
    pub begin: i32,
    pub end: i32,
}

/// A record as a mathematical value: each text field by its content, without
/// the terminator.
pub struct TokenView {
    pub surface: Option<Seq<u8>>,
    pub reading: Option<Seq<u8>>,
    pub dictionary_form: Option<Seq<u8>>,
    pub normalized_form: Option<Seq<u8>>,
    pub pos: Option<Seq<u8>>,
    pub begin: int,
    pub end: int,
}

/// The content of a text field.
pub open spec fn field_view(field: Option<CText>) -> Option<Seq<u8>> {
    match field {
        Some(text) => Some(text@),
        None => None,
    }
}

impl View for SudachiToken {
    type V = TokenView;

    open spec fn view(&self) -> TokenView {
        TokenView {
            surface: field_view(self.surface),
            reading: field_view(self.reading),
            dictionary_form: field_view(self.dictionary_form),
            normalized_form: field_view(self.normalized_form),
            pos: field_view(self.pos),
            begin: self.begin as int,
            end: self.end as int,
        }
    }
}

/// An engine offset in the record's 32-bit field: the low 32 bits, read as a
/// signed number. Offsets up to `i32::MAX` keep their value.
pub open spec fn narrowed(offset: nat) -> int {
    (offset as i32) as int
}

/// The tag field that a serialization outcome gives: the JSON text as a C
/// string, absent where serialization failed or the text holds a zero byte.
pub open spec fn pos_of(json: Option<Seq<char>>) -> Option<Seq<u8>> {
    match json {
        Some(text) => c_text_of(text),
        None => None,
    }
}

/// The record for one morpheme, given the outcome of serializing its tags.
/// A morpheme whose surface cannot be written as a C string has no record.
pub open spec fn token_of(m: MorphemeView, json: Option<Seq<char>>) -> Option<TokenView> {
    if representable(m.surface) {
        Some(
            TokenView {
                surface: c_text_of(m.surface),
                reading: c_text_of(m.reading_form),
                dictionary_form: c_text_of(m.dictionary_form),
                normalized_form: c_text_of(m.normalized_form),
                pos: pos_of(json),
                begin: narrowed(m.begin),
                end: narrowed(m.end),
            },
        )
    } else {
        None
    }
}

/// The record for one morpheme, tags serialized.
pub open spec fn marshaled(m: MorphemeView) -> Option<TokenView> {
    token_of(m, json_text(m.part_of_speech))
}

/// Narrows an engine offset to the record's 32-bit field.
pub fn narrow_offset(offset: usize) -> (field: i32)
    ensures
        field == narrowed(offset as nat),
        offset <= i32::MAX ==> field == offset,
{
    offset as i32
}

/// Copies one of the engine's texts into a field of a record.
pub fn text_field(text: &String) -> (field: Option<CText>)
    ensures
        field_view(field) == c_text_of(text@),
{
    CText::new(text.as_str())
}

/// Makes the tag field from the outcome of serializing the tags.
pub fn pos_field(json: Option<String>) -> (field: Option<CText>)
    ensures
        field_view(field) == pos_of(
            match json {
                Some(text) => Some(text@),
                None => None,
            },
        ),
{
    match json {
        Some(text) => text_field(&text),
        None => None,
    }
}

/// Builds the record for one morpheme from the outcome of serializing its
/// tags. The surface decides whether there is a record at all; each other
/// text field degrades to absent on its own.
pub fn build_token(m: &Morpheme, json: Option<String>) -> (token: Option<SudachiToken>)
    ensures
        match token {
            Some(t) => Some(t@),
            None => None,
        } == token_of(
            m@,
            match json {
                Some(text) => Some(text@),
                None => None,
            },
        ),
{
    let surface = text_field(&m.surface);
    if surface.is_none() {
        return None;
    }
    Some(
        SudachiToken {
            surface,
            reading: text_field(&m.reading_form),
            dictionary_form: text_field(&m.dictionary_form),
            normalized_form: text_field(&m.normalized_form),
            pos: pos_field(json),
            begin: narrow_offset(m.begin),
            end: narrow_offset(m.end),
        },
    )
}

/// Converts one morpheme of the engine's answer into a record.
pub fn marshal_morpheme(m: &Morpheme) -> (token: Option<SudachiToken>)
    ensures
        match token {
            Some(t) => Some(t@),
            None => None,
        } == marshaled(m@),
{
    let json = match tags_to_json(&m.part_of_speech) {
        Ok(text) => Some(text),
        Err(_) => None,
    };
    build_token(m, json)
}

/// Releases one record: each text field that is present, then the record's
/// own storage. An absent record is left alone.
pub fn sudachi_free_token(token: Option<Box<SudachiToken>>) {
    match token {
        Some(record) => {
            let SudachiToken {
                surface,
                reading,
                dictionary_form,
                normalized_form,
                pos,
                begin: _,
                end: _,
            } = *record;
            release_text(surface);
            release_text(reading);
            release_text(dictionary_form);
            release_text(normalized_form);
            release_text(pos);
        },
        None => {},
    }
}

/// Releases the buffer of one text field. An absent field owns none.
fn release_text(field: Option<CText>) {
    match field {
        Some(text) => {
            let _ = text;
        },
        None => {},
    }
}

} // verus!
