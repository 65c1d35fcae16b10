//! Text as it crosses the C boundary: NUL-terminated byte buffers going out,
//! byte slices that claim to be UTF-8 coming in.

use vstd::prelude::*;
use vstd::slice::*;
use vstd::string::*;
use vstd::utf8::*;

verus! {

/// Makes `core::str::Utf8Error` known as a type. Nothing is said of its
/// values.
#[verifier::external_type_specification]
#[verifier::external_body]
pub struct ExUtf8Error(core::str::Utf8Error);

/// `core::str::from_utf8` accepts exactly the byte slices that are well-formed
/// UTF-8, and the string slice it hands back consists of those same bytes.
pub assume_specification<'a>[ core::str::from_utf8 ](v: &'a [u8]) -> (r: Result<
    &'a str,
    core::str::Utf8Error,
>)
    ensures
        r is Ok <==> valid_utf8(v@),
        r matches Ok(s) ==> s.spec_bytes() == v@,
;

/// A buffer that C code reads as a string: it ends with a zero byte and holds
/// no other zero byte.
pub open spec fn is_nul_terminated(buffer: Seq<u8>) -> bool {
    &&& buffer.len() > 0
    &&& buffer.last() == 0u8
    &&& !buffer.drop_last().contains(0u8)
}

/// The bytes of `text` can be handed to C as one string: none of them is zero.
pub open spec fn representable(text: Seq<char>) -> bool {
    !encode_utf8(text).contains(0u8)
}

/// The content of the C string that stands for `text`, where there is one.
pub open spec fn c_text_of(text: Seq<char>) -> Option<Seq<u8>> {
    if representable(text) {
        Some(encode_utf8(text))
    } else {
        None
    }
}

/// An owned, NUL-terminated text buffer.
///
/// Its view is the content, without the terminator.
#[derive(Debug, PartialEq, Eq)]
pub struct CText {
    buffer: Vec<u8>,
}

impl View for CText {
    type V = Seq<u8>;

    closed spec fn view(&self) -> Seq<u8> {
        self.buffer@.drop_last()
    }
}

impl Clone for CText {
    fn clone(&self) -> (copy: Self)
        ensures
            copy@ == self@,
    {
        proof {
            use_type_invariant(self);
        }
        CText { buffer: self.buffer.clone() }
    }
}

/// Whether `bytes` holds a zero byte.
pub fn contains_nul(bytes: &[u8]) -> (found: bool)
    ensures
        found == bytes@.contains(0u8),
{
    let mut i: usize = 0;
    while i < bytes.len()
        invariant
            i <= bytes.len(),
            forall|j: int| 0 <= j < i ==> bytes@[j] != 0u8,
        decreases bytes.len() - i,
    {
        if bytes[i] == 0 {
            return true;
        }
        i += 1;
    }
    false
}

impl CText {
    #[verifier::type_invariant]
    spec fn well_formed(self) -> bool {
        is_nul_terminated(self.buffer@)
    }

    /// The whole buffer, terminator included.
    pub closed spec fn buffer(self) -> Seq<u8> {
        self.buffer@
    }

    /// Copies `text` into a fresh NUL-terminated buffer. A text with a zero
    /// byte inside has no such buffer and gives `None`.
    pub fn new(text: &str) -> (made: Option<CText>)
        ensures
            made is Some <==> representable(text@),
            made matches Some(t) ==> t@ == encode_utf8(text@),
    {
        let bytes = text.as_bytes();
        if contains_nul(bytes) {
            None
        } else {
            let mut buffer = slice_to_vec(bytes);
            buffer.push(0u8);
            assert(buffer@.drop_last() == bytes@);
            Some(CText { buffer })
        }
    }

    /// Takes back a buffer that was given up by `into_bytes_with_nul`. Any
    /// other buffer is accepted on the same terms: it must end with its only
    /// zero byte.
    pub fn from_vec_with_nul(bytes: Vec<u8>) -> (made: Option<CText>)
        ensures
            made is Some <==> is_nul_terminated(bytes@),
            made matches Some(t) ==> t.buffer() == bytes@ && t@ == bytes@.drop_last(),
    {
        let n = bytes.len();
        if n == 0 || bytes[n - 1] != 0 {
            return None;
        }
        let mut i: usize = 0;
        while i < n - 1
            invariant
                n == bytes.len(),
                n > 0,
                i <= n - 1,
                forall|j: int| 0 <= j < i ==> bytes@[j] != 0u8,
            decreases n - 1 - i,
        {
            if bytes[i] == 0 {
                assert(bytes@.drop_last()[i as int] == 0u8);
                return None;
            }
            i += 1;
        }
        Some(CText { buffer: bytes })
    }

    /// The buffer as C will read it: the content, then one zero byte.
    pub fn as_bytes_with_nul(&self) -> (bytes: &[u8])
        ensures
            bytes@ == self.buffer(),
            bytes@ == self@.push(0u8),
            is_nul_terminated(bytes@),
    {
        proof {
            use_type_invariant(self);
        }
        assert(self.buffer@ == self.buffer@.drop_last().push(0u8));
        self.buffer.as_slice()
    }

    /// Gives the buffer up, terminator included.
    pub fn into_bytes_with_nul(self) -> (bytes: Vec<u8>)
        ensures
            bytes@ == self.buffer(),
            bytes@ == self@.push(0u8),
            is_nul_terminated(bytes@),
    {
        proof {
            use_type_invariant(&self);
        }
        assert(self.buffer@ == self.buffer@.drop_last().push(0u8));
        self.buffer
    }
}

/// Decodes bytes that arrived from C. Anything that is not well-formed UTF-8
/// is refused; nothing is repaired.
pub fn decode_text(bytes: &[u8]) -> (text: Option<String>)
    ensures
        text is Some <==> valid_utf8(bytes@),
        text matches Some(s) ==> s@ == decode_utf8(bytes@),
{
    match core::str::from_utf8(bytes) {
        Ok(s) => {
            proof {
                encode_utf8_decode_utf8(s@);
            }
            Some(s.to_owned())
        },
        Err(_) => None,
    }
}

/// A text can be handed to C as one string exactly when it holds no NUL
/// character: in UTF-8 a zero byte encodes nothing else.
pub proof fn lemma_representable_iff_no_nul_char(text: Seq<char>)
    ensures
        representable(text) <==> !text.contains('\0'),
    decreases text.len(),
{
    if text.len() == 0 {
        assert(!text.contains('\0'));
    } else {
        let head = text[0];
        let tail = text.drop_first();
        let scalar = head as u32;
        let first = encode_scalar(scalar);
        let rest = encode_utf8(tail);
        lemma_representable_iff_no_nul_char(tail);
        char_is_scalar(head);
        char_u32_cast(head, scalar);
        lemma_scalar_has_zero_byte_iff_zero(scalar);
        assert(encode_utf8(text) == first + rest);
        if first.contains(0u8) {
            let k = choose|k: int| 0 <= k < first.len() && first[k] == 0u8;
            assert((first + rest)[k] == 0u8);
            assert(text[0] == '\0');
        } else if rest.contains(0u8) {
            let k = choose|k: int| 0 <= k < rest.len() && rest[k] == 0u8;
            assert((first + rest)[first.len() + k] == 0u8);
            let c = choose|c: int| 0 <= c < tail.len() && tail[c] == '\0';
            assert(text[c + 1] == '\0');
        } else {
            assert forall|k: int| 0 <= k < (first + rest).len() implies (first + rest)[k]
                != 0u8 by {
                if k < first.len() {
                    assert(first[k] == (first + rest)[k]);
                } else {
                    assert(rest[k - first.len()] == (first + rest)[k]);
                }
            }
            assert forall|c: int| 0 <= c < text.len() implies text[c] != '\0' by {
                if c > 0 {
                    assert(tail[c - 1] == text[c]);
                }
            }
        }
    }
}

/// The encoding of one scalar holds a zero byte exactly when the scalar is 0.
proof fn lemma_scalar_has_zero_byte_iff_zero(scalar: u32)
    requires
        is_scalar(scalar),
    ensures
        encode_scalar(scalar).contains(0u8) <==> scalar == 0,
{
    let bytes = encode_scalar(scalar);
    if has_width_1_encoding(scalar) {
        assert(leading_byte_width_1(scalar) == 0 <==> scalar == 0) by (bit_vector)
            requires
                scalar <= 0x7F,
        ;
        assert(bytes[0] == leading_byte_width_1(scalar));
    } else {
        assert(leading_byte_width_2(scalar) != 0) by (bit_vector);
        assert(leading_byte_width_3(scalar) != 0) by (bit_vector);
        assert(leading_byte_width_4(scalar) != 0) by (bit_vector);
        assert(last_continuation_byte(scalar) != 0) by (bit_vector);
        assert(second_last_continuation_byte(scalar) != 0) by (bit_vector);
        assert(third_last_continuation_byte(scalar) != 0) by (bit_vector);
    }
}

} // verus!
