//! The version a caller can ask for.

use vstd::prelude::*;
use vstd::string::*;
use vstd::utf8::*;
use crate::text::is_nul_terminated;

verus! {

/// The version of this library.
pub open spec fn version_number() -> Seq<char> {
    "0.1.0"@
}

/// The version of this library as a C string with static storage: the
/// version number, then the terminator. The caller must not release it.
pub fn sudachi_version() -> (version: &'static str)
    ensures
        version@ == version_number().push('\0'),
        is_nul_terminated(version.spec_bytes()),
{
    let version: &'static str = "0.1.0\0";
    proof {
        reveal_strlit("0.1.0\0");
        reveal_strlit("0.1.0");
        assert(version@ =~= version_number().push('\0'));
        assert(is_ascii_chars(version@));
        is_ascii_chars_encode_utf8(version@);
        let bytes = version.spec_bytes();
        assert(bytes.len() == 6);
        assert(bytes[0] == '0' as u8);
        assert(bytes[1] == '.' as u8);
        assert(bytes[2] == '1' as u8);
        assert(bytes[3] == '.' as u8);
        assert(bytes[4] == '0' as u8);
        assert(bytes[5] == '\0' as u8);
        assert forall|i: int| 0 <= i < bytes.drop_last().len() implies bytes.drop_last()[i]
            != 0u8 by {
            assert(bytes.drop_last()[i] == bytes[i]);
        }
    }
    version
}

} // verus!
