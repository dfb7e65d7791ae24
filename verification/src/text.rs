//! Best-effort text from octets that are meant to be UTF-8.

use vstd::prelude::*;
use vstd::utf8::decode_utf8;
use vstd::utf8::encode_utf8;
use vstd::utf8::encode_utf8_decode_utf8;
use vstd::utf8::encode_utf8_valid_utf8;
use vstd::utf8::is_ascii_chars;
use vstd::utf8::is_ascii_chars_encode_utf8;
use vstd::utf8::valid_utf8;

verus! {

/// The text that `String::from_utf8_lossy` makes of `octets` that are not
/// valid UTF-8, each invalid sequence replaced by U+FFFD.
pub uninterp spec fn utf8_lossy(octets: Seq<u8>) -> Seq<char>;

/// The text of a device name: the octets decoded as UTF-8 where they are
/// valid, and with every invalid sequence replaced where they are not.
pub open spec fn lossy_text(octets: Seq<u8>) -> Seq<char> {
    if valid_utf8(octets) {
        decode_utf8(octets)
    } else {
        utf8_lossy(octets)
    }
}

/// `String::from_utf8_lossy`, made into an owned `String`. Valid UTF-8 comes
/// back as the text it encodes; of other input the contract only names the
/// result, which depends on the octets alone.
#[verifier::external_body]
pub(crate) fn text_from_utf8_lossy(octets: &[u8]) -> (text: String)
    ensures
        valid_utf8(octets@) ==> text@ == decode_utf8(octets@),
        !valid_utf8(octets@) ==> text@ == utf8_lossy(octets@),
{
    String::from_utf8_lossy(octets).to_string()
}

/// The characters that `octets` stand for where each octet is one ASCII
/// character.
pub open spec fn ascii_chars(octets: Seq<u8>) -> Seq<char> {
    Seq::new(octets.len(), |i: int| octets[i] as char)
}

/// The text of ASCII octets is their characters, one for one.
pub proof fn theorem_ascii_text(octets: Seq<u8>)
    requires
        forall|i: int| 0 <= i < octets.len() ==> octets[i] < 128,
    ensures
        valid_utf8(octets),
        lossy_text(octets) == ascii_chars(octets),
{
    let chars = ascii_chars(octets);
    is_ascii_chars_encode_utf8(chars);
    assert(encode_utf8(chars) =~= octets);
    encode_utf8_valid_utf8(chars);
    encode_utf8_decode_utf8(chars);
}

} // verus!
