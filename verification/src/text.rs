//! Lossy decoding of captured process output.

use vstd::prelude::*;
use vstd::utf8::{decode_utf8, valid_utf8};

verus! {

/// The text that `String::from_utf8_lossy` produces for a byte sequence that
/// is not valid UTF-8: the input with each malformed sequence replaced by
/// U+FFFD. It depends on the bytes alone.
pub uninterp spec fn replaced_text(bytes: Seq<u8>) -> Seq<char>;

/// The text that captured output stands for. Well-formed UTF-8 decodes to
/// exactly the characters it encodes; anything else decodes with
/// replacement characters and never fails.
pub open spec fn lossy_text(bytes: Seq<u8>) -> Seq<char> {
    if valid_utf8(bytes) {
        decode_utf8(bytes)
    } else {
        replaced_text(bytes)
    }
}

/// Calls `String::from_utf8_lossy` and takes ownership of the result.
///
/// Trusted: for valid UTF-8 the returned string holds the decoded
/// characters, as the standard library documents; for other input it is
/// whatever the standard library returns, which is given the name
/// [`replaced_text`].
#[verifier::external_body]
pub(crate) fn decode_lossy(bytes: &[u8]) -> (text: String)
    ensures
        valid_utf8(bytes@) ==> text@ == decode_utf8(bytes@),
        !valid_utf8(bytes@) ==> text@ == replaced_text(bytes@),
{
    String::from_utf8_lossy(bytes).into_owned()
}

} // verus!
