//! The test that `tonic` puts header values to before a call may carry them.

use vstd::prelude::*;
use vstd::utf8::encode_utf8;

verus! {

/// The bytes that may stand in the value of a header: the tab, and every byte
/// from the space on but DEL.
pub open spec fn header_byte(byte: u8) -> bool {
    (byte >= 32 && byte != 127) || byte == 9
}

/// Whether `text` can be the value of a header: every byte of its UTF-8
/// encoding is a [`header_byte`].
pub open spec fn header_value(text: Seq<char>) -> bool {
    forall|i: int| 0 <= i < encode_utf8(text).len() ==> header_byte(#[trigger] encode_utf8(text)[i])
}

/// Asks `tonic` whether it takes `text` as an ASCII metadata value, by
/// `str::parse` into `tonic::metadata::MetadataValue<Ascii>`. Trusted: the
/// parse succeeds exactly where every byte of the text passes the test of the
/// `http` crate for header values, which is [`header_byte`].
#[verifier::external_body]
pub(crate) fn is_header_value(text: &str) -> (accepted: bool)
    ensures
        accepted == header_value(text@),
{
    text.parse::<tonic::metadata::MetadataValue<tonic::metadata::Ascii>>().is_ok()
}

} // verus!
