//! Base64 as the node binary writes it: the standard alphabet, padded.

use base64ct::Encoding;
use vstd::prelude::*;

verus! {

/// The bytes that a text stands for in standard, padded Base64, where it
/// stands for any.
pub uninterp spec fn base64_decoded(text: Seq<char>) -> Option<Seq<u8>>;

/// Decodes standard, padded Base64.
///
/// Trusted: calls `decode_vec` of `base64ct::Base64`. The bytes it yields, or
/// the fact that it refuses the text, depend on the text alone and are named
/// by `base64_decoded`; nothing else is claimed. Which of its two errors the
/// call gave is dropped.
#[verifier::external_body]
pub(crate) fn decode_base64(text: &str) -> (decoded: Option<Vec<u8>>)
    ensures
        match decoded {
            Some(bytes) => base64_decoded(text@) == Some(bytes@),
            None => base64_decoded(text@) is None,
        },
{
    base64ct::Base64::decode_vec(text).ok()
}

} // verus!
