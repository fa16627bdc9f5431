use base64::Engine;
use vstd::prelude::*;

verus! {

/// The URL-safe base64 text, without padding, of a byte sequence.
pub uninterp spec fn base64url_of(bytes: Seq<u8>) -> Seq<char>;

/// Length of the unpadded base64 text of `n` bytes: four characters per
/// complete group of three bytes, then two or three for a partial group.
pub open spec fn unpadded_b64_len(n: nat) -> nat {
    if n % 3 == 0 {
        (n / 3) * 4
    } else if n % 3 == 1 {
        (n / 3) * 4 + 2
    } else {
        (n / 3) * 4 + 3
    }
}

/// Relies on `base64::engine::general_purpose::URL_SAFE_NO_PAD.encode`: the
/// URL-safe alphabet without padding, whose text length the crate computes
/// with `encoded_len` and which panics when that length overflows `usize`.
#[verifier::external_body]
pub(crate) fn base64_url_encode(data: &[u8]) -> (text: String)
    requires
        unpadded_b64_len(data@.len() as nat) <= usize::MAX,
    ensures
        text@ == base64url_of(data@),
        text@.len() == unpadded_b64_len(data@.len() as nat),
{
    base64::engine::general_purpose::URL_SAFE_NO_PAD.encode(data)
}

} // verus!
