//! Base64, as the `base64` crate computes it.

use vstd::prelude::*;

verus! {

/// The standard, padded base64 text of the UTF-8 bytes of `input`.
///
/// This is what `base64::encode` returns; its value is taken on trust from
/// that crate and nothing more is claimed of it here.
pub uninterp spec fn base64_text(input: Seq<char>) -> Seq<char>;

/// Calls `base64::encode` on the bytes of `input`.
///
/// Not proved: that the returned text is [`base64_text`] of the input, which
/// says no more than that the encoder is a function of the text it is given.
/// The encoder panics only when four thirds of the input's length overflow
/// `usize`; a `str` is at most `isize::MAX` bytes long, so that cannot occur.
#[verifier::external_body]
pub(crate) fn encode(input: &str) -> (encoded: String)
    ensures
        encoded@ == base64_text(input@),
{
    base64::encode(input)
}

} // verus!
