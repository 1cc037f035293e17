//! The boundary to the crates that this library builds on: random bytes from
//! `rand`, the base64 alphabets of `base64` and the form encoding of
//! `serde_urlencoded`. Each item here carries a contract that is believed, not
//! proved.

use vstd::prelude::*;

verus! {

/// The padded base64 text of `bytes` in the URL-safe alphabet.
pub uninterp spec fn base64_url_safe(bytes: Seq<u8>) -> Seq<char>;

/// The bytes that `text` stands for in padded URL-safe base64, if it is such a
/// text.
pub uninterp spec fn base64_url_safe_decoded(text: Seq<char>) -> Option<Seq<u8>>;

/// The padded base64 text of `bytes` in the standard alphabet.
pub uninterp spec fn base64_standard(bytes: Seq<u8>) -> Seq<char>;

/// The `application/x-www-form-urlencoded` text of a list of pairs, if the
/// encoder accepts the list.
pub uninterp spec fn form_encoded(pairs: Seq<(Seq<char>, Seq<char>)>) -> Option<Seq<char>>;

/// The pairs that an `application/x-www-form-urlencoded` text holds, in the
/// order in which they stand in it, if the decoder accepts the text.
pub uninterp spec fn form_decoded(text: Seq<char>) -> Option<Seq<(Seq<char>, Seq<char>)>>;

/// What a list of owned pairs holds, as plain sequences of characters.
pub open spec fn pairs_view(pairs: Seq<(String, String)>) -> Seq<(Seq<char>, Seq<char>)> {
    Seq::new(pairs.len(), |i: int| (pairs[i].0@, pairs[i].1@))
}

/// `Rng::fill` of `rand`, on the thread-local generator `rand::thread_rng()`:
/// overwrites a buffer of 128 bytes with random data. Nothing is claimed of
/// the bytes: two calls may return anything, including the same value twice.
#[verifier::external_body]
pub(crate) fn random_bytes() -> (bytes: [u8; 128]) {
    let mut bytes = [0_u8; 128];
    rand::Rng::fill(&mut rand::thread_rng(), &mut bytes);
    bytes
}

/// `base64::display::Base64Display::with_config` with `base64::URL_SAFE`,
/// formatted: the text is a function of the bytes alone, named
/// [`base64_url_safe`].
#[verifier::external_body]
pub(crate) fn encode_url_safe(bytes: &[u8]) -> (text: String)
    ensures
        text@ == base64_url_safe(bytes@),
{
    format!("{}", base64::display::Base64Display::with_config(bytes, base64::URL_SAFE))
}

/// `base64::decode_config` with `base64::URL_SAFE`: the outcome is a function
/// of the text alone, named [`base64_url_safe_decoded`]; a text that the
/// decoder rejects gives `None`. Unlike decoding into a buffer of fixed
/// size, this call takes a text of any length.
#[verifier::external_body]
pub(crate) fn decode_url_safe(text: &str) -> (bytes: Option<Vec<u8>>)
    ensures
        match bytes {
            Some(b) => base64_url_safe_decoded(text@) == Some(b@),
            None => base64_url_safe_decoded(text@).is_none(),
        },
{
    base64::decode_config(text, base64::URL_SAFE).ok()
}

/// `base64::encode`: the text is a function of the bytes alone, named
/// [`base64_standard`]. The call panics only where the length of the text
/// would not fit in `usize`, which no slice in memory reaches.
#[verifier::external_body]
pub(crate) fn encode_standard(bytes: &[u8]) -> (text: String)
    ensures
        text@ == base64_standard(bytes@),
{
    base64::encode(bytes)
}

/// `serde_urlencoded::to_string` on a list of pairs of strings: the outcome is
/// a function of the pairs alone, named [`form_encoded`]; a list that the
/// encoder rejects gives `None`.
#[verifier::external_body]
pub(crate) fn encode_form(pairs: &Vec<(String, String)>) -> (text: Option<String>)
    ensures
        match text {
            Some(t) => form_encoded(pairs_view(pairs@)) == Some(t@),
            None => form_encoded(pairs_view(pairs@)).is_none(),
        },
{
    serde_urlencoded::to_string(pairs).ok()
}

/// `serde_urlencoded::from_str` into a list of pairs of strings: the outcome
/// is a function of the text alone, named [`form_decoded`]; a text that the
/// decoder rejects gives `None`.
#[verifier::external_body]
pub(crate) fn decode_form(text: &str) -> (pairs: Option<Vec<(String, String)>>)
    ensures
        match pairs {
            Some(p) => form_decoded(text@) == Some(pairs_view(p@)),
            None => form_decoded(text@).is_none(),
        },
{
    serde_urlencoded::from_str::<Vec<(String, String)>>(text).ok()
}

/// Equality of string slices in std: two slices are equal exactly when they
/// hold the same characters.
pub assume_specification[ <str as PartialEq>::eq ](a: &str, b: &str) -> (same: bool)
    ensures
        same == (a@ == b@),
;

} // verus!
