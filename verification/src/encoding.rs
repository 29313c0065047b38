//! Base64 text, as produced and read by the `base64` crate with its standard
//! alphabet and padding.

use vstd::prelude::*;
use vstd::string::*;
use crate::error::Error;

verus! {

/// The standard, padded base64 text of `data`: what `base64::encode` returns.
pub uninterp spec fn base64_text(data: Seq<u8>) -> Seq<char>;

/// The bytes that `base64::decode` reads from `text`, or `None` where it
/// refuses the text.
pub uninterp spec fn base64_bytes(text: Seq<char>) -> Option<Seq<u8>>;

/// The error with which `base64::decode` refuses a text. It is carried
/// through unread.
#[verifier::external_type_specification]
#[verifier::external_body]
pub struct ExDecodeError(base64::DecodeError);

/// Whether the encoder can size its output for an input of `len` bytes.
pub open spec fn encodable(len: nat) -> bool {
    len / 3 * 4 + 4 <= usize::MAX
}

/// Whether the decoder can size its output for a text of `len` bytes: it
/// adds up to 7 to the length when it counts the chunks of its input.
pub open spec fn decodable(len: nat) -> bool {
    len + 7 <= usize::MAX
}

/// Calls `base64::encode`. The result is the standard padded base64 text of
/// `data`; the contract gives that text a name and claims nothing more of it.
/// Inputs whose encoded size overflows `usize` are left out: there the
/// encoder panics.
#[verifier::external_body]
pub(crate) fn base64_encode(data: &[u8]) -> (r: String)
    requires
        encodable(data@.len()),
    ensures
        r@ == base64_text(data@),
{
    base64::encode(data)
}

/// Calls `base64::decode`. On success the bytes are those the decoder reads
/// from `text`, on failure the decoder refused the text; which texts it
/// refuses is not stated here. Texts so long that one of the decoder's size
/// sums overflows `usize` are left out: there it panics.
#[verifier::external_body]
pub(crate) fn base64_decode(text: &str) -> (r: Result<Vec<u8>, base64::DecodeError>)
    requires
        decodable(text.spec_bytes().len()),
    ensures
        match r {
            Ok(v) => base64_bytes(text@) == Some(v@),
            Err(_) => base64_bytes(text@) is None,
        },
{
    base64::decode(text)
}

/// What [`decode`] returns for the outcome `decoded` of the decoder.
pub open spec fn spec_decoded(decoded: Option<Seq<u8>>) -> Result<Seq<u8>, Error> {
    match decoded {
        Some(v) => Ok(v),
        None => Err(Error::InvalidEncoding),
    }
}

/// The base64 text of `data`.
pub fn encode(data: &Vec<u8>) -> (r: String)
    requires
        encodable(data@.len()),
    ensures
        r@ == base64_text(data@),
{
    base64_encode(data.as_slice())
}

/// The bytes that `text` stands for, or [`Error::InvalidEncoding`] where it
/// is no base64 text.
pub fn decode(text: &str) -> (r: Result<Vec<u8>, Error>)
    requires
        decodable(text.spec_bytes().len()),
    ensures
        match r {
            Ok(v) => spec_decoded(base64_bytes(text@)) == Ok::<Seq<u8>, Error>(v@),
            Err(e) => spec_decoded(base64_bytes(text@)) == Err::<Seq<u8>, Error>(e),
        },
{
    match base64_decode(text) {
        Ok(v) => Ok(v),
        Err(_) => Err(Error::InvalidEncoding),
    }
}

} // verus!
