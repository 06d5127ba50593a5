//! The digest behind every state address.

use vstd::prelude::*;
use crypto::digest::Digest;
use crypto::sha2::Sha512;

verus! {

/// The lowercase hexadecimal SHA-512 digest of a byte sequence.  The digest
/// is a function of the input bytes alone.
pub uninterp spec fn sha512_hex_of(bytes: Seq<u8>) -> Seq<char>;

/// Relies on `crypto::sha2::Sha512` (`input` / `result_str`): the 512-bit
/// digest of the input, printed as 128 lowercase hexadecimal (hence ASCII)
/// characters, a function of the input bytes alone.
#[verifier::external_body]
pub(crate) fn sha512_hex(input: &[u8]) -> (r: String)
    ensures
        r@ == sha512_hex_of(input@),
        r@.len() == 128,
        r.is_ascii(),
{
    let mut sha = Sha512::new();
    sha.input(input);
    sha.result_str()
}

} // verus!
