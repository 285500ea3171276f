use vstd::prelude::*;

verus! {

/// The lowercase hexadecimal SHA-1 digest of a byte sequence.
pub uninterp spec fn sha1_hex_of(bytes: Seq<u8>) -> Seq<char>;

/// Relies on sha1::Sha1: `from(data).digest().to_string()` renders the digest's
/// five 32-bit words with `{:08x}`, giving 40 lowercase hexadecimal (hence
/// ASCII) characters determined by the input bytes alone.
#[verifier::external_body]
fn sha1_hex(bytes: &[u8]) -> (r: String)
    ensures
        r@ == sha1_hex_of(bytes@),
        r@.len() == 40,
        r.is_ascii(),
{
    sha1::Sha1::from(bytes).digest().to_string()
}

/// Does the digest of `bytes` equal the expected digest string?
pub fn digest_matches(bytes: &[u8], expected: &String) -> (r: bool)
    ensures
        r == (sha1_hex_of(bytes@) == expected@),
{
    let digest = sha1_hex(bytes);
    digest == *expected
}

} // verus!
