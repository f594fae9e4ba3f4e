//! Content fingerprints.
use crypto::digest::Digest;
use crypto::sha1::Sha1;
use vstd::prelude::*;

verus! {

/// The lowercase hexadecimal SHA-1 digest of the UTF-8 encoding of `s`.
pub uninterp spec fn sha1_hex(s: Seq<char>) -> Seq<char>;

/// Number of hexadecimal digits in a SHA-1 digest.
pub const DIGEST_LEN: usize = 40;

/// Relies on `crypto::sha1::Sha1` with `Digest::input_str` and `Digest::result_str`:
/// the result depends on the text alone and is the 20-byte digest written as 40
/// hexadecimal digits.
#[verifier::external_body]
fn sha1_of(content: &str) -> (r: String)
    ensures
        r@ == sha1_hex(content@),
        r@.len() == DIGEST_LEN,
{
    let mut hasher = Sha1::new();
    hasher.input_str(content);
    hasher.result_str()
}

/// The fingerprint of a page's content.
pub fn digest(content: &str) -> (r: String)
    ensures
        r@ == sha1_hex(content@),
        r@.len() == DIGEST_LEN,
{
    sha1_of(content)
}

/// A digest is a function of the content alone: equal contents give equal fingerprints.
pub proof fn lemma_digest_deterministic(x: Seq<char>, y: Seq<char>)
    requires
        x == y,
    ensures
        sha1_hex(x) == sha1_hex(y),
{
}

} // verus!
