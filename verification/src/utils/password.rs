//! Passwords are stored and compared as SHA-256 digests.

use vstd::prelude::*;

verus! {

/// What `sha256::digest` returns for a text: the lowercase hexadecimal
/// SHA-256 digest of its UTF-8 bytes.
pub uninterp spec fn sha256_hex(text: Seq<char>) -> Seq<char>;

/// Calls `sha256::digest` on a string slice. The digest is taken on trust to
/// be a function of the characters of `text` alone, written `sha256_hex`.
#[verifier::external_body]
pub(crate) fn digest(text: &str) -> (hex: String)
    ensures
        hex@ == sha256_hex(text@),
{
    sha256::digest(text)
}

} // verus!
