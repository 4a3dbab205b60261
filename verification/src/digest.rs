//! The SHA-1 digest, computed by the `sha` crate.

use sha::sha1::Sha1;
use sha::utils::{Digest, DigestExt};
use vstd::prelude::*;

verus! {

/// SHA-1 is defined for messages of fewer than 2^64 bits, that is for fewer
/// bytes than this.
pub const SHA1_LIMIT: u64 = 0x2000_0000_0000_0000;

/// The length of a SHA-1 digest written in hexadecimal: two characters for
/// each of its twenty bytes.
pub const SHA1_HEX_LEN: usize = 40;

/// The SHA-1 digest of `bytes`, written as forty lower-case hexadecimal
/// characters. The digest itself is not spelled out here: it is what the
/// `sha` crate computes.
pub uninterp spec fn sha1_hex(bytes: Seq<u8>) -> Seq<char>;

/// Whether a character is a hexadecimal digit in lower case: `0` to `9` or
/// `a` to `f`.
pub open spec fn is_lower_hex(c: char) -> bool {
    0x30 <= c as u32 <= 0x39 || 0x61 <= c as u32 <= 0x66
}

/// Whether a text has the shape of a SHA-1 digest in hexadecimal.
pub open spec fn is_sha1_hex(text: Seq<char>) -> bool {
    &&& text.len() == SHA1_HEX_LEN
    &&& forall|i: int| 0 <= i < text.len() ==> is_lower_hex(#[trigger] text[i])
}

/// Digests `bytes` with `Sha1::digest` of the `sha` crate and renders the
/// state with its `to_hex`.
///
/// Trusted, not proved: that the result depends on the bytes alone, and that
/// it has forty characters, each out of `0123456789abcdef`, which is how the
/// crate writes its twenty digest bytes. The crate encodes the message's
/// length in bits in a `u64`, so longer messages are left out.
#[verifier::external_body]
pub(crate) fn sha1_hex_digest(bytes: &[u8]) -> (hex: String)
    requires
        bytes@.len() < SHA1_LIMIT,
    ensures
        hex@ == sha1_hex(bytes@),
        is_sha1_hex(hex@),
{
    Sha1::default().digest(bytes).to_hex()
}

} // verus!
