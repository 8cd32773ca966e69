//! The content hasher: a BLAKE3 digest of the content bytes, rendered as
//! lowercase hexadecimal.

use vstd::prelude::*;

verus! {

/// The 32-byte BLAKE3 digest of a byte sequence.
pub uninterp spec fn blake3_of(bytes: Seq<u8>) -> Seq<u8>;

/// The lowercase hexadecimal digit of a value below sixteen.
pub open spec fn hex_digit(v: int) -> char {
    if v < 10 {
        ((v + 48) as u8) as char
    } else {
        ((v + 87) as u8) as char
    }
}

/// Two lowercase hexadecimal digits per byte, high nibble first.
pub open spec fn hex_lower(bytes: Seq<u8>) -> Seq<char> {
    Seq::new(
        2 * bytes.len(),
        |i: int|
            if i % 2 == 0 {
                hex_digit(bytes[i / 2] as int / 16)
            } else {
                hex_digit(bytes[i / 2] as int % 16)
            },
    )
}

/// Every character is one of `0-9` or `a-f`.
pub open spec fn is_lower_hex(s: Seq<char>) -> bool {
    forall|i: int|
        0 <= i < s.len() ==> (('0' <= #[trigger] s[i] && s[i] <= '9') || ('a' <= s[i] && s[i]
            <= 'f'))
}

/// The content identifier of a byte sequence.
pub open spec fn content_id(bytes: Seq<u8>) -> Seq<char> {
    hex_lower(blake3_of(bytes))
}

/// Relies on blake3::hash and Hash::as_bytes: the 32-byte digest of the input.
#[verifier::external_body]
fn blake3_digest(bytes: &[u8]) -> (r: [u8; 32])
    ensures
        r@ == blake3_of(bytes@),
{
    *blake3::hash(bytes).as_bytes()
}

/// Relies on blake3::Hash::to_hex: each byte as two lowercase hex digits,
/// high nibble first, from the table `0123456789abcdef`.
#[verifier::external_body]
fn digest_hex(digest: [u8; 32]) -> (r: String)
    ensures
        r@ == hex_lower(digest@),
{
    blake3::Hash::from_bytes(digest).to_hex().to_string()
}

proof fn lemma_hex_lower_is_lower_hex(bytes: Seq<u8>)
    ensures
        is_lower_hex(hex_lower(bytes)),
{
    assert forall|i: int| 0 <= i < hex_lower(bytes).len() implies {
        let c = #[trigger] hex_lower(bytes)[i];
        ('0' <= c && c <= '9') || ('a' <= c && c <= 'f')
    } by {
        let b = bytes[i / 2] as int;
        let v = if i % 2 == 0 { b / 16 } else { b % 16 };
        assert(0 <= v < 16);
        assert(hex_lower(bytes)[i] == hex_digit(v));
    }
}

/// Hashes a byte sequence into its content identifier: 64 lowercase hex
/// digits, whatever the input's length, the empty sequence included.
pub fn content_hash(bytes: &[u8]) -> (r: String)
    ensures
        r@ == content_id(bytes@),
        r@.len() == 64,
        is_lower_hex(r@),
{
    let digest = blake3_digest(bytes);
    let r = digest_hex(digest);
    proof {
        lemma_hex_lower_is_lower_hex(digest@);
    }
    r
}

/// Hashing is deterministic: equal byte sequences have equal identifiers.
pub proof fn lemma_content_id_deterministic(a: Seq<u8>, b: Seq<u8>)
    requires
        a == b,
    ensures
        content_id(a) == content_id(b),
{
}

/// The hex rendering loses nothing: distinct digests give distinct identifiers.
pub proof fn lemma_hex_lower_injective(a: Seq<u8>, b: Seq<u8>)
    requires
        hex_lower(a) == hex_lower(b),
    ensures
        a == b,
{
    assert(hex_lower(a).len() == 2 * a.len());
    assert(hex_lower(b).len() == 2 * b.len());
    assert forall|j: int| 0 <= j < a.len() implies a[j] == b[j] by {
        let x = a[j] as int;
        let y = b[j] as int;
        assert(hex_lower(a)[2 * j] == hex_lower(b)[2 * j]);
        assert(hex_lower(a)[2 * j + 1] == hex_lower(b)[2 * j + 1]);
        assert((2 * j) / 2 == j && (2 * j) % 2 == 0);
        assert((2 * j + 1) / 2 == j && (2 * j + 1) % 2 == 1);
        assert(hex_lower(a)[2 * j] == hex_digit(x / 16));
        assert(hex_lower(b)[2 * j] == hex_digit(y / 16));
        assert(hex_lower(a)[2 * j + 1] == hex_digit(x % 16));
        assert(hex_lower(b)[2 * j + 1] == hex_digit(y % 16));
        assert(x / 16 == y / 16);
        assert(x % 16 == y % 16);
    }
    assert(a =~= b);
}

} // verus!
