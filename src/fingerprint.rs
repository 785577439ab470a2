use vstd::prelude::*;
use sha2::{Digest, Sha256};

verus! {

/// The SHA-256 digest of a byte sequence.
pub uninterp spec fn sha256_of(data: Seq<u8>) -> Seq<u8>;

/// Number of hexadecimal characters kept in a fingerprint.
pub const FINGERPRINT_LEN: usize = 5;

/// The lowercase hexadecimal digit for a value below sixteen.
pub open spec fn hex_char(n: u8) -> char {
    if n < 10 {
        (('0' as u8) + n) as char
    } else {
        (('a' as u8) + (n - 10)) as char
    }
}

/// The `i`-th nibble of `d`, most significant nibble of each byte first.
pub open spec fn nibble(d: Seq<u8>, i: int) -> u8 {
    if i % 2 == 0 {
        d[i / 2] / 16
    } else {
        d[i / 2] % 16
    }
}

/// Lowercase hexadecimal rendering of a byte sequence, two digits per byte.
pub open spec fn hex_lower(d: Seq<u8>) -> Seq<char> {
    Seq::new(2 * d.len(), |i: int| hex_char(nibble(d, i)))
}

/// The leading hexadecimal characters of a digest.
pub open spec fn short_hex_of(d: Seq<u8>) -> Seq<char> {
    hex_lower(d).take(FINGERPRINT_LEN as int)
}

/// The fingerprint of a byte sequence: its SHA-256 digest in lowercase hex,
/// cut to its first five characters.
///
/// The cut trades collision resistance for a name that is short enough to
/// type; it is meant for naming files of a single user, not for security.
pub open spec fn fingerprint_of(data: Seq<u8>) -> Seq<char> {
    short_hex_of(sha256_of(data))
}

/// A character that may appear in a fingerprint.
pub open spec fn is_lower_hex(c: char) -> bool {
    ('0' <= c && c <= '9') || ('a' <= c && c <= 'f')
}

/// Relies on sha2's `Sha256`: the 32-byte digest of `data`.
#[verifier::external_body]
fn sha256(data: &[u8]) -> (r: Vec<u8>)
    ensures
        r@ == sha256_of(data@),
        r@.len() == 32,
{
    let mut hasher = Sha256::new();
    hasher.update(data);
    hasher.finalize().to_vec()
}

/// The single-character string of the lowercase hex digit `n`.
fn hex_digit(n: u8) -> (r: &'static str)
    requires
        n < 16,
    ensures
        r@ == seq![hex_char(n)],
{
    proof {
        reveal_strlit("0");
        reveal_strlit("1");
        reveal_strlit("2");
        reveal_strlit("3");
        reveal_strlit("4");
        reveal_strlit("5");
        reveal_strlit("6");
        reveal_strlit("7");
        reveal_strlit("8");
        reveal_strlit("9");
        reveal_strlit("a");
        reveal_strlit("b");
        reveal_strlit("c");
        reveal_strlit("d");
        reveal_strlit("e");
        reveal_strlit("f");
    }
    let r = match n {
        0 => "0",
        1 => "1",
        2 => "2",
        3 => "3",
        4 => "4",
        5 => "5",
        6 => "6",
        7 => "7",
        8 => "8",
        9 => "9",
        10 => "a",
        11 => "b",
        12 => "c",
        13 => "d",
        14 => "e",
        _ => "f",
    };
    assert(r@ =~= seq![hex_char(n)]);
    r
}

/// The first five lowercase hex characters of a digest of at least three bytes.
pub fn short_hex(digest: &[u8]) -> (r: String)
    requires
        digest@.len() >= 3,
    ensures
        r@ == short_hex_of(digest@),
        r@.len() == FINGERPRINT_LEN,
        forall|i: int| 0 <= i < r@.len() ==> is_lower_hex(#[trigger] r@[i]),
{
    let mut r = String::new();
    let mut i: usize = 0;
    while i < FINGERPRINT_LEN
        invariant
            i <= FINGERPRINT_LEN,
            digest@.len() >= 3,
            r@ =~= hex_lower(digest@).take(i as int),
        decreases FINGERPRINT_LEN - i,
    {
        let b = digest[i / 2];
        let n: u8 = if i % 2 == 0 { b / 16 } else { b % 16 };
        r.append(hex_digit(n));
        i = i + 1;
    }
    assert forall|i: int| 0 <= i < r@.len() implies is_lower_hex(#[trigger] r@[i]) by {
        let n = nibble(digest@, i);
        assert(n < 16);
    }
    r
}

/// The file stem derived from `data`: the first five lowercase hex characters
/// of its SHA-256 digest. It never fails, the empty sequence included.
pub fn hash_bytes_short_sha256_hex5(data: &[u8]) -> (r: String)
    ensures
        r@ == fingerprint_of(data@),
        sha256_of(data@).len() == 32,
        r@.len() == FINGERPRINT_LEN,
        forall|i: int| 0 <= i < r@.len() ==> is_lower_hex(#[trigger] r@[i]),
{
    let digest = sha256(data);
    short_hex(digest.as_slice())
}

/// Equal byte sequences always receive equal fingerprints: the fingerprint
/// depends on the bytes alone.
pub proof fn lemma_fingerprint_deterministic(a: Seq<u8>, b: Seq<u8>)
    requires
        a == b,
    ensures
        fingerprint_of(a) == fingerprint_of(b),
{
}

} // verus!
