//! Checksummer: computes SHA-256 digests of byte buffers, rendered as
//! lowercase hex, and compares digests case-insensitively.
//!
//! Each artifact is digested twice: once over the downloaded bytes still in
//! memory (failing fast before touching disk) and once over the bytes read
//! back from the temporary file (defending against silent write corruption).

use vstd::prelude::*;
use vstd::string::StrSliceExecFns;

verus! {

/// The SHA-256 digest of `data`. The digest function itself is outside
/// code; this name stands for its result, which depends on `data` alone.
pub uninterp spec fn sha256_of(data: Seq<u8>) -> Seq<u8>;

/// The lowercase hex character for the nibble `d`.
pub open spec fn hex_digit_char(d: int) -> char {
    if d == 0 { '0' }
    else if d == 1 { '1' }
    else if d == 2 { '2' }
    else if d == 3 { '3' }
    else if d == 4 { '4' }
    else if d == 5 { '5' }
    else if d == 6 { '6' }
    else if d == 7 { '7' }
    else if d == 8 { '8' }
    else if d == 9 { '9' }
    else if d == 10 { 'a' }
    else if d == 11 { 'b' }
    else if d == 12 { 'c' }
    else if d == 13 { 'd' }
    else if d == 14 { 'e' }
    else { 'f' }
}

/// Lowercase hex rendering of `data`: two digits per byte, high nibble
/// first.
pub open spec fn hex_of(data: Seq<u8>) -> Seq<char>
    decreases data.len(),
{
    if data.len() == 0 {
        Seq::<char>::empty()
    } else {
        seq![
            hex_digit_char(data[0] as int / 16),
            hex_digit_char(data[0] as int % 16),
        ] + hex_of(data.drop_first())
    }
}

/// `c` with an uppercase hex letter folded to lowercase; all other
/// characters unchanged.
pub open spec fn lower_hex_char(c: char) -> char {
    match c {
        'A' => 'a',
        'B' => 'b',
        'C' => 'c',
        'D' => 'd',
        'E' => 'e',
        'F' => 'f',
        _ => c,
    }
}

/// `s` with uppercase hex letters folded to lowercase.
pub open spec fn lower_hex(s: Seq<char>) -> Seq<char> {
    s.map_values(|c: char| lower_hex_char(c))
}

/// Two digest strings denote the same digest: equal after folding
/// uppercase hex letters.
pub open spec fn digests_equal(a: Seq<char>, b: Seq<char>) -> bool {
    lower_hex(a) == lower_hex(b)
}

/// `data` hashes to the digest that `expected` (case-insensitive hex)
/// denotes.
pub open spec fn digest_matches(expected: Seq<char>, data: Seq<u8>) -> bool {
    digests_equal(expected, hex_of(sha256_of(data)))
}

/// Relies on `sha2::Sha256::digest`: the SHA-256 digest of the input,
/// which is 32 bytes long and a function of the input alone.
#[verifier::external_body]
fn sha256_bytes(data: &Vec<u8>) -> (r: Vec<u8>)
    ensures
        r@ == sha256_of(data@),
        r@.len() == 32,
{
    <sha2::Sha256 as sha2::Digest>::digest(data.as_slice()).to_vec()
}

/// Relies on `hex::encode`: lowercase hex, two digits per byte, high
/// nibble first.
#[verifier::external_body]
fn hex_encode(data: &Vec<u8>) -> (r: String)
    ensures
        r@ == hex_of(data@),
{
    hex::encode(data.as_slice())
}

/// The SHA-256 digest of `data`, as a lowercase hex string.
pub fn checksum_hex(data: &Vec<u8>) -> (r: String)
    ensures
        r@ == hex_of(sha256_of(data@)),
        r@.len() == 64,
{
    let digest = sha256_bytes(data);
    proof {
        lemma_hex_of_len(digest@);
    }
    hex_encode(&digest)
}

/// Hex rendering doubles the length.
pub proof fn lemma_hex_of_len(data: Seq<u8>)
    ensures
        hex_of(data).len() == 2 * data.len(),
    decreases data.len(),
{
    if data.len() > 0 {
        lemma_hex_of_len(data.drop_first());
    }
}

/// Hex rendering never produces uppercase letters, so folding is the
/// identity on it.
pub proof fn lemma_hex_of_lower(data: Seq<u8>)
    ensures
        lower_hex(hex_of(data)) == hex_of(data),
    decreases data.len(),
{
    if data.len() == 0 {
        assert(lower_hex(hex_of(data)) =~= hex_of(data));
    } else {
        lemma_hex_of_lower(data.drop_first());
        assert(lower_hex(hex_of(data)) =~= hex_of(data));
    }
}

/// Folds an uppercase hex letter to lowercase.
fn lower_hex_char_exec(c: char) -> (r: char)
    ensures
        r == lower_hex_char(c),
{
    match c {
        'A' => 'a',
        'B' => 'b',
        'C' => 'c',
        'D' => 'd',
        'E' => 'e',
        'F' => 'f',
        _ => c,
    }
}

/// Compares two digest strings case-insensitively.
pub fn digests_match(a: &str, b: &str) -> (r: bool)
    ensures
        r == digests_equal(a@, b@),
{
    let n: usize = a.unicode_len();
    let m: usize = b.unicode_len();
    if n != m {
        assert(lower_hex(a@).len() != lower_hex(b@).len());
        return false;
    }
    let mut i: usize = 0;
    while i < n
        invariant
            n == a@.len(),
            n == b@.len(),
            0 <= i <= n,
            forall|j: int| 0 <= j < i ==> lower_hex(a@)[j] == lower_hex(b@)[j],
        decreases n - i,
    {
        let ca = lower_hex_char_exec(a.get_char(i));
        let cb = lower_hex_char_exec(b.get_char(i));
        if ca != cb {
            assert(lower_hex(a@)[i as int] != lower_hex(b@)[i as int]);
            return false;
        }
        i = i + 1;
    }
    assert(lower_hex(a@) =~= lower_hex(b@));
    true
}

} // verus!
