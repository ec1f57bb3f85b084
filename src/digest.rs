use crate::cli::HashType;
use vstd::prelude::*;

verus! {

/// What `md5::compute` renders as lowercase hex for the given bytes.
pub uninterp spec fn md5_hex(data: Seq<u8>) -> Seq<char>;

/// What `sha2::Sha256::digest` renders as lowercase hex for the given bytes.
pub uninterp spec fn sha256_hex(data: Seq<u8>) -> Seq<char>;

/// What `sha2::Sha512::digest` renders as lowercase hex for the given bytes.
pub uninterp spec fn sha512_hex(data: Seq<u8>) -> Seq<char>;

/// What `blake2::Blake2s256::digest` renders as lowercase hex for the given bytes.
pub uninterp spec fn blake2s_hex(data: Seq<u8>) -> Seq<char>;

/// What `blake2::Blake2b512::digest` renders as lowercase hex for the given bytes.
pub uninterp spec fn blake2b_hex(data: Seq<u8>) -> Seq<char>;

/// What `blake3::hash` renders as lowercase hex for the given bytes.
pub uninterp spec fn blake3_hex(data: Seq<u8>) -> Seq<char>;

pub open spec fn is_lower_hex_char(c: char) -> bool {
    ('0' <= c && c <= '9') || ('a' <= c && c <= 'f')
}

/// Every character is one of `0-9a-f`.
pub open spec fn is_lower_hex(s: Seq<char>) -> bool {
    forall|i: int| 0 <= i < s.len() ==> #[trigger] is_lower_hex_char(s[i])
}

/// Number of hex digits in the digest of each algorithm.
pub open spec fn digest_len(alg: HashType) -> nat {
    match alg {
        HashType::Md5 => 32,
        HashType::Sha256 => 64,
        HashType::Sha512 => 128,
        HashType::Blake2s => 64,
        HashType::Blake2b => 128,
        HashType::Blake3 => 64,
    }
}

/// The hex digest of `data` under `alg`.
pub open spec fn digest_of(alg: HashType, data: Seq<u8>) -> Seq<char> {
    match alg {
        HashType::Md5 => md5_hex(data),
        HashType::Sha256 => sha256_hex(data),
        HashType::Sha512 => sha512_hex(data),
        HashType::Blake2s => blake2s_hex(data),
        HashType::Blake2b => blake2b_hex(data),
        HashType::Blake3 => blake3_hex(data),
    }
}

/// Relies on `md5::compute` and the `LowerHex` impl of `md5::Digest`, which
/// writes each of the 16 bytes as two lowercase hex digits.
#[verifier::external_body]
fn md5_digest(data: &[u8]) -> (r: String)
    ensures
        r@ == md5_hex(data@),
        r@.len() == 32,
        is_lower_hex(r@),
{
    format!("{:x}", md5::compute(data))
}

/// Relies on `sha2::Sha256::digest` and the `LowerHex` impl of
/// `generic_array::GenericArray`: 32 bytes, two lowercase hex digits each.
#[verifier::external_body]
fn sha256_digest(data: &[u8]) -> (r: String)
    ensures
        r@ == sha256_hex(data@),
        r@.len() == 64,
        is_lower_hex(r@),
{
    format!("{:x}", <sha2::Sha256 as sha2::Digest>::digest(data))
}

/// Relies on `sha2::Sha512::digest` and the `LowerHex` impl of
/// `generic_array::GenericArray`: 64 bytes, two lowercase hex digits each.
#[verifier::external_body]
fn sha512_digest(data: &[u8]) -> (r: String)
    ensures
        r@ == sha512_hex(data@),
        r@.len() == 128,
        is_lower_hex(r@),
{
    format!("{:x}", <sha2::Sha512 as sha2::Digest>::digest(data))
}

/// Relies on `blake2::Blake2s256::digest` and the `LowerHex` impl of
/// `generic_array::GenericArray`: 32 bytes, two lowercase hex digits each.
#[verifier::external_body]
fn blake2s_digest(data: &[u8]) -> (r: String)
    ensures
        r@ == blake2s_hex(data@),
        r@.len() == 64,
        is_lower_hex(r@),
{
    format!("{:x}", <blake2::Blake2s256 as blake2::Digest>::digest(data))
}

/// Relies on `blake2::Blake2b512::digest` and the `LowerHex` impl of
/// `generic_array::GenericArray`: 64 bytes, two lowercase hex digits each.
#[verifier::external_body]
fn blake2b_digest(data: &[u8]) -> (r: String)
    ensures
        r@ == blake2b_hex(data@),
        r@.len() == 128,
        is_lower_hex(r@),
{
    format!("{:x}", <blake2::Blake2b512 as blake2::Digest>::digest(data))
}

/// Relies on `blake3::hash` and the `Display` impl of `blake3::Hash`, which
/// writes `Hash::to_hex`: 32 bytes, two lowercase hex digits each.
#[verifier::external_body]
fn blake3_digest(data: &[u8]) -> (r: String)
    ensures
        r@ == blake3_hex(data@),
        r@.len() == 64,
        is_lower_hex(r@),
{
    format!("{}", blake3::hash(data))
}

/// The lowercase hex digest of `data` under `hash_type`.
pub fn compute_hash(data: &[u8], hash_type: &HashType) -> (r: String)
    ensures
        r@ == digest_of(*hash_type, data@),
        r@.len() == digest_len(*hash_type),
        is_lower_hex(r@),
{
    match hash_type {
        HashType::Md5 => md5_digest(data),
        HashType::Sha256 => sha256_digest(data),
        HashType::Sha512 => sha512_digest(data),
        HashType::Blake2s => blake2s_digest(data),
        HashType::Blake2b => blake2b_digest(data),
        HashType::Blake3 => blake3_digest(data),
    }
}

/// `c` is one of `A-Z`.
pub open spec fn is_ascii_upper(c: char) -> bool {
    65 <= c as u32 && c as u32 <= 90
}

/// `a` and `b` are the same character once ASCII letters are folded to one case.
pub open spec fn chars_eq_ignore_ascii_case(a: char, b: char) -> bool {
    ||| a == b
    ||| (is_ascii_upper(a) && b as u32 == a as u32 + 32)
    ||| (is_ascii_upper(b) && a as u32 == b as u32 + 32)
}

/// The two strings have the same length and agree at each position up to
/// ASCII letter case.
pub open spec fn eq_ignore_ascii_case(a: Seq<char>, b: Seq<char>) -> bool {
    &&& a.len() == b.len()
    &&& forall|i: int| 0 <= i < a.len() ==> #[trigger] chars_eq_ignore_ascii_case(a[i], b[i])
}

/// Compares two strings, ignoring the case of ASCII letters.
pub fn str_eq_ignore_ascii_case(a: &str, b: &str) -> (r: bool)
    ensures
        r == eq_ignore_ascii_case(a@, b@),
{
    let n = a.unicode_len();
    if n != b.unicode_len() {
        return false;
    }
    let mut i: usize = 0;
    while i < n
        invariant
            n == a@.len(),
            n == b@.len(),
            i <= n,
            forall|j: int| 0 <= j < i ==> #[trigger] chars_eq_ignore_ascii_case(a@[j], b@[j]),
        decreases n - i,
    {
        let x = a.get_char(i);
        let y = b.get_char(i);
        let xu = 65 <= (x as u32) && (x as u32) <= 90;
        let yu = 65 <= (y as u32) && (y as u32) <= 90;
        let same = x == y || (xu && (y as u32) == (x as u32) + 32) || (yu && (x as u32) == (y as u32)
            + 32);
        if !same {
            assert(!chars_eq_ignore_ascii_case(a@[i as int], b@[i as int]));
            return false;
        }
        i = i + 1;
    }
    true
}

/// Whether `expected_hash` is the digest of `data` under `hash_type`, up to
/// ASCII letter case.
pub fn verify_file(data: &[u8], expected_hash: &str, hash_type: &HashType) -> (r: bool)
    ensures
        r == eq_ignore_ascii_case(digest_of(*hash_type, data@), expected_hash@),
{
    let computed = compute_hash(data, hash_type);
    str_eq_ignore_ascii_case(computed.as_str(), expected_hash)
}

/// The line that the `hash` command prints for a file: `<digest>  <file>`.
pub open spec fn hash_line_of(digest: Seq<char>, file: Seq<char>) -> Seq<char> {
    digest + seq![' ', ' '] + file
}

/// Builds the line `<digest>  <file>`.
pub fn hash_line(digest: &str, file: &str) -> (r: String)
    ensures
        r@ == hash_line_of(digest@, file@),
{
    let mut line = String::from_str(digest);
    line.append("  ");
    line.append(file);
    proof {
        reveal_strlit("  ");
    }
    line
}

} // verus!
