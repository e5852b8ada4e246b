//! Checksums: a named algorithm and the expected digest in hexadecimal.
use vstd::prelude::*;

use crate::text::same_text;

verus! {

/// The SHA-256 digest of `data`, as computed by the `sha2` crate.
pub uninterp spec fn sha256_of(data: Seq<u8>) -> Seq<u8>;

/// Relies on `sha2::Sha256::digest`: the SHA-256 digest of `data`, a
/// function of the bytes alone.
#[verifier::external_body]
pub(crate) fn sha256_digest(data: &[u8]) -> (r: Vec<u8>)
    ensures
        r@ == sha256_of(data@),
{
    <sha2::Sha256 as sha2::Digest>::digest(data).to_vec()
}

/// The value of a hexadecimal digit, letters in either case; `None` for any
/// other character.
pub open spec fn hex_value(c: char) -> Option<int> {
    if '0' <= c <= '9' {
        Some(c as int - '0' as int)
    } else if 'a' <= c <= 'f' {
        Some(c as int - 'a' as int + 10)
    } else if 'A' <= c <= 'F' {
        Some(c as int - 'A' as int + 10)
    } else {
        None
    }
}

/// `text` writes `bytes` in hexadecimal: two digits per byte, the high one
/// first, letters in either case. This is the lower-case hexadecimal text
/// of `bytes` compared without regard to case.
pub open spec fn spells_hex(text: Seq<char>, bytes: Seq<u8>) -> bool {
    &&& text.len() == 2 * bytes.len()
    &&& forall|i: int|
        #![trigger bytes[i]]
        0 <= i < bytes.len() ==> hex_value(text[2 * i]) == Some(bytes[i] as int / 16)
            && hex_value(text[2 * i + 1]) == Some(bytes[i] as int % 16)
}

/// The one algorithm name that checksums support.
pub open spec fn names_sha256(algorithm: Seq<char>) -> bool {
    algorithm == seq!['s', 'h', 'a', '2', '5', '6']
}

pub proof fn lemma_sha256_literal()
    ensures
        names_sha256("sha256"@),
{
    reveal_strlit("sha256");
    assert("sha256"@ =~= seq!['s', 'h', 'a', '2', '5', '6']);
}

fn hex_digit_value(c: char) -> (r: Option<u8>)
    ensures
        r matches Some(v) ==> hex_value(c) == Some(v as int),
        r is None ==> hex_value(c) is None,
{
    if '0' <= c && c <= '9' {
        Some((c as u32 - '0' as u32) as u8)
    } else if 'a' <= c && c <= 'f' {
        Some((c as u32 - 'a' as u32 + 10) as u8)
    } else if 'A' <= c && c <= 'F' {
        Some((c as u32 - 'A' as u32 + 10) as u8)
    } else {
        None
    }
}

/// Whether `text` writes `bytes` in hexadecimal, letters in either case.
pub fn matches_hex(text: &str, bytes: &[u8]) -> (r: bool)
    ensures
        r == spells_hex(text@, bytes@),
{
    let n = text.unicode_len();
    if n % 2 != 0 || n / 2 != bytes.len() {
        return false;
    }
    let mut i: usize = 0;
    while i < bytes.len()
        invariant
            n == text@.len(),
            n == 2 * bytes@.len(),
            i <= bytes@.len(),
            forall|k: int|
                #![trigger bytes@[k]]
                0 <= k < i ==> hex_value(text@[2 * k]) == Some(bytes@[k] as int / 16)
                    && hex_value(text@[2 * k + 1]) == Some(bytes@[k] as int % 16),
        decreases bytes.len() - i,
    {
        let b = bytes[i];
        let hi = hex_digit_value(text.get_char(2 * i));
        let lo = hex_digit_value(text.get_char(2 * i + 1));
        match (hi, lo) {
            (Some(h), Some(l)) => {
                if h != b / 16 || l != b % 16 {
                    return false;
                }
            },
            _ => {
                return false;
            },
        }
        i = i + 1;
    }
    true
}

/// A digest that a download must match: the algorithm's name and the
/// expected digest in hexadecimal.
#[derive(Clone, Debug)]
pub struct Checksum {
    pub algorithm: String,
    pub value: String,
}

pub struct ChecksumView {
    pub algorithm: Seq<char>,
    pub value: Seq<char>,
}

impl View for Checksum {
    type V = ChecksumView;

    open spec fn view(&self) -> ChecksumView {
        ChecksumView { algorithm: self.algorithm@, value: self.value@ }
    }
}

/// A SHA-256 checksum with the expected value `value`.
pub open spec fn sha256_checksum(value: Seq<char>) -> ChecksumView {
    ChecksumView { algorithm: seq!['s', 'h', 'a', '2', '5', '6'], value }
}

impl ChecksumView {
    /// Whether this checksum accepts bytes whose SHA-256 digest is `digest`.
    /// An algorithm other than SHA-256 accepts nothing.
    pub open spec fn accepts_digest(self, digest: Seq<u8>) -> bool {
        names_sha256(self.algorithm) && spells_hex(self.value, digest)
    }

    /// Whether this checksum accepts `data`.
    pub open spec fn accepts(self, data: Seq<u8>) -> bool {
        self.accepts_digest(sha256_of(data))
    }
}

impl Checksum {
    pub fn new(algorithm: &str, value: &str) -> (r: Checksum)
        ensures
            r@ == (ChecksumView { algorithm: algorithm@, value: value@ }),
    {
        Checksum { algorithm: algorithm.to_string(), value: value.to_string() }
    }

    /// A copy of this checksum.
    pub fn duplicate(&self) -> (r: Checksum)
        ensures
            r == *self,
    {
        Checksum { algorithm: self.algorithm.clone(), value: self.value.clone() }
    }

    /// Whether the algorithm is SHA-256 and `digest` is the expected value.
    pub fn matches_digest(&self, digest: &[u8]) -> (r: bool)
        ensures
            r == self@.accepts_digest(digest@),
    {
        proof { lemma_sha256_literal(); }
        same_text(self.algorithm.as_str(), "sha256") && matches_hex(self.value.as_str(), digest)
    }

    /// Whether `data` has the expected digest under this checksum's
    /// algorithm; false for an algorithm other than SHA-256.
    pub fn verify(&self, data: &[u8]) -> (r: bool)
        ensures
            r == self@.accepts(data@),
    {
        proof { lemma_sha256_literal(); }
        if !same_text(self.algorithm.as_str(), "sha256") {
            return false;
        }
        let digest = sha256_digest(data);
        self.matches_digest(digest.as_slice())
    }
}

/// A checksum holds of `data` exactly when its algorithm is SHA-256 and
/// the expected value is the hexadecimal text of the digest of `data`,
/// compared without regard to case; any other algorithm holds of nothing.
pub proof fn checksum_law(c: ChecksumView, data: Seq<u8>)
    ensures
        c.accepts(data) <==> (names_sha256(c.algorithm) && spells_hex(c.value, sha256_of(data))),
        !names_sha256(c.algorithm) ==> !c.accepts(data),
{
}

} // verus!
