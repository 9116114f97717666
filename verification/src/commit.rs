//! One-way commitments for quiz answers.
//!
//! A correct-answer index is never stored in the clear: a question
//! carries only the lowercase hex encoding of the SHA-256 digest of a
//! compiled-in salt followed by the decimal digits of the index, and
//! a submitted answer is verified by recomputing that digest and
//! comparing strings. The fixed salt makes this lightweight tamper
//! resistance against reading state, not a cryptographic boundary: a
//! small index space can always be brute-forced offline.
use vstd::prelude::*;

use sha2::Digest;

verus! {

use vstd::slice::slice_to_vec;
use vstd::string::StringSliceAdditionalSpecFns;

/// The UTF-8 bytes of the compiled-in salt.
pub open spec fn salt_bytes() -> Seq<u8> {
    "f1n4nc14Lg0Lf_s4Lt_v1".spec_bytes()
}

/// The salt as a byte vector.
fn salt_vec() -> (r: Vec<u8>)
    ensures
        r@ == salt_bytes(),
{
    let s: &str = "f1n4nc14Lg0Lf_s4Lt_v1";
    slice_to_vec(s.as_bytes())
}

/// The ASCII decimal digits of a number, most significant first.
pub open spec fn dec_bytes(n: nat) -> Seq<u8>
    decreases n,
{
    if n < 10 {
        seq![(48 + n) as u8]
    } else {
        dec_bytes(n / 10) + seq![(48 + n % 10) as u8]
    }
}

/// Render a number as its ASCII decimal digits.
fn to_decimal(n: usize) -> (r: Vec<u8>)
    ensures
        r@ == dec_bytes(n as nat),
    decreases n,
{
    if n < 10 {
        let mut v: Vec<u8> = Vec::new();
        v.push(48 + n as u8);
        proof {
            assert(v@ =~= dec_bytes(n as nat));
        }
        v
    } else {
        let mut v = to_decimal(n / 10);
        v.push(48 + (n % 10) as u8);
        proof {
            assert(v@ =~= dec_bytes(n as nat));
        }
        v
    }
}

/// The lowercase hex digit for a value below sixteen.
pub open spec fn hex_char(n: u8) -> char {
    if n == 0 {
        '0'
    } else if n == 1 {
        '1'
    } else if n == 2 {
        '2'
    } else if n == 3 {
        '3'
    } else if n == 4 {
        '4'
    } else if n == 5 {
        '5'
    } else if n == 6 {
        '6'
    } else if n == 7 {
        '7'
    } else if n == 8 {
        '8'
    } else if n == 9 {
        '9'
    } else if n == 10 {
        'a'
    } else if n == 11 {
        'b'
    } else if n == 12 {
        'c'
    } else if n == 13 {
        'd'
    } else if n == 14 {
        'e'
    } else {
        'f'
    }
}

/// Lowercase hex encoding: every byte becomes two digits, high
/// nibble first.
pub open spec fn hex_str_of(b: Seq<u8>) -> Seq<char> {
    Seq::new(
        2 * b.len(),
        |i: int|
            if i % 2 == 0 {
                hex_char(b[i / 2] / 16)
            } else {
                hex_char(b[i / 2] % 16)
            },
    )
}

/// The SHA-256 digest of a byte sequence, named but not defined here:
/// it is a pure function of the input bytes alone.
pub uninterp spec fn sha256_of(data: Seq<u8>) -> Seq<u8>;

/// Relies on sha2's `Sha256`: the digest depends on the input bytes
/// alone and is 32 bytes long.
#[verifier::external_body]
fn sha256_digest(data: &[u8]) -> (r: Vec<u8>)
    ensures
        r@ == sha256_of(data@),
        r@.len() == 32,
{
    sha2::Sha256::digest(data).to_vec()
}

/// Relies on `hex::encode`: each input byte becomes two lowercase
/// hex digits, high nibble first.
#[verifier::external_body]
fn hex_encode(data: &[u8]) -> (r: String)
    ensures
        r@ == hex_str_of(data@),
{
    hex::encode(data)
}

/// The bytes whose digest commits to an answer index: the salt
/// followed by the decimal digits of the index.
pub open spec fn commit_message(i: nat) -> Seq<u8> {
    salt_bytes() + dec_bytes(i)
}

/// The commitment for an answer index: the lowercase hex encoding of
/// the SHA-256 digest of the salted index.
pub open spec fn commit_of(i: nat) -> Seq<char> {
    hex_str_of(sha256_of(commit_message(i)))
}

/// Compute the commitment for an answer index.
pub fn compute_hash(index: usize) -> (r: String)
    ensures
        r@ == commit_of(index as nat),
{
    let mut msg = salt_vec();
    let digits = to_decimal(index);
    let mut k: usize = 0;
    while k < digits.len()
        invariant
            0 <= k <= digits.len(),
            digits@ == dec_bytes(index as nat),
            msg@ == salt_bytes() + digits@.subrange(0, k as int),
        decreases digits.len() - k,
    {
        let d = digits[k];
        msg.push(d);
        proof {
            assert(msg@ =~= salt_bytes() + digits@.subrange(0, k + 1));
        }
        k += 1;
    }
    proof {
        assert(digits@.subrange(0, digits@.len() as int) =~= digits@);
        assert(msg@ == commit_message(index as nat));
    }
    let digest = sha256_digest(msg.as_slice());
    hex_encode(digest.as_slice())
}

} // verus!
