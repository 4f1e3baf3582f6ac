//! Short hashes of payloads, to follow messages through the logs.

use vstd::prelude::*;

use crate::text::{digit, digit_char, push_char};

verus! {

/// The last `n` hexadecimal digits of `v`, most significant first.
pub open spec fn hex_digits(v: nat, n: nat) -> Seq<char>
    decreases n,
{
    if n == 0 {
        Seq::empty()
    } else {
        hex_digits(v / 16, (n - 1) as nat).push(digit_char(v % 16))
    }
}

/// The text of a 64-bit hash: its upper 32 bits as 8 lowercase hexadecimal
/// digits, zero-padded.
pub open spec fn hash_text(hash: u64) -> Seq<char> {
    hex_digits(hash as nat / 0x1_0000_0000, 8)
}

proof fn lemma_hex_digits_len(v: nat, n: nat)
    ensures
        hex_digits(v, n).len() == n,
    decreases n,
{
    if n > 0 {
        lemma_hex_digits_len(v / 16, (n - 1) as nat);
    }
}

/// Appends the last `n` hexadecimal digits of `v` to `out`.
fn push_hex(out: &mut String, v: u64, n: u32)
    ensures
        final(out)@ == old(out)@ + hex_digits(v as nat, n as nat),
    decreases n,
{
    if n > 0 {
        push_hex(out, v / 16, n - 1);
        push_char(out, digit(v % 16));
    }
}

/// The text of a 64-bit hash: its upper 32 bits as 8 lowercase
/// hexadecimal digits.
pub fn hash_hex(hash: u64) -> (r: String)
    ensures
        r@ == hash_text(hash),
{
    let mut r = String::new();
    push_hex(&mut r, hash / 0x1_0000_0000, 8);
    r
}

/// Feeds `payload` to `hasher` (`<[u8] as Hash>::hash`, which writes the
/// length and then the bytes). Nothing is stated of the hasher's state
/// afterwards: how the length is written depends on the machine.
#[verifier::external_body]
fn hash_into(payload: &[u8], hasher: &mut std::collections::hash_map::DefaultHasher) {
    std::hash::Hash::hash(payload, hasher);
}

/// A short hash of a payload for logging: 8 lowercase hexadecimal digits,
/// the upper 32 bits of the payload's `DefaultHasher` hash.
pub fn payload_hash(payload: &[u8]) -> (r: String)
    ensures
        exists|h: u64| r@ == hash_text(h),
        r@.len() == 8,
{
    let mut hasher = std::collections::hash_map::DefaultHasher::new();
    hash_into(payload, &mut hasher);
    let h = std::hash::Hasher::finish(&hasher);
    let r = hash_hex(h);
    proof {
        lemma_hex_digits_len(h as nat / 0x1_0000_0000, 8);
    }
    r
}

} // verus!
