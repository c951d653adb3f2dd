//! Commitment preimages and their Keccak-256 digests.

use vstd::prelude::*;
use soroban_sdk::{Bytes, Env};

verus! {

/// The host environment that computes digests.
#[verifier::external_type_specification]
#[verifier::external_body]
pub struct ExEnv(Env);

/// Width in bytes of a salt and of a digest.
pub const DIGEST_LEN: usize = 32;

/// The Keccak-256 digest of a byte string, as computed by the host.
pub uninterp spec fn keccak256_of(data: Seq<u8>) -> Seq<u8>;

/// Relies on soroban_sdk's `Crypto::keccak256` (with `Bytes::from_slice` and
/// `Hash::to_array` to move the bytes in and out): the host's Keccak-256 digest of `data`,
/// 32 bytes that depend on `data` alone. The host aborts the whole invocation when its
/// metering budget runs out; nothing here returns in that case.
#[verifier::external_body]
fn keccak256(env: &Env, data: &Vec<u8>) -> (r: [u8; 32])
    ensures
        r@ == keccak256_of(data@),
{
    env.crypto().keccak256(&Bytes::from_slice(env, data.as_slice())).to_array()
}

/// Preimage of a hands commitment: `left` and `right` as one byte each, then the salt.
pub open spec fn hands_preimage(left: u32, right: u32, salt: Seq<u8>) -> Seq<u8> {
    seq![left as u8, right as u8] + salt
}

/// Preimage of a choice commitment: the choice index as one byte, then the salt.
pub open spec fn choice_preimage(choice: u32, salt: Seq<u8>) -> Seq<u8> {
    seq![choice as u8] + salt
}

/// Digest that commits to a pair of hands.
pub open spec fn hands_digest(left: u32, right: u32, salt: Seq<u8>) -> Seq<u8> {
    keccak256_of(hands_preimage(left, right, salt))
}

/// Digest that commits to a choice index.
pub open spec fn choice_digest(choice: u32, salt: Seq<u8>) -> Seq<u8> {
    keccak256_of(choice_preimage(choice, salt))
}

/// Hands commitments are deterministic: equal hands and salts give equal digests.
pub proof fn lemma_hands_digest_deterministic(
    left1: u32,
    right1: u32,
    salt1: Seq<u8>,
    left2: u32,
    right2: u32,
    salt2: Seq<u8>,
)
    requires
        left1 == left2,
        right1 == right2,
        salt1 == salt2,
    ensures
        hands_digest(left1, right1, salt1) == hands_digest(left2, right2, salt2),
{
}

/// Choice commitments are deterministic: equal indices and salts give equal digests.
pub proof fn lemma_choice_digest_deterministic(
    choice1: u32,
    salt1: Seq<u8>,
    choice2: u32,
    salt2: Seq<u8>,
)
    requires
        choice1 == choice2,
        salt1 == salt2,
    ensures
        choice_digest(choice1, salt1) == choice_digest(choice2, salt2),
{
}

/// The hands preimage layout loses nothing: for byte-sized hands and 32-byte salts, a
/// change of either hand or of any salt byte changes the bytes that are hashed.
pub proof fn lemma_hands_preimage_injective(
    left1: u32,
    right1: u32,
    salt1: Seq<u8>,
    left2: u32,
    right2: u32,
    salt2: Seq<u8>,
)
    requires
        left1 < 256,
        right1 < 256,
        left2 < 256,
        right2 < 256,
        salt1.len() == DIGEST_LEN,
        salt2.len() == DIGEST_LEN,
        hands_preimage(left1, right1, salt1) == hands_preimage(left2, right2, salt2),
    ensures
        left1 == left2,
        right1 == right2,
        salt1 == salt2,
{
    let p1 = hands_preimage(left1, right1, salt1);
    let p2 = hands_preimage(left2, right2, salt2);
    assert(p1[0] == left1 as u8 && p2[0] == left2 as u8);
    assert(p1[1] == right1 as u8 && p2[1] == right2 as u8);
    assert(left1 as u8 == left1 && left2 as u8 == left2) by (bit_vector)
        requires
            left1 < 256,
            left2 < 256,
    ;
    assert(right1 as u8 == right1 && right2 as u8 == right2) by (bit_vector)
        requires
            right1 < 256,
            right2 < 256,
    ;
    assert(salt1 =~= p1.subrange(2, 34));
    assert(salt2 =~= p2.subrange(2, 34));
}

/// The choice preimage layout loses nothing: for byte-sized indices and 32-byte salts, a
/// change of the index or of any salt byte changes the bytes that are hashed.
pub proof fn lemma_choice_preimage_injective(
    choice1: u32,
    salt1: Seq<u8>,
    choice2: u32,
    salt2: Seq<u8>,
)
    requires
        choice1 < 256,
        choice2 < 256,
        salt1.len() == DIGEST_LEN,
        salt2.len() == DIGEST_LEN,
        choice_preimage(choice1, salt1) == choice_preimage(choice2, salt2),
    ensures
        choice1 == choice2,
        salt1 == salt2,
{
    let p1 = choice_preimage(choice1, salt1);
    let p2 = choice_preimage(choice2, salt2);
    assert(p1[0] == choice1 as u8 && p2[0] == choice2 as u8);
    assert(choice1 as u8 == choice1 && choice2 as u8 == choice2) by (bit_vector)
        requires
            choice1 < 256,
            choice2 < 256,
    ;
    assert(salt1 =~= p1.subrange(1, 33));
    assert(salt2 =~= p2.subrange(1, 33));
}

/// Appends the bytes of `salt` to `out`.
fn push_salt(out: &mut Vec<u8>, salt: &[u8; 32])
    ensures
        final(out)@ == old(out)@ + salt@,
{
    let mut i: usize = 0;
    while i < DIGEST_LEN
        invariant
            i <= DIGEST_LEN,
            salt@.len() == DIGEST_LEN,
            out@ == old(out)@ + salt@.subrange(0, i as int),
        decreases DIGEST_LEN - i,
    {
        out.push(salt[i]);
        proof {
            assert(salt@.subrange(0, i + 1) == salt@.subrange(0, i as int).push(salt@[i as int]));
        }
        i += 1;
    }
    proof {
        assert(salt@.subrange(0, 32) == salt@);
    }
}

/// Builds `left ‖ right ‖ salt`, each hand truncated to one byte.
pub fn build_hands_preimage(left: u32, right: u32, salt: &[u8; 32]) -> (r: Vec<u8>)
    ensures
        r@ == hands_preimage(left, right, salt@),
{
    let mut pre: Vec<u8> = Vec::new();
    pre.push(left as u8);
    pre.push(right as u8);
    push_salt(&mut pre, salt);
    pre
}

/// Builds `choice ‖ salt`, the index truncated to one byte.
pub fn build_choice_preimage(choice: u32, salt: &[u8; 32]) -> (r: Vec<u8>)
    ensures
        r@ == choice_preimage(choice, salt@),
{
    let mut pre: Vec<u8> = Vec::new();
    pre.push(choice as u8);
    push_salt(&mut pre, salt);
    pre
}

/// Hands commitment: Keccak-256 of `left ‖ right ‖ salt`.
pub fn hash_hands(env: &Env, left: u32, right: u32, salt: &[u8; 32]) -> (r: [u8; 32])
    ensures
        r@ == hands_digest(left, right, salt@),
{
    let pre = build_hands_preimage(left, right, salt);
    keccak256(env, &pre)
}

/// Choice commitment: Keccak-256 of `choice ‖ salt`.
pub fn hash_choice(env: &Env, choice: u32, salt: &[u8; 32]) -> (r: [u8; 32])
    ensures
        r@ == choice_digest(choice, salt@),
{
    let pre = build_choice_preimage(choice, salt);
    keccak256(env, &pre)
}

/// Byte-wise comparison of two digests.
pub fn digest_eq(a: &[u8; 32], b: &[u8; 32]) -> (r: bool)
    ensures
        r == (*a == *b),
        r == (a@ == b@),
{
    let mut i: usize = 0;
    while i < DIGEST_LEN
        invariant
            i <= DIGEST_LEN,
            a@.len() == DIGEST_LEN,
            b@.len() == DIGEST_LEN,
            forall|j: int| 0 <= j < i ==> a@[j] == b@[j],
        decreases DIGEST_LEN - i,
    {
        if a[i] != b[i] {
            return false;
        }
        i += 1;
    }
    proof {
        assert(a@ =~= b@);
        assert(*a =~= *b);
    }
    true
}

} // verus!
