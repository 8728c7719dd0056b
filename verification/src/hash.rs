//! The seed accumulator: a rolling digest seeded from the instance identity,
//! folded on every buy, and sealed once at draw time. Each digest is the
//! SHA-256 hash of the previous seed plus the event's data, rendered as
//! padded Base64; winner selection reduces the sealed seed to a 64-bit hash.

use vstd::prelude::*;
use vstd::bytes::{spec_u64_to_le_bytes, u64_to_le_bytes};
use vstd::string::StrSliceExecFns;
use vstd::utf8::encode_utf8;
use sha2::{Digest, Sha256};
use base64ct::{Base64, Encoding};
use std::collections::hash_map::DefaultHasher;
use std::hash::{Hash, Hasher};
use crate::types::view_opt_string;

verus! {

/// The SHA-256 digest of a byte sequence; a function of the bytes alone.
pub uninterp spec fn sha256_of(data: Seq<u8>) -> Seq<u8>;

/// Relies on sha2's `Sha256::digest`: the digest is 32 bytes and depends on
/// the input bytes alone.
#[verifier::external_body]
fn sha256_digest(data: &Vec<u8>) -> (r: Vec<u8>)
    ensures
        r@ == sha256_of(data@),
        r@.len() == 32,
{
    Sha256::digest(data.as_slice()).to_vec()
}

/// The padded standard Base64 encoding of a byte sequence.
pub uninterp spec fn base64_of(data: Seq<u8>) -> Seq<char>;

/// Relies on base64ct's `Base64::encode_string`: padded standard Base64,
/// four characters for every started group of three input bytes; depends on
/// the input bytes alone. It panics above `usize::MAX / 4` input bytes, so
/// that much is required away.
#[verifier::external_body]
fn base64_encode(data: &Vec<u8>) -> (r: String)
    requires
        data@.len() * 4 <= usize::MAX,
    ensures
        r@ == base64_of(data@),
        r@.len() == 4 * ((data@.len() + 2) / 3),
{
    Base64::encode_string(data.as_slice())
}

/// A 64-bit hash of a string; a function of its characters alone.
pub uninterp spec fn hash64_of(s: Seq<char>) -> u64;

/// Relies on std's `DefaultHasher`: hashers built by `DefaultHasher::new`
/// are documented to hash alike, so the result depends on the string alone.
#[verifier::external_body]
pub fn hash_to_u64(obj: &str) -> (r: u64)
    ensures
        r == hash64_of(obj@),
{
    let mut hasher = DefaultHasher::new();
    obj.hash(&mut hasher);
    hasher.finish()
}

/// The bytes folded into a fresh seed: the instance identity and the
/// creation block height.
pub open spec fn init_message(id: Seq<char>, block_height: u64) -> Seq<u8> {
    encode_utf8(id) + spec_u64_to_le_bytes(block_height)
}

/// The seed a fresh lottery instance starts from.
pub open spec fn spec_init(id: Seq<char>, block_height: u64) -> Seq<char> {
    base64_of(sha256_of(init_message(id, block_height)))
}

/// The bytes folded into the seed by one buy: the previous seed, the buyer,
/// the ticket index, the block height, and the buyer's memo where given.
pub open spec fn update_message(
    seed: Seq<char>,
    owner: Seq<char>,
    ticket_count: u64,
    block_height: u64,
    lucky_phrase: Option<Seq<char>>,
) -> Seq<u8> {
    let base = encode_utf8(seed) + encode_utf8(owner) + spec_u64_to_le_bytes(ticket_count)
        + spec_u64_to_le_bytes(block_height);
    match lucky_phrase {
        Some(p) => base + encode_utf8(p),
        None => base,
    }
}

/// The seed after one buy is folded in.
pub open spec fn spec_update(
    seed: Seq<char>,
    owner: Seq<char>,
    ticket_count: u64,
    block_height: u64,
    lucky_phrase: Option<Seq<char>>,
) -> Seq<char> {
    base64_of(sha256_of(update_message(seed, owner, ticket_count, block_height, lucky_phrase)))
}

/// The bytes folded into the seed by the draw: the previous seed, the
/// drawer, the block height, and the transaction position where given.
pub open spec fn finalize_message(
    seed: Seq<char>,
    sender: Seq<char>,
    block_height: u64,
    lucky_phrase: Option<Seq<char>>,
) -> Seq<u8> {
    let base = encode_utf8(seed) + encode_utf8(sender) + spec_u64_to_le_bytes(block_height);
    match lucky_phrase {
        Some(p) => base + encode_utf8(p),
        None => base,
    }
}

/// The terminal seed the winner selection consumes.
pub open spec fn spec_finalize(
    seed: Seq<char>,
    sender: Seq<char>,
    block_height: u64,
    lucky_phrase: Option<Seq<char>>,
) -> Seq<char> {
    base64_of(sha256_of(finalize_message(seed, sender, block_height, lucky_phrase)))
}

/// Seeds the accumulator from the deploying instance's unique identity and
/// the creation block height.
pub fn init(id: &str, block_height: u64) -> (r: String)
    ensures
        r@ == spec_init(id@, block_height),
{
    let mut data = id.as_bytes_vec();
    let mut hb = u64_to_le_bytes(block_height);
    data.append(&mut hb);
    proof {
        assert(data@ =~= init_message(id@, block_height));
    }
    let digest = sha256_digest(&data);
    base64_encode(&digest)
}

/// Folds one buy into the seed: the buyer, the ticket index assigned to the
/// buy, the block height, and the buyer's memo where given.
pub fn update(
    seed: &str,
    owner: &str,
    ticket_count: u64,
    block_height: u64,
    lucky_phrase: &Option<String>,
) -> (r: String)
    ensures
        r@ == spec_update(seed@, owner@, ticket_count, block_height, view_opt_string(*lucky_phrase)),
{
    let mut data = seed.as_bytes_vec();
    let mut ob = owner.as_bytes_vec();
    data.append(&mut ob);
    let mut tb = u64_to_le_bytes(ticket_count);
    data.append(&mut tb);
    let mut hb = u64_to_le_bytes(block_height);
    data.append(&mut hb);
    match lucky_phrase {
        Some(p) => {
            let mut pb = p.as_str().as_bytes_vec();
            data.append(&mut pb);
        },
        None => {},
    }
    proof {
        assert(data@ =~= update_message(
            seed@,
            owner@,
            ticket_count,
            block_height,
            view_opt_string(*lucky_phrase),
        ));
    }
    let digest = sha256_digest(&data);
    base64_encode(&digest)
}

/// Seals the seed at draw time with the drawer's identity, the block height,
/// and the transaction's position inside the block where the host knows it.
pub fn finalize(
    seed: &str,
    sender: &str,
    block_height: u64,
    lucky_phrase: &Option<String>,
) -> (r: String)
    ensures
        r@ == spec_finalize(seed@, sender@, block_height, view_opt_string(*lucky_phrase)),
{
    let mut data = seed.as_bytes_vec();
    let mut sb = sender.as_bytes_vec();
    data.append(&mut sb);
    let mut hb = u64_to_le_bytes(block_height);
    data.append(&mut hb);
    match lucky_phrase {
        Some(p) => {
            let mut pb = p.as_str().as_bytes_vec();
            data.append(&mut pb);
        },
        None => {},
    }
    proof {
        assert(data@ =~= finalize_message(
            seed@,
            sender@,
            block_height,
            view_opt_string(*lucky_phrase),
        ));
    }
    let digest = sha256_digest(&data);
    base64_encode(&digest)
}

/// Seed determinism: the accumulator is a pure function of its arguments, so
/// folding or sealing twice with equal arguments yields equal seeds.
pub proof fn lemma_seed_determinism(
    seed1: Seq<char>,
    owner1: Seq<char>,
    ticket_count1: u64,
    block_height1: u64,
    lucky_phrase1: Option<Seq<char>>,
    seed2: Seq<char>,
    owner2: Seq<char>,
    ticket_count2: u64,
    block_height2: u64,
    lucky_phrase2: Option<Seq<char>>,
)
    requires
        seed1 == seed2,
        owner1 == owner2,
        ticket_count1 == ticket_count2,
        block_height1 == block_height2,
        lucky_phrase1 == lucky_phrase2,
    ensures
        spec_update(seed1, owner1, ticket_count1, block_height1, lucky_phrase1) == spec_update(
            seed2,
            owner2,
            ticket_count2,
            block_height2,
            lucky_phrase2,
        ),
        spec_finalize(seed1, owner1, block_height1, lucky_phrase1) == spec_finalize(
            seed2,
            owner2,
            block_height2,
            lucky_phrase2,
        ),
{
}

} // verus!
