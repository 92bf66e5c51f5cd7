//! The campaign's pool of entropy. Every call stirs what it was sent into the
//! pool; the seed of the reward token is drawn from it.
use rand_chacha::ChaCha20Rng;
use sha2::Sha256;
use vstd::prelude::*;

use crate::project::state::{Campaign, CampaignView};
use crate::text::concat_bytes;

verus! {

/// The SHA-256 digest of a byte string: 32 bytes.
pub uninterp spec fn sha256_of(data: Seq<u8>) -> Seq<u8>;

/// A ChaCha generator with 20 rounds.
#[verifier::external_type_specification]
#[verifier::external_body]
pub struct ExChaCha20Rng(ChaCha20Rng);

/// `Sha256::digest`: the SHA-256 digest of `data`.
#[verifier::external_body]
pub fn sha_256(data: &[u8]) -> (r: [u8; 32])
    ensures
        r@ == sha256_of(data@),
{
    <Sha256 as sha2::Digest>::digest(data).into()
}

/// The 64-bit words that a generator yields from now on, in the order in
/// which it yields them: the next one stands at 0.
pub uninterp spec fn upcoming_words(rng: ChaCha20Rng) -> Map<nat, u64>;

/// The 64-bit words that a ChaCha generator with 20 rounds yields when it
/// starts from `seed`, in the order in which it yields them.
pub uninterp spec fn chacha_words(seed: Seq<u8>) -> Map<nat, u64>;

/// `ChaCha20Rng::from_seed`: a generator that starts from `seed`. What it
/// yields depends on the seed alone.
#[verifier::external_body]
fn rng_from_seed(seed: [u8; 32]) -> (r: ChaCha20Rng)
    ensures
        upcoming_words(r) == chacha_words(seed@),
{
    <ChaCha20Rng as rand::SeedableRng>::from_seed(seed)
}

/// `RngCore::next_u64` on a ChaCha generator: the word that was next, and
/// the generator moves on to the one after it.
#[verifier::external_body]
fn rng_next_u64(rng: &mut ChaCha20Rng) -> (r: u64)
    ensures
        r == upcoming_words(*old(rng))[0nat],
        forall|n: nat| #[trigger]
            upcoming_words(*final(rng))[n] == upcoming_words(*old(rng))[(n + 1) as nat],
{
    rand::RngCore::next_u64(rng)
}

/// Stirs `additional_entropy` into the pool: the new pool is the digest of
/// the old pool followed by the addition.
pub fn supply_more_entropy(storage: &mut Campaign, additional_entropy: &[u8])
    ensures
        final(storage)@ == (CampaignView {
            entropy_pool: sha256_of(old(storage)@.entropy_pool + additional_entropy@),
            ..old(storage)@
        }),
{
    let source = concat_bytes(storage.entropy_pool.as_slice(), additional_entropy);
    storage.entropy_pool = sha_256(source.as_slice());
}

/// A generator seeded with the pool: it yields the words of the ChaCha
/// stream that starts from the pool.
pub fn get_random_number_generator(storage: &Campaign) -> (r: ChaCha20Rng)
    ensures
        upcoming_words(r) == chacha_words(storage@.entropy_pool),
{
    rng_from_seed(storage.entropy_pool)
}

/// The first word of the ChaCha stream that starts from the pool. The pool
/// stays as it is, so the word is the same until the pool is stirred.
pub fn next_random_u64(storage: &Campaign) -> (r: u64)
    ensures
        r == chacha_words(storage@.entropy_pool)[0nat],
{
    let mut rng = get_random_number_generator(storage);
    rng_next_u64(&mut rng)
}

} // verus!
