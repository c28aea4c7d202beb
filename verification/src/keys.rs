//! Key material for new accounts.

use miden_protocol::crypto::dsa::falcon512_poseidon2::SecretKey as FalconSecretKey;
use miden_protocol::crypto::rand::RandomCoin;
use miden_protocol::utils::serde::Serializable;
use miden_protocol::{Felt, Word};
use rand::{Rng, SeedableRng};
use rand_chacha::ChaCha20Rng;
use vstd::prelude::*;

verus! {

/// `rand::random` draws 32 bytes. Nothing is claimed of them.
#[verifier::external_body]
fn random_seed() -> (r: [u8; 32]) {
    rand::random()
}

/// What a `ChaCha20Rng` with the given seed yields first: four numbers, then 32 bytes.
pub uninterp spec fn chacha20_output(seed: Seq<u8>) -> (Seq<u64>, Seq<u8>);

/// `ChaCha20Rng::from_seed`, then `Rng::random` for four numbers and for 32 bytes.
///
/// Claimed: the generator's output follows from its seed.
#[verifier::external_body]
fn chacha20_draw(seed: [u8; 32]) -> (r: ([u64; 4], [u8; 32]))
    ensures
        (r.0@, r.1@) == chacha20_output(seed@),
{
    let mut rng = ChaCha20Rng::from_seed(seed);
    (rng.random(), rng.random())
}

/// The encoded Falcon secret key that `SecretKey::with_rng` finds with a `RandomCoin` that starts
/// from the given numbers.
pub uninterp spec fn falcon_secret_key(coin_seed: Seq<u64>) -> Seq<u8>;

/// The public key that belongs to an encoded Falcon secret key, as its commitment.
pub uninterp spec fn falcon_public_key(secret_key: Seq<u8>) -> Seq<u64>;

/// `SecretKey::with_rng` with a `RandomCoin` that starts from the given numbers: an encoded
/// secret key and the commitment to its public key.
///
/// Claimed: the secret key follows from the numbers, and the commitment from the secret key.
#[verifier::external_body]
fn falcon_key_pair(coin_seed: [u64; 4]) -> (r: (Vec<u8>, [u64; 4]))
    ensures
        r.0@ == falcon_secret_key(coin_seed@),
        r.1@ == falcon_public_key(r.0@),
{
    let mut coin = RandomCoin::new(Word::from(coin_seed.map(Felt::new)));
    let secret_key = FalconSecretKey::with_rng(&mut coin);
    let commitment = secret_key.public_key().to_commitment();
    let elements: [Felt; 4] = commitment.into();
    (secret_key.to_bytes(), elements.map(|element| element.as_canonical_u64()))
}

/// An encoded Falcon secret key.
#[derive(Debug)]
pub struct SecretKey {
    encoded: Vec<u8>,
}

impl View for SecretKey {
    type V = Seq<u8>;

    closed spec fn view(&self) -> Seq<u8> {
        self.encoded@
    }
}

impl SecretKey {
    /// The bytes that encode the key.
    pub fn as_bytes(&self) -> (bytes: &[u8])
        ensures
            bytes@ == self@,
    {
        self.encoded.as_slice()
    }
}

impl Clone for SecretKey {
    fn clone(&self) -> (r: Self)
        ensures
            r@ == self@,
    {
        SecretKey { encoded: self.encoded.clone() }
    }
}

/// The key material that a seed leads to: four numbers of its generator start the key search, and
/// the 32 bytes that follow are the account's seed.
pub open spec fn key_material(seed: Seq<u8>) -> KeyModel {
    KeyModel {
        secret_key: falcon_secret_key(chacha20_output(seed).0),
        init_seed: chacha20_output(seed).1,
    }
}

/// Key material as plain values.
pub struct KeyModel {
    pub secret_key: Seq<u8>,
    pub init_seed: Seq<u8>,
}

impl KeyModel {
    /// The commitment to the public key.
    pub open spec fn public_key(self) -> Seq<u64> {
        falcon_public_key(self.secret_key)
    }
}

/// What a new account needs: a key pair, and the seed from which its identifier is searched.
#[derive(Debug)]
pub struct KeyMaterial {
    pub(crate) secret_key: SecretKey,
    pub(crate) public_key: [u64; 4],
    pub(crate) init_seed: [u8; 32],
}

impl View for KeyMaterial {
    type V = KeyModel;

    closed spec fn view(&self) -> KeyModel {
        KeyModel { secret_key: self.secret_key@, init_seed: self.init_seed@ }
    }
}

/// Key material of several accounts, as plain values.
pub open spec fn key_models(keys: Seq<KeyMaterial>) -> Seq<KeyModel> {
    keys.map_values(|key: KeyMaterial| key@)
}

impl KeyMaterial {
    /// The public key belongs to the secret key.
    #[verifier::type_invariant]
    spec fn wf(&self) -> bool {
        self.public_key@ == falcon_public_key(self.secret_key@)
    }

    /// Key material from a fresh random seed.
    pub fn generate() -> (r: Self)
        ensures
            exists|seed: Seq<u8>| seed.len() == 32 && r@ == #[trigger] key_material(seed),
    {
        Self::from_seed(random_seed())
    }

    /// Key material from a given seed.
    pub fn from_seed(seed: [u8; 32]) -> (r: Self)
        ensures
            r@ == key_material(seed@),
    {
        let (coin_seed, init_seed) = chacha20_draw(seed);
        let (secret_key, public_key) = falcon_key_pair(coin_seed);
        KeyMaterial { secret_key: SecretKey { encoded: secret_key }, public_key, init_seed }
    }

    /// The secret key.
    pub fn secret_key(&self) -> (r: &SecretKey)
        ensures
            r@ == self@.secret_key,
    {
        &self.secret_key
    }

    /// The commitment to the public key.
    pub fn public_key(&self) -> (r: &[u64; 4])
        ensures
            r@ == self@.public_key(),
    {
        proof {
            use_type_invariant(self);
        }
        &self.public_key
    }

    /// The seed of the account.
    pub fn init_seed(&self) -> (r: &[u8; 32])
        ensures
            r@ == self@.init_seed,
    {
        &self.init_seed
    }
}

impl Clone for KeyMaterial {
    fn clone(&self) -> (r: Self)
        ensures
            r@ == self@,
    {
        proof {
            use_type_invariant(self);
        }
        KeyMaterial {
            secret_key: self.secret_key.clone(),
            public_key: self.public_key,
            init_seed: self.init_seed,
        }
    }
}

// LAWS
// ================================================================================================

/// A seed leads to the secret key that is found from the first numbers of its generator, to the
/// public key of that secret key, and to the bytes that the generator yields next.
pub proof fn seeds_lead_to_keys(seed: Seq<u8>)
    ensures
        ({
            let (numbers, bytes) = chacha20_output(seed);
            let key = key_material(seed);
            &&& key.secret_key == falcon_secret_key(numbers)
            &&& key.public_key() == falcon_public_key(falcon_secret_key(numbers))
            &&& key.init_seed == bytes
        }),
{
}

/// The public key is that of the secret key.
pub proof fn public_keys_belong_to_secret_keys(key: KeyModel)
    ensures
        key.public_key() == falcon_public_key(key.secret_key),
{
}

} // verus!
