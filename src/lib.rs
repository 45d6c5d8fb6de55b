//! Key hashing for the probabilistic structures of a windowed-LFU cache.
//!
//! A [`KeyHasher`] turns a key, or a borrowed form of it, into a 64-bit hash;
//! [`DefaultKeyHasher`] does so with a keyed hasher seeded once per instance.
//! What a key feeds into a hasher is modelled by [`HashRepr`].
mod hash_repr;
mod key_hasher;

pub use hash_repr::HashRepr;
pub use key_hasher::{
    lemma_byte_vec_hashes_as_slice, lemma_equal_keys_hash_alike, lemma_hash_deterministic,
    lemma_string_hashes_as_str, DefaultKeyHasher, KeyHasher,
};
