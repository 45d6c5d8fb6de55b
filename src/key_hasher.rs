//! The hashing capability and its default implementation.
use crate::hash_repr::HashRepr;
use core::borrow::Borrow;
use core::hash::{BuildHasher, Hash, Hasher};
use core::marker::PhantomData;
use std::collections::hash_map::{DefaultHasher, RandomState};
use vstd::prelude::*;
use vstd::std_specs::hash::DefaultHasherAdditionalSpecFns;

verus! {

/// Relies on `RandomState::new`: a hash builder whose keys are drawn from
/// process-wide randomness. Nothing is known of those keys.
#[verifier::external_body]
fn new_random_state() -> RandomState {
    RandomState::new()
}

/// Relies on `<RandomState as BuildHasher>::build_hasher`: a hasher keyed by
/// the builder's keys. What it holds is left open, since it depends on them.
#[verifier::external_body]
fn build_keyed_hasher(builder: &RandomState) -> DefaultHasher {
    builder.build_hasher()
}

/// Relies on `<DefaultHasher as Clone>::clone`: the copy has the same keys
/// and the same input written so far.
#[verifier::external_body]
fn copy_hasher(h: &DefaultHasher) -> (r: DefaultHasher)
    ensures
        r@ == h@,
{
    h.clone()
}

/// A capability that hashes keys for a Bloom filter or a count sketch.
///
/// The hash is a function of the instance and of the key's hash
/// representation: within one instance, keys that feed the same bytes hash
/// alike, whether they are passed owned or borrowed.
pub trait KeyHasher<K: Hash + Eq + Clone + core::fmt::Debug> {
    /// The hash this instance gives a key with hash representation `repr`.
    spec fn spec_hash(&self, repr: Seq<Seq<u8>>) -> u64;

    /// Hashes `key`, the key type itself or a form it borrows as.
    fn hash_key<Q>(&self, key: &Q) -> (r: u64)
        where
            K: Borrow<Q>,
            Q: HashRepr + Hash + Eq + ?Sized,
        ensures
            r == self.spec_hash(key.hash_repr()),
    ;
}

/// Hashes keys with the hasher that std's hash maps use by default, keyed
/// once per instance from process-wide randomness.
///
/// It keeps a hasher built from its `RandomState` with nothing written into
/// it; each hash starts from a fresh copy of that hasher, so no input of one
/// computation reaches another.
pub struct DefaultKeyHasher<K: Hash + Eq + Clone + core::fmt::Debug> {
    marker: PhantomData<K>,
    hasher: DefaultHasher,
}

impl<K: Hash + Eq + Clone + core::fmt::Debug> View for DefaultKeyHasher<K> {
    /// The state of the keyed hasher that every hash starts from.
    type V = Seq<Seq<u8>>;

    closed spec fn view(&self) -> Seq<Seq<u8>> {
        self.hasher@
    }
}

impl<K: Hash + Eq + Clone + core::fmt::Debug> Clone for DefaultKeyHasher<K> {
    fn clone(&self) -> (r: Self)
        ensures
            r@ == self@,
    {
        DefaultKeyHasher { marker: PhantomData, hasher: copy_hasher(&self.hasher) }
    }
}

impl<K: Hash + Eq + Clone + core::fmt::Debug> Default for DefaultKeyHasher<K> {
    fn default() -> Self {
        let builder = new_random_state();
        DefaultKeyHasher { marker: PhantomData, hasher: build_keyed_hasher(&builder) }
    }
}

impl<K: Hash + Eq + Clone + core::fmt::Debug> KeyHasher<K> for DefaultKeyHasher<K> {
    open spec fn spec_hash(&self, repr: Seq<Seq<u8>>) -> u64 {
        DefaultHasher::spec_finish(self@ + repr)
    }

    fn hash_key<Q>(&self, key: &Q) -> (r: u64)
        where
            K: Borrow<Q>,
            Q: HashRepr + Hash + Eq + ?Sized,
    {
        let mut s = copy_hasher(&self.hasher);
        key.feed(&mut s);
        s.finish()
    }
}

/// Within one instance, two hashes of the same key agree: each result is the
/// instance's hash of the key's representation.
pub proof fn lemma_hash_deterministic<K, H, Q>(h: &H, key: &Q, first: u64, second: u64)
    where
        K: Hash + Eq + Clone + core::fmt::Debug,
        H: KeyHasher<K>,
        Q: HashRepr + ?Sized,
    requires
        first == h.spec_hash(key.hash_repr()),
        second == h.spec_hash(key.hash_repr()),
    ensures
        first == second,
{
}

/// Equal keys hash alike under one instance.
pub proof fn lemma_equal_keys_hash_alike<K, H, Q>(h: &H, k1: &Q, k2: &Q)
    where
        K: Hash + Eq + Clone + core::fmt::Debug,
        H: KeyHasher<K>,
        Q: HashRepr + ?Sized,
    requires
        k1 == k2,
    ensures
        h.spec_hash(k1.hash_repr()) == h.spec_hash(k2.hash_repr()),
{
}

/// An owned `String` key and a borrowed `str` with the same characters hash
/// alike under one instance.
pub proof fn lemma_string_hashes_as_str<H: KeyHasher<String>>(h: &H, owned: &String, borrowed: &str)
    requires
        owned@ == borrowed@,
    ensures
        h.spec_hash(owned.hash_repr()) == h.spec_hash(borrowed.hash_repr()),
{
}

/// An owned `Vec<u8>` key and a borrowed `[u8]` with the same bytes hash
/// alike under one instance.
pub proof fn lemma_byte_vec_hashes_as_slice<H: KeyHasher<Vec<u8>>>(
    h: &H,
    owned: &Vec<u8>,
    borrowed: &[u8],
)
    requires
        owned@ == borrowed@,
    ensures
        h.spec_hash(owned.hash_repr()) == h.spec_hash(borrowed.hash_repr()),
{
}

} // verus!
