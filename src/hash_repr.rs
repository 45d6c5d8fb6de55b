//! What a key feeds into a hasher.
//!
//! A `DefaultHasher` is viewed, as vstd models it, as the sequence of byte
//! strings written into it so far. A key's hash representation is the
//! sequence of byte strings that its `Hash` impl writes.
use core::hash::Hash;
use std::collections::hash_map::DefaultHasher;
use vstd::prelude::*;

verus! {

/// The byte strings that `u64`'s `Hash` impl writes for a value.
pub uninterp spec fn u64_writes(x: u64) -> Seq<Seq<u8>>;

/// The byte strings that `str`'s `Hash` impl writes for a string.
pub uninterp spec fn str_writes(s: Seq<char>) -> Seq<Seq<u8>>;

/// The byte strings that `[u8]`'s `Hash` impl writes for a slice.
pub uninterp spec fn byte_slice_writes(b: Seq<u8>) -> Seq<Seq<u8>>;

/// Relies on `<u64 as Hash>::hash`: it writes into the hasher a sequence of
/// byte strings that depends on the value alone.
#[verifier::external_body]
fn hash_u64(x: &u64, state: &mut DefaultHasher)
    ensures
        final(state)@ == old(state)@ + u64_writes(*x),
{
    x.hash(state)
}

/// Relies on `<str as Hash>::hash`: it writes into the hasher a sequence of
/// byte strings that depends on the characters alone.
#[verifier::external_body]
fn hash_str(s: &str, state: &mut DefaultHasher)
    ensures
        final(state)@ == old(state)@ + str_writes(s@),
{
    s.hash(state)
}

/// Relies on `<[u8] as Hash>::hash`: it writes into the hasher a sequence of
/// byte strings that depends on the bytes alone.
#[verifier::external_body]
fn hash_byte_slice(b: &[u8], state: &mut DefaultHasher)
    ensures
        final(state)@ == old(state)@ + byte_slice_writes(b@),
{
    b.hash(state)
}

/// A key whose hash representation is known: the byte strings that hashing
/// it writes into a hasher.
///
/// An owned type and the borrowed type it stands for (`String` and `str`,
/// `Vec<u8>` and `[u8]`) have the same representation for the same content,
/// as `Borrow` asks of their `Hash` impls.
pub trait HashRepr {
    /// The byte strings that hashing this key writes.
    spec fn hash_repr(&self) -> Seq<Seq<u8>>;

    /// Writes this key into `state`, after what it already holds.
    fn feed(&self, state: &mut DefaultHasher)
        ensures
            final(state)@ == old(state)@ + self.hash_repr(),
    ;
}

impl HashRepr for u64 {
    open spec fn hash_repr(&self) -> Seq<Seq<u8>> {
        u64_writes(*self)
    }

    fn feed(&self, state: &mut DefaultHasher) {
        hash_u64(self, state)
    }
}

impl HashRepr for str {
    open spec fn hash_repr(&self) -> Seq<Seq<u8>> {
        str_writes(self@)
    }

    fn feed(&self, state: &mut DefaultHasher) {
        hash_str(self, state)
    }
}

impl HashRepr for String {
    open spec fn hash_repr(&self) -> Seq<Seq<u8>> {
        str_writes(self@)
    }

    fn feed(&self, state: &mut DefaultHasher) {
        hash_str(self.as_str(), state)
    }
}

impl HashRepr for [u8] {
    open spec fn hash_repr(&self) -> Seq<Seq<u8>> {
        byte_slice_writes(self@)
    }

    fn feed(&self, state: &mut DefaultHasher) {
        hash_byte_slice(self, state)
    }
}

impl HashRepr for Vec<u8> {
    open spec fn hash_repr(&self) -> Seq<Seq<u8>> {
        byte_slice_writes(self@)
    }

    fn feed(&self, state: &mut DefaultHasher) {
        hash_byte_slice(self.as_slice(), state)
    }
}

} // verus!
