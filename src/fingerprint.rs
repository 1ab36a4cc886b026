use vstd::layout::size_of;
use vstd::prelude::*;

use crate::payload::Payload;

verus! {

/// An approximation of type identity at run time: the size of a type in bytes and a hash
/// of its canonical name.
///
/// Two types with the same size and name hash share a fingerprint; such a collision is
/// not prevented.
#[derive(Debug, Clone, Copy, PartialEq, Eq, Structural)]
pub struct Fingerprint {
    pub hash: u64,
    pub size: usize,
}

/// The hash that std's `DefaultHasher` gives a string.
pub uninterp spec fn name_hash(name: Seq<char>) -> u64;

/// Relies on `BuildHasher::hash_one` with std's `DefaultHasher`, whose keys are fixed
/// rather than drawn per process: the hash depends on the string alone.
#[verifier::external_body]
fn hash_name(name: &str) -> (r: u64)
    ensures
        r == name_hash(name@),
{
    std::hash::BuildHasher::hash_one(
        &std::hash::BuildHasherDefault::<std::collections::hash_map::DefaultHasher>::default(),
        name,
    )
}

/// The fingerprint of the payload type `T`.
pub open spec fn fingerprint_of<T: Payload>() -> Fingerprint {
    Fingerprint { hash: name_hash(T::name_spec()), size: size_of::<T>() as usize }
}

impl Fingerprint {
    /// Computes the fingerprint of `T` from its size and canonical name.
    pub fn of<T: Payload>() -> (r: Fingerprint)
        ensures
            r == fingerprint_of::<T>(),
    {
        let size = std::mem::size_of::<T>();
        let hash = hash_name(T::canonical_name());
        Fingerprint { hash, size }
    }
}

} // verus!
