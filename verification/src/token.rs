//! Type-identity tokens and the hash state specialized to them.
//!
//! A token is a 64-bit value that identifies one concrete type within a
//! process run: the same type always yields the same token. It is the
//! 64-bit truncation of std's wider type identifier, so distinctness of
//! the tokens of distinct types is what the store relies on, not a
//! guarantee. Tokens are effectively random and uniformly distributed,
//! so the hash state below keeps a token unchanged instead of mixing
//! its bits again.

use vstd::prelude::*;

verus! {

/// Hash state tuned to type-identity tokens: it accepts exactly one
/// 64-bit write per session and `finish` returns that value unchanged.
/// Its own methods offer no way to feed in arbitrary bytes, and the
/// byte entry required by the std hasher trait fails loudly, so it
/// cannot silently be misused as a general-purpose hasher.
pub struct TypeIdHasher {
    state: u64,
}

impl TypeIdHasher {
    /// The value the session will report.
    pub closed spec fn spec_state(&self) -> u64 {
        self.state
    }

    /// Begins a hashing session with no token written yet.
    pub fn new() -> (h: TypeIdHasher)
        ensures
            h.spec_state() == 0,
    {
        TypeIdHasher { state: 0 }
    }

    /// Records the single 64-bit token of the session, unchanged.
    pub fn write_u64(&mut self, i: u64)
        ensures
            final(self).spec_state() == i,
    {
        self.state = i;
    }

    /// Reports the token exactly as it was written: the token is its
    /// own hash.
    pub fn finish(&self) -> (r: u64)
        ensures
            r == self.spec_state(),
    {
        self.state
    }
}

impl core::hash::Hasher for TypeIdHasher {
    /// Relies on `Option::expect`: it panics when no value is present.
    /// Feeding raw bytes to a type-identity hasher means the internal
    /// invariant (keys are single 64-bit tokens) was broken, and that
    /// fails loudly rather than degrading into a poor hash.
    #[verifier::external_body]
    fn write(&mut self, _bytes: &[u8]) {
        let no_byte_input: Option<u64> = None;
        self.state = no_byte_input.expect(
            "a type-identity hasher accepts a single 64-bit token, not raw bytes",
        );
    }

    fn write_u64(&mut self, i: u64)
        ensures
            final(self).spec_state() == i,
    {
        TypeIdHasher::write_u64(self, i);
    }

    fn finish(&self) -> (r: u64)
        ensures
            r == self.spec_state(),
    {
        TypeIdHasher::finish(self)
    }
}

/// The runtime type identifier of std, declared so that it can pass
/// through signatures. It stays opaque: nothing is claimed of what a
/// `TypeId` value holds.
#[verifier::external_type_specification]
#[verifier::external_body]
pub struct ExTypeId(core::any::TypeId);

/// Relies on `std::any::TypeId::of`: a globally unique identifier of
/// the concrete type `T`, stable within one process run.
#[verifier::external_body]
pub(crate) fn type_id_of<T: 'static>() -> core::any::TypeId {
    std::any::TypeId::of::<T>()
}

/// Relies on `TypeId`'s `Hash` impl: it hands the hasher the type
/// identifier as a single 64-bit write (std truncates the wider
/// identifier to 64 bits there). Which value is written is not stated:
/// it varies between compiler releases.
#[verifier::external_body]
pub(crate) fn hash_type_id(id: &core::any::TypeId, session: &mut TypeIdHasher) {
    core::hash::Hash::hash(id, session);
}

/// Computes the 64-bit identity token of `T`: a fresh hashing session
/// is handed `T`'s type identifier and reports the single 64-bit value
/// written for it. Within one process run the same type always yields
/// the same token; the store relies on the truncated 64-bit tokens of
/// distinct types not colliding, which the identifiers' distribution
/// makes overwhelmingly likely but nothing guarantees. No contract can
/// pin the value: it is a per-run constant of `T` that the verifier has
/// no name for.
pub fn type_token<T: 'static>() -> u64 {
    let id = type_id_of::<T>();
    let mut session = TypeIdHasher::new();
    hash_type_id(&id, &mut session);
    session.finish()
}

} // verus!
