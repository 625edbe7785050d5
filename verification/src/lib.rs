//! A type-keyed store: a container holding at most one value of each
//! concrete type, addressed by the type itself rather than by a
//! programmer-chosen key.
//!
//! The store maps a 64-bit type-identity token (one per concrete type,
//! stable within a process run) to a type-erased owned value. Every
//! public operation computes the token for the caller's type `T`, looks
//! it up in the token map, and recovers the typed value by a checked
//! downcast. The token map itself is verified: the token-level
//! operations (`insert_slot`, `slot_at`, `slot_at_mut`, `take_slot`,
//! `has_slot`) carry exact contracts over the map, and each typed
//! operation is their composition with the two trusted steps — deriving
//! the token of a type, and the checked downcast of a found slot —
//! which no contract here can pin to the caller's type.

pub mod slot;
pub mod store;
pub mod token;

pub use store::TypeStore;
