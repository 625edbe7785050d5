//! The type-erased value slot: one owned value of a concrete type that
//! is not known where the slot is handled, together with enough runtime
//! information to check a requested downcast.
//!
//! A slot is opaque to the verifier: what can be said of the store is
//! said over which tokens hold a slot and which slot value each token
//! holds, never over the contents of a slot.

use std::any::Any;
use vstd::prelude::*;

verus! {

/// One type-erased owned value. The slot exclusively owns the value,
/// keeps its runtime type, and drops the value when the slot itself is
/// dropped or overwritten. `Box<dyn Any>` cannot be declared to the
/// verifier, so the slot hides it whole.
#[verifier::external_body]
pub struct Slot {
    inner: Box<dyn Any>,
}

/// Relies on `Box::new` and the unsizing coercion to `Box<dyn Any>`:
/// wraps an owned value, keeping its runtime type for later checked
/// downcasts.
#[verifier::external_body]
pub(crate) fn erase<T: 'static>(value: T) -> Slot {
    Slot { inner: Box::new(value) }
}

/// Relies on `Box::<dyn Any>::downcast`: returns the owned value when
/// the slot's runtime type is `T`, and otherwise hands the slot back
/// unchanged (the call returns the original box in its failure case).
#[verifier::external_body]
pub(crate) fn reclaim<T: 'static>(slot: Slot) -> (r: Result<T, Slot>)
    ensures
        r matches Err(returned) ==> returned == slot,
{
    match slot.inner.downcast::<T>() {
        Ok(boxed) => Ok(*boxed),
        Err(inner) => Err(Slot { inner }),
    }
}

/// Relies on `<dyn Any>::downcast_ref`: returns a reference to the
/// stored value when the slot's runtime type is `T`, and nothing
/// otherwise.
#[verifier::external_body]
pub(crate) fn peek<T: 'static>(slot: &Slot) -> Option<&T> {
    slot.inner.downcast_ref::<T>()
}

/// Relies on `<dyn Any>::downcast_mut`: returns an exclusive reference
/// to the stored value when the slot's runtime type is `T`, and nothing
/// otherwise; when it returns nothing, the slot has not been touched.
#[verifier::external_body]
pub(crate) fn peek_mut<T: 'static>(slot: &mut Slot) -> (r: Option<&mut T>)
    ensures
        r is None ==> *final(slot) == *old(slot),
{
    slot.inner.downcast_mut::<T>()
}

} // verus!
