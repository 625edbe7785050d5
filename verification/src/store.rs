//! The type store: a mapping from type-identity token to a type-erased
//! owned value slot, keys unique, at most one slot per concrete type.
//!
//! The store's abstract state is the token map `Map<u64, Slot>`. The
//! contracts below pin the store's behaviour at that level: which tokens
//! hold a slot, and which slot value each token holds. What a slot
//! contains for a given type rests on the trusted items of [`crate::slot`]
//! and [`crate::token`], since type identity and checked downcasts lie
//! outside the verifier's logic.

use std::collections::HashMap;
use std::collections::hash_map::Entry;
use vstd::prelude::*;

use crate::slot::{erase, peek, peek_mut, reclaim, Slot};
use crate::token::type_token;

verus! {

broadcast use vstd::std_specs::hash::group_hash_axioms;

/// A container holding at most one value of each concrete type,
/// addressed by the type itself. Internally a map from the 64-bit
/// type-identity token of a type to the type-erased slot holding the
/// stored value of that type.
pub struct TypeStore {
    map: HashMap<u64, Slot>,
}

impl View for TypeStore {
    type V = Map<u64, Slot>;

    closed spec fn view(&self) -> Map<u64, Slot> {
        self.map@
    }
}

impl TypeStore {
    /// Creates an empty store: no token holds a slot.
    pub fn new() -> (store: TypeStore)
        ensures
            store@ == Map::<u64, Slot>::empty(),
            store@.is_empty(),
    {
        let store = TypeStore { map: HashMap::new() };
        proof {
            assert(store@.dom() =~= Set::<u64>::empty());
        }
        store
    }

    /// Writes a slot for a token, replacing (and dropping) whatever the
    /// token held: the store afterwards is exactly the old store with
    /// this one binding written.
    pub fn insert_slot(&mut self, token: u64, slot: Slot)
        ensures
            final(self)@ == old(self)@.insert(token, slot),
    {
        self.map.insert(token, slot);
    }

    /// Borrows the slot stored for a token: the answer is present
    /// exactly when the token holds a slot, and it is that slot.
    pub fn slot_at(&self, token: u64) -> (r: Option<&Slot>)
        ensures
            r matches Some(slot) ==> self@.contains_key(token) && *slot == self@[token],
            r is None ==> !self@.contains_key(token),
    {
        self.map.get(&token)
    }

    /// Exclusively borrows the slot stored for a token: the answer is
    /// present exactly when the token holds a slot, it starts as that
    /// slot, and the store afterwards holds for the token whatever the
    /// caller leaves in the borrow, every other binding untouched. On an
    /// absent token the store is left exactly as it was.
    pub fn slot_at_mut(&mut self, token: u64) -> (r: Option<&mut Slot>)
        ensures
            old(self)@.contains_key(token) ==> (r matches Some(slot) && *slot == old(self)@[token]
                && final(self)@ == old(self)@.insert(token, *final(slot))),
            !old(self)@.contains_key(token) ==> r is None && final(self)@ == old(self)@,
    {
        match self.map.entry(token) {
            Entry::Occupied(entry) => Some(entry.into_mut()),
            Entry::Vacant(_) => {
                proof {
                    assert(old(self)@.remove(token) =~= old(self)@);
                }
                None
            },
        }
    }

    /// Takes the slot stored for a token out of the store: a present
    /// token yields exactly its slot and loses its binding, an absent
    /// token yields nothing and the store is left exactly as it was.
    pub fn take_slot(&mut self, token: u64) -> (r: Option<Slot>)
        ensures
            old(self)@.contains_key(token) ==> r == Some(old(self)@[token]) && final(self)@
                == old(self)@.remove(token),
            !old(self)@.contains_key(token) ==> r is None && final(self)@ == old(self)@,
    {
        let r = self.map.remove(&token);
        proof {
            if !old(self)@.contains_key(token) {
                assert(self@ =~= old(self)@);
            }
        }
        r
    }

    /// Reports whether a token holds a slot.
    pub fn has_slot(&self, token: u64) -> (r: bool)
        ensures
            r == self@.contains_key(token),
    {
        self.map.contains_key(&token)
    }

    /// Stores a value of type `T`, replacing (and dropping) the value
    /// previously stored for `T`, if any: exactly `T`'s token's slot is
    /// written, and every other binding is left as it was. Which token
    /// is written — `type_token::<T>()` — is not denotable in the
    /// contract, so the binding is existentially quantified here; the
    /// exact statement is `insert_slot`'s, one call down.
    pub fn insert<T: 'static>(&mut self, val: T)
        ensures
            exists|t: u64, s: Slot| final(self)@ == old(self)@.insert(t, s),
            forall|t: u64| old(self)@.contains_key(t) ==> final(self)@.contains_key(t),
            !final(self)@.is_empty(),
            old(self)@.len() <= final(self)@.len() <= old(self)@.len() + 1,
    {
        let token = type_token::<T>();
        self.insert_slot(token, erase(val));
        proof {
            assert(self@.dom().contains(token));
            if old(self)@.contains_key(token) {
                assert(self@.dom() =~= old(self)@.dom());
            } else {
                assert(self@.dom() =~= old(self)@.dom().insert(token));
                vstd::set::axiom_set_insert_len(old(self)@.dom(), token);
            }
        }
    }

    /// Borrows the value stored for `T`, or reports absence. The store
    /// is not changed; on an empty store the answer is always absent.
    /// That the answer is present exactly when `T`'s token holds a slot
    /// is `slot_at`'s contract, one call down; the downcast of the found
    /// slot is the trusted step.
    pub fn get<T: 'static>(&self) -> (r: Option<&T>)
        ensures
            r is Some ==> exists|t: u64| self@.contains_key(t),
            self@.is_empty() ==> r is None,
    {
        let token = type_token::<T>();
        match self.slot_at(token) {
            Some(slot) => peek::<T>(slot),
            None => None,
        }
    }

    /// Exclusively borrows the value stored for `T`, or reports
    /// absence. Mutation through the reference is observed by later
    /// reads. Which tokens hold a slot is unchanged: at most the slot
    /// already present for one token is written through, and when
    /// absence is reported, the store is left exactly as it was.
    pub fn get_mut<T: 'static>(&mut self) -> (r: Option<&mut T>)
        ensures
            forall|t: u64| final(self)@.contains_key(t) == old(self)@.contains_key(t),
            (exists|t: u64, s: Slot| final(self)@ == old(self)@.insert(t, s)) || final(self)@
                == old(self)@,
            r is Some ==> exists|t: u64| old(self)@.contains_key(t),
            r is None ==> final(self)@ == old(self)@,
            old(self)@.is_empty() ==> r is None,
    {
        let token = type_token::<T>();
        match self.slot_at_mut(token) {
            Some(slot) => {
                proof {
                    assert(old(self)@.contains_key(token));
                    assert(old(self)@.insert(token, old(self)@[token]) =~= old(self)@);
                }
                peek_mut::<T>(slot)
            },
            None => None,
        }
    }

    /// Removes the slot for `T` and yields the stored value by itself,
    /// or reports absence. On success exactly one token's binding is
    /// dropped and no other binding is touched; when absence is
    /// reported, the store is left exactly as it was. That exactly `T`'s
    /// token's slot is taken is `take_slot`'s contract, one call down.
    pub fn remove<T: 'static>(&mut self) -> (r: Option<T>)
        ensures
            r is Some ==> exists|t: u64|
                old(self)@.contains_key(t) && final(self)@ == old(self)@.remove(t),
            r is Some ==> old(self)@.len() >= 1 && final(self)@.len() == old(self)@.len() - 1,
            r is None ==> final(self)@ == old(self)@,
            forall|t: u64|
                final(self)@.contains_key(t) ==> old(self)@.contains_key(t)
                    && final(self)@[t] == old(self)@[t],
            final(self)@.len() <= old(self)@.len(),
            old(self)@.is_empty() ==> r is None,
    {
        let token = type_token::<T>();
        match self.take_slot(token) {
            Some(slot) => {
                proof {
                    assert(self@.dom() =~= old(self)@.dom().remove(token));
                    vstd::set::axiom_set_remove_len(old(self)@.dom(), token);
                }
                match reclaim::<T>(slot) {
                    Ok(value) => Some(value),
                    Err(slot) => {
                        // The slot found at T's token was not of type T:
                        // put it back untouched and report absence.
                        self.insert_slot(token, slot);
                        proof {
                            assert(self@ =~= old(self)@);
                        }
                        None
                    },
                }
            },
            None => None,
        }
    }

    /// Reports whether a slot for `T` currently exists. No side effect;
    /// on an empty store the answer is always false. That the answer
    /// equals membership of `T`'s token is `has_slot`'s contract, one
    /// call down.
    pub fn contains<T: 'static>(&self) -> (r: bool)
        ensures
            r ==> exists|t: u64| self@.contains_key(t),
            self@.is_empty() ==> !r,
    {
        let token = type_token::<T>();
        self.has_slot(token)
    }

    /// Removes and drops every slot of every type: the store becomes
    /// empty, exactly as a freshly created one.
    pub fn clear(&mut self)
        ensures
            final(self)@ == Map::<u64, Slot>::empty(),
            final(self)@.is_empty(),
    {
        self.map.clear();
        proof {
            assert(self@.dom() =~= Set::<u64>::empty());
        }
    }

    /// Reports whether the store holds zero slots.
    pub fn is_empty(&self) -> (r: bool)
        ensures
            r == self@.is_empty(),
    {
        self.map.is_empty()
    }
}

/// An empty store — fresh from `new`, or just cleared — holds no entry:
/// no token has a slot, so every membership query on it is false and
/// every lookup is absent.
pub proof fn lemma_empty_store_holds_nothing(store_view: Map<u64, Slot>)
    requires
        store_view.is_empty(),
    ensures
        forall|t: u64| !store_view.contains_key(t),
        store_view.len() == 0,
{
    assert(store_view.dom() =~= Set::<u64>::empty());
}

/// After a slot is stored for a token, that token holds exactly that
/// slot and the store is no longer empty.
pub proof fn lemma_insert_stores_the_slot(m: Map<u64, Slot>, t: u64, s: Slot)
    ensures
        m.insert(t, s).contains_key(t),
        m.insert(t, s)[t] == s,
        !m.insert(t, s).is_empty(),
{
}

/// Storing twice for the same token leaves exactly the slot of the
/// second write: the second insert fully replaces the first, and no
/// second binding for the token appears.
pub proof fn lemma_insert_overwrites(m: Map<u64, Slot>, t: u64, first: Slot, second: Slot)
    ensures
        m.insert(t, first).insert(t, second) == m.insert(t, second),
        m.insert(t, first).insert(t, second)[t] == second,
        m.insert(t, first).insert(t, second).len() == m.insert(t, second).len(),
{
    assert(m.insert(t, first).insert(t, second) =~= m.insert(t, second));
}

/// Removing a token's slot right after inserting it restores every
/// binding the store had before, when the token held nothing earlier;
/// afterwards the token holds nothing, so removing it again changes
/// nothing.
pub proof fn lemma_insert_then_remove(m: Map<u64, Slot>, t: u64, s: Slot)
    ensures
        m.insert(t, s)[t] == s,
        !m.contains_key(t) ==> m.insert(t, s).remove(t) == m,
        !m.insert(t, s).remove(t).contains_key(t),
        m.insert(t, s).remove(t).remove(t) == m.insert(t, s).remove(t),
{
    if !m.contains_key(t) {
        assert(m.insert(t, s).remove(t) =~= m);
    }
    assert(m.insert(t, s).remove(t).remove(t) =~= m.insert(t, s).remove(t));
}

/// Removing a token that holds no slot changes nothing: absence is an
/// ordinary answer, not an error, and the store is left as it was — in
/// particular right after the same token was already removed.
pub proof fn lemma_remove_absent_changes_nothing(m: Map<u64, Slot>, t: u64)
    requires
        !m.contains_key(t),
    ensures
        m.remove(t) == m,
{
    assert(m.remove(t) =~= m);
}

/// Distinct tokens are isolated: writing or removing one token's slot
/// neither adds, drops, nor alters the slot of any other token.
pub proof fn lemma_tokens_are_isolated(m: Map<u64, Slot>, t: u64, s: Slot, u: u64)
    requires
        u != t,
    ensures
        m.insert(t, s).contains_key(u) == m.contains_key(u),
        m.contains_key(u) ==> m.insert(t, s)[u] == m[u],
        m.remove(t).contains_key(u) == m.contains_key(u),
        m.contains_key(u) ==> m.remove(t)[u] == m[u],
{
}

impl Default for TypeStore {
    /// An empty store, the same as `TypeStore::new()`.
    fn default() -> (store: TypeStore)
        ensures
            store@ == Map::<u64, Slot>::empty(),
    {
        TypeStore::new()
    }
}

} // verus!
