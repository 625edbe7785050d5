use type_store::token::type_token;
use type_store::TypeStore;

#[derive(Debug, Clone, PartialEq, Eq)]
struct PluginState {
    name: String,
    uses: u32,
}

#[test]
fn fresh_store_reports_absent() {
    let store = TypeStore::new();
    assert!(store.is_empty());
    assert!(!store.contains::<u32>());
    assert!(!store.contains::<String>());
    assert_eq!(store.get::<u32>(), None);
    assert_eq!(store.get::<String>(), None);
}

#[test]
fn fresh_store_removes_nothing() {
    let mut store = TypeStore::new();
    assert_eq!(store.remove::<u32>(), None);
    assert_eq!(store.get_mut::<u32>(), None);
    assert!(store.is_empty());
}

#[test]
fn default_store_is_empty() {
    let store = TypeStore::default();
    assert!(store.is_empty());
    assert!(!store.contains::<bool>());
}

#[test]
fn insert_then_get() {
    let mut store = TypeStore::new();
    store.insert(1u32);
    assert_eq!(store.get::<u32>(), Some(&1u32));
    assert!(store.contains::<u32>());
    assert!(!store.is_empty());
}

#[test]
fn insert_overwrites_previous_value() {
    let mut store = TypeStore::new();
    store.insert(1u32);
    store.insert(2u32);
    assert_eq!(store.get::<u32>(), Some(&2u32));
    // Exactly one slot for u32: taking it out leaves the store empty.
    assert_eq!(store.remove::<u32>(), Some(2u32));
    assert!(store.is_empty());
}

#[test]
fn remove_round_trip() {
    let mut store = TypeStore::new();
    store.insert(7u64);
    assert_eq!(store.remove::<u64>(), Some(7u64));
    assert_eq!(store.remove::<u64>(), None);
    assert_eq!(store.get::<u64>(), None);
    assert!(!store.contains::<u64>());
}

#[test]
fn distinct_types_do_not_interfere() {
    let mut store = TypeStore::new();
    store.insert(1u32);
    store.insert(String::from("hello"));
    assert_eq!(store.get::<u32>(), Some(&1u32));
    assert_eq!(store.get::<String>(), Some(&String::from("hello")));
    assert_eq!(store.remove::<u32>(), Some(1u32));
    assert_eq!(store.get::<String>(), Some(&String::from("hello")));
    assert_eq!(store.get::<u32>(), None);
    assert!(!store.is_empty());
}

#[test]
fn remove_of_absent_type_changes_nothing() {
    let mut store = TypeStore::new();
    store.insert(1u32);
    store.insert(String::from("hello"));
    assert_eq!(store.remove::<bool>(), None);
    assert_eq!(store.get::<u32>(), Some(&1u32));
    assert_eq!(store.get::<String>(), Some(&String::from("hello")));
    assert!(!store.is_empty());
}

#[test]
fn clear_empties_the_store() {
    let mut store = TypeStore::new();
    store.insert(1u32);
    store.insert(String::from("state"));
    store.insert(true);
    store.clear();
    assert!(store.is_empty());
    assert!(!store.contains::<u32>());
    assert!(!store.contains::<String>());
    assert!(!store.contains::<bool>());
    assert_eq!(store.get::<u32>(), None);
}

#[test]
fn mutation_through_get_mut_is_visible() {
    let mut store = TypeStore::new();
    store.insert(1u32);
    {
        let value = store.get_mut::<u32>().unwrap();
        *value = 5;
    }
    assert_eq!(store.get::<u32>(), Some(&5u32));
    assert_eq!(store.get_mut::<u64>(), None);
}

#[test]
fn scenario_walkthrough() {
    let mut store = TypeStore::new();
    store.insert(1u32);
    assert_eq!(store.get::<u32>(), Some(&1u32));
    store.insert("hello");
    assert_eq!(store.get::<&str>(), Some(&"hello"));
    assert_eq!(store.get::<u32>(), Some(&1u32));
    assert_eq!(store.get::<u64>(), None);
    store.insert(2u32);
    assert_eq!(store.get::<u32>(), Some(&2u32));
    assert_eq!(store.remove::<u32>(), Some(2u32));
    assert_eq!(store.get::<u32>(), None);
}

#[test]
fn stores_user_defined_types() {
    let mut store = TypeStore::new();
    store.insert(PluginState { name: String::from("logger"), uses: 0 });
    {
        let state = store.get_mut::<PluginState>().unwrap();
        state.uses += 1;
    }
    assert_eq!(
        store.get::<PluginState>(),
        Some(&PluginState { name: String::from("logger"), uses: 1 }),
    );
    assert_eq!(
        store.remove::<PluginState>(),
        Some(PluginState { name: String::from("logger"), uses: 1 }),
    );
    assert!(!store.contains::<PluginState>());
}

#[test]
fn stores_zero_sized_values() {
    let mut store = TypeStore::new();
    store.insert(());
    assert!(store.contains::<()>());
    assert_eq!(store.get::<()>(), Some(&()));
    assert_eq!(store.remove::<()>(), Some(()));
    assert!(store.is_empty());
}

#[test]
fn token_level_round_trip() {
    let mut store = TypeStore::new();
    let token: u64 = type_token::<u32>();
    assert!(!store.has_slot(token));
    store.insert(1u32);
    assert!(store.has_slot(token));
    assert!(store.slot_at(token).is_some());
    let slot = store.take_slot(token).unwrap();
    assert!(store.is_empty());
    assert!(!store.contains::<u32>());
    store.insert_slot(token, slot);
    assert_eq!(store.get::<u32>(), Some(&1u32));
}

#[test]
fn token_lookups_match_typed_lookups() {
    let mut store = TypeStore::new();
    store.insert(3u32);
    let own_token: u64 = type_token::<u32>();
    let other_token: u64 = type_token::<u64>();
    assert!(store.slot_at_mut(own_token).is_some());
    assert!(store.slot_at_mut(other_token).is_none());
    assert!(store.slot_at(other_token).is_none());
    assert!(store.take_slot(other_token).is_none());
    assert_eq!(store.get::<u32>(), Some(&3u32));
}

#[test]
fn reinsert_after_clear() {
    let mut store = TypeStore::new();
    store.insert(10i64);
    store.clear();
    store.insert(11i64);
    assert_eq!(store.get::<i64>(), Some(&11i64));
    assert!(!store.is_empty());
}
