use core::hash::Hash;
use core::hash::Hasher;
use std::any::TypeId;
use type_store::token::TypeIdHasher;

#[test]
fn token_is_its_own_hash() {
    let mut hasher = TypeIdHasher::new();
    hasher.write_u64(0x1234_5678_9abc_def0);
    assert_eq!(hasher.finish(), 0x1234_5678_9abc_def0);
}

#[test]
fn fresh_session_reports_zero() {
    let hasher = TypeIdHasher::new();
    assert_eq!(hasher.finish(), 0);
}

#[test]
fn hasher_works_through_the_std_trait() {
    let mut hasher = TypeIdHasher::new();
    core::hash::Hasher::write_u64(&mut hasher, 42);
    assert_eq!(core::hash::Hasher::finish(&hasher), 42);
}

#[test]
fn same_type_hashes_to_the_same_token() {
    let mut first = TypeIdHasher::new();
    TypeId::of::<u32>().hash(&mut first);
    let mut second = TypeIdHasher::new();
    TypeId::of::<u32>().hash(&mut second);
    assert_eq!(first.finish(), second.finish());

    let mut other = TypeIdHasher::new();
    TypeId::of::<u64>().hash(&mut other);
    assert_ne!(first.finish(), other.finish());
}
