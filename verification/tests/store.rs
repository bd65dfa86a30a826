use royalty_settlement::identity::PackageHash;
use royalty_settlement::store::{StoreKey, Table};
use royalty_settlement::token::{TokenIdentifier, TokenIndex};

#[test]
fn empty_store_holds_nothing() {
    let table: Table<u64, u8> = Table::new();
    assert_eq!(table.get(&0), None);
    assert!(!table.contains_key(&0));
}

#[test]
fn insert_puts_and_replaces() {
    let mut table: Table<u64, &str> = Table::new();
    table.insert(1, "one");
    table.insert(2, "two");
    assert_eq!(table.get(&1), Some(&"one"));
    assert_eq!(table.get(&2), Some(&"two"));
    assert_eq!(table.get(&3), None);
    table.insert(1, "uno");
    assert_eq!(table.get(&1), Some(&"uno"));
    assert_eq!(table.get(&2), Some(&"two"));
    assert!(table.contains_key(&1));
}

#[test]
fn remove_takes_one_key_away() {
    let mut table: Table<u64, u8> = Table::new();
    for key in 0..5u64 {
        table.insert(key, key as u8 * 10);
    }
    table.remove(&2);
    table.remove(&7);
    for key in 0..5u64 {
        let expected = if key == 2 { None } else { Some(key as u8 * 10) };
        assert_eq!(table.get(&key).copied(), expected);
    }
    table.remove(&0);
    table.remove(&4);
    assert_eq!(table.get(&0), None);
    assert_eq!(table.get(&4), None);
    assert_eq!(table.get(&1), Some(&10));
    assert_eq!(table.get(&3), Some(&30));
    table.insert(2, 99);
    assert_eq!(table.get(&2), Some(&99));
}

#[test]
fn keys_are_compared_by_what_they_stand_for() {
    let package = PackageHash::new([1; 32]);
    let first = TokenIdentifier { index: TokenIndex::Hash("a".to_string()), package };
    let same = TokenIdentifier { index: TokenIndex::Hash(String::from("a")), package };
    let other = TokenIdentifier { index: TokenIndex::Hash("b".to_string()), package };
    assert!(first.same_key(&same));
    assert!(!first.same_key(&other));
    assert!(package.same_key(&PackageHash::new([1; 32])));
    assert!(!package.same_key(&PackageHash::new([2; 32])));
    assert!(5u64.same_key(&5));
    assert!(!5u64.same_key(&6));
    let mut table: Table<TokenIdentifier, u8> = Table::new();
    table.insert(first, 1);
    table.insert(other, 2);
    assert_eq!(table.get(&same), Some(&1));
    table.insert(same, 3);
    let again = TokenIdentifier { index: TokenIndex::Hash("a".to_string()), package };
    assert_eq!(table.get(&again), Some(&3));
}
