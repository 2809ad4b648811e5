use hospital_chain::access::{AccessList, AccessPermission};
use hospital_chain::common::Copyable;
use hospital_chain::identity::Identity;

fn who(n: u8) -> Identity {
    Identity::from_bytes(vec![n, 9]).unwrap()
}

#[test]
fn new_list_names_nobody() {
    let list = AccessList::new();
    assert_eq!(list.len(), 0);
    assert_eq!(list.get(&who(1)), None);
}

#[test]
fn insert_replaces_the_earlier_permission() {
    let mut list = AccessList::new();
    list.insert(who(1), AccessPermission::full());
    list.insert(who(2), AccessPermission::view_only());
    list.insert(who(1), AccessPermission::research());
    assert_eq!(list.len(), 2);
    assert_eq!(list.get(&who(1)), Some(AccessPermission::research()));
    assert_eq!(list.get(&who(2)), Some(AccessPermission::view_only()));
    assert!(list.entry(0).grantee.same(&who(1)));
    assert_eq!(list.entry(1).permission, AccessPermission::view_only());
}

#[test]
fn remove_takes_the_entry_away() {
    let mut list = AccessList::new();
    list.insert(who(1), AccessPermission::full());
    list.insert(who(2), AccessPermission::view_only());
    list.insert(who(3), AccessPermission::view_only());
    list.remove(&who(2));
    list.remove(&who(7));
    assert_eq!(list.len(), 2);
    assert_eq!(list.get(&who(2)), None);
    assert_eq!(list.get(&who(1)), Some(AccessPermission::full()));
    assert_eq!(list.get(&who(3)), Some(AccessPermission::view_only()));
}

#[test]
fn copy_of_a_list_is_independent() {
    let mut list = AccessList::new();
    list.insert(who(1), AccessPermission::full());
    let copy = list.duplicate();
    list.remove(&who(1));
    assert_eq!(copy.get(&who(1)), Some(AccessPermission::full()));
    assert_eq!(list.get(&who(1)), None);
}

#[test]
fn the_three_standard_permissions() {
    let full = AccessPermission::full();
    assert!(full.can_view && full.can_edit && full.can_share && !full.is_anonymized);
    assert_eq!(full.expiry, None);
    let view = AccessPermission::view_only();
    assert!(view.can_view && !view.can_edit && !view.can_share && !view.is_anonymized);
    assert_eq!(view.expiry, None);
    let pool = AccessPermission::research();
    assert!(pool.can_view && !pool.can_edit && !pool.can_share && pool.is_anonymized);
    assert_eq!(pool.expiry, None);
}

#[test]
fn list_keeps_one_entry_per_grantee() {
    let mut list = AccessList::new();
    for round in 0..3u64 {
        for n in 1..=4u8 {
            let p = AccessPermission { can_view: true, can_edit: n % 2 == 0, can_share: false, is_anonymized: false, expiry: Some(round) };
            list.insert(who(n), p);
        }
    }
    assert_eq!(list.len(), 4);
    for n in 1..=4u8 {
        assert_eq!(list.get(&who(n)).unwrap().expiry, Some(2));
        assert_eq!(list.get(&who(n)).unwrap().can_edit, n % 2 == 0);
    }
    list.remove(&who(1));
    list.remove(&who(4));
    assert_eq!(list.len(), 2);
    assert!(list.entry(0).grantee.same(&who(2)));
    assert!(list.entry(1).grantee.same(&who(3)));
}
