use mxcclub::Config;
use mxcclub::Error;
use mxcclub::Event;
use mxcclub::Origin;
use mxcclub::Pallet;

fn registry(max: u32) -> Pallet {
    Pallet::new(Config { max_bytes_in_member_name: max })
}

#[test]
fn add_member_stores_record() {
    let mut p = registry(16);
    let r = p.add_member(Origin::Root, 0x01, b"Alice".to_vec());
    assert_eq!(r, Ok(()));
    assert!(p.is_member(0x01));
    let m = p.member(0x01).unwrap();
    assert_eq!(m.id, 0x01);
    assert_eq!(m.name, b"Alice".to_vec());
    assert_eq!(p.member_count(), 1);
    assert_eq!(p.events(), &vec![Event::MemberAdded { member: 0x01 }]);
}

#[test]
fn overwrite_keeps_last_name() {
    let mut p = registry(16);
    assert_eq!(p.add_member(Origin::Root, 1, b"Alice".to_vec()), Ok(()));
    assert_eq!(p.add_member(Origin::Root, 1, b"Alicia".to_vec()), Ok(()));
    assert_eq!(p.member(1).unwrap().name, b"Alicia".to_vec());
    assert_eq!(p.member_count(), 1);
    assert_eq!(
        p.events(),
        &vec![
            Event::MemberAdded { member: 1 },
            Event::MemberAdded { member: 1 },
        ]
    );
}

#[test]
fn remove_missing_member_fails() {
    let mut p = registry(16);
    assert_eq!(p.add_member(Origin::Root, 0x01, b"Alice".to_vec()), Ok(()));
    let r = p.remove_member(Origin::Root, 0x02);
    assert_eq!(r, Err(Error::MemberNotFound));
    assert_eq!(p.member_count(), 1);
    assert!(p.is_member(0x01));
    assert_eq!(p.member(0x01).unwrap().name, b"Alice".to_vec());
    assert_eq!(p.events(), &vec![Event::MemberAdded { member: 0x01 }]);
}

#[test]
fn remove_twice_fails_second_time() {
    let mut p = registry(16);
    assert_eq!(p.add_member(Origin::Root, 5, b"Eve".to_vec()), Ok(()));
    assert_eq!(p.remove_member(Origin::Root, 5), Ok(()));
    assert_eq!(p.remove_member(Origin::Root, 5), Err(Error::MemberNotFound));
    assert_eq!(p.member_count(), 0);
}

#[test]
fn add_remove_round_trip() {
    let mut p = registry(16);
    assert_eq!(p.add_member(Origin::Root, 7, b"Grace".to_vec()), Ok(()));
    assert_eq!(p.remove_member(Origin::Root, 7), Ok(()));
    assert!(!p.is_member(7));
    assert!(p.member(7).is_none());
    assert_eq!(p.member_count(), 0);
    assert_eq!(
        p.events(),
        &vec![
            Event::MemberAdded { member: 7 },
            Event::MemberRemoved { member: 7 },
        ]
    );
}

#[test]
fn name_over_bound_rejected() {
    let mut p = registry(16);
    let long = vec![b'x'; 17];
    assert_eq!(p.add_member(Origin::Root, 3, long), Err(Error::NameTooLong));
    assert!(!p.is_member(3));
    assert_eq!(p.member_count(), 0);
    assert!(p.events().is_empty());
}

#[test]
fn name_at_bound_accepted() {
    let mut p = registry(16);
    let exact = vec![b'x'; 16];
    assert_eq!(p.add_member(Origin::Root, 3, exact.clone()), Ok(()));
    assert_eq!(p.member(3).unwrap().name, exact);
}

#[test]
fn empty_name_accepted_even_with_zero_bound() {
    let mut p = registry(0);
    assert_eq!(p.add_member(Origin::Root, 1, Vec::new()), Ok(()));
    assert!(p.is_member(1));
    assert_eq!(p.add_member(Origin::Root, 2, b"a".to_vec()), Err(Error::NameTooLong));
    assert!(!p.is_member(2));
}

#[test]
fn non_root_add_rejected() {
    let mut p = registry(16);
    let r = p.add_member(Origin::Signed(9), 0x03, b"Bob".to_vec());
    assert_eq!(r, Err(Error::BadOrigin));
    assert!(!p.is_member(0x03));
    assert_eq!(p.member_count(), 0);
    assert!(p.events().is_empty());
}

#[test]
fn non_root_remove_rejected() {
    let mut p = registry(16);
    assert_eq!(p.add_member(Origin::Root, 4, b"Dan".to_vec()), Ok(()));
    assert_eq!(p.remove_member(Origin::Signed(4), 4), Err(Error::BadOrigin));
    assert_eq!(p.remove_member(Origin::Unsigned, 4), Err(Error::BadOrigin));
    assert!(p.is_member(4));
    assert_eq!(p.events(), &vec![Event::MemberAdded { member: 4 }]);
}

#[test]
fn unsigned_add_rejected() {
    let mut p = registry(16);
    assert_eq!(p.add_member(Origin::Unsigned, 8, b"Mallory".to_vec()), Err(Error::BadOrigin));
    assert_eq!(p.member_count(), 0);
    assert!(p.events().is_empty());
}

#[test]
fn failed_calls_emit_no_events() {
    let mut p = registry(4);
    assert_eq!(p.add_member(Origin::Signed(1), 1, b"a".to_vec()), Err(Error::BadOrigin));
    assert_eq!(p.add_member(Origin::Root, 1, b"abcde".to_vec()), Err(Error::NameTooLong));
    assert_eq!(p.remove_member(Origin::Root, 1), Err(Error::MemberNotFound));
    assert!(p.events().is_empty());
    assert_eq!(p.member_count(), 0);
}

#[test]
fn events_in_emission_order() {
    let mut p = registry(8);
    assert_eq!(p.add_member(Origin::Root, 1, b"one".to_vec()), Ok(()));
    assert_eq!(p.add_member(Origin::Root, 2, b"two".to_vec()), Ok(()));
    assert_eq!(p.remove_member(Origin::Root, 1), Ok(()));
    assert_eq!(p.add_member(Origin::Root, 1, b"uno".to_vec()), Ok(()));
    assert_eq!(
        p.events(),
        &vec![
            Event::MemberAdded { member: 1 },
            Event::MemberAdded { member: 2 },
            Event::MemberRemoved { member: 1 },
            Event::MemberAdded { member: 1 },
        ]
    );
    assert_eq!(p.member_count(), 2);
    assert_eq!(p.member(1).unwrap().name, b"uno".to_vec());
    assert_eq!(p.member(2).unwrap().name, b"two".to_vec());
}

#[test]
fn origin_is_root_check() {
    assert!(Origin::Root.is_root());
    assert!(!Origin::Signed(0).is_root());
    assert!(!Origin::Unsigned.is_root());
}

#[test]
fn new_registry_is_empty() {
    let p = registry(16);
    assert_eq!(p.member_count(), 0);
    assert!(p.events().is_empty());
    assert!(!p.is_member(0));
    assert!(p.member(0).is_none());
}
