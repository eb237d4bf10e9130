use mac_touchpad_core::contacts::manager::{
    contacts_ids_common, remove_duplicates, ContactResult, ContactsManager,
};
use mac_touchpad_core::hid::types::TouchpadContact;

fn ids(list: &[TouchpadContact]) -> Vec<i32> {
    list.iter().map(|c| c.contact_id).collect()
}

#[test]
fn test_contacts_manager_regular() {
    let mut mgr = ContactsManager::new();
    let c1 = TouchpadContact::new(1, 100, 200);
    let c2 = TouchpadContact::new(2, 300, 400);
    let res = mgr.receive(vec![c1, c2], 2);
    match res {
        ContactResult::Complete(list) => assert_eq!(list.len(), 2),
        _ => panic!("Expected Complete"),
    }
}

#[test]
fn test_contacts_manager_partial_reassembly() {
    let mut mgr = ContactsManager::new();
    let c1 = TouchpadContact::new(1, 100, 200);
    let c2 = TouchpadContact::new(2, 300, 400);
    let c3 = TouchpadContact::new(3, 500, 600);

    let res1 = mgr.receive(vec![c1], 3);
    assert!(matches!(res1, ContactResult::Pending));

    let res2 = mgr.receive(vec![c2], 0);
    assert!(matches!(res2, ContactResult::Pending));

    let res3 = mgr.receive(vec![c3], 0);
    match res3 {
        ContactResult::Complete(list) => {
            assert_eq!(list.len(), 3);
            assert_eq!(list[0].contact_id, 1);
            assert_eq!(list[1].contact_id, 2);
            assert_eq!(list[2].contact_id, 3);
        }
        _ => panic!("Expected Complete on 3rd report"),
    }
}

#[test]
fn empty_report_completes_and_resets() {
    let mut mgr = ContactsManager::new();
    assert!(matches!(mgr.receive(vec![TouchpadContact::new(1, 0, 0)], 2), ContactResult::Pending));
    match mgr.receive(vec![], 0) {
        ContactResult::Complete(list) => assert!(list.is_empty()),
        _ => panic!("an empty report is a complete (empty) frame"),
    }
    // The pending partial frame was dropped: a continuation no longer completes it.
    assert!(matches!(mgr.receive(vec![TouchpadContact::new(2, 0, 0)], 0), ContactResult::Pending));
}

#[test]
fn oversized_report_is_clamped_to_count() {
    let mut mgr = ContactsManager::new();
    let list = vec![
        TouchpadContact::new(1, 0, 0),
        TouchpadContact::new(2, 0, 0),
        TouchpadContact::new(3, 0, 0),
    ];
    match mgr.receive(list, 2) {
        ContactResult::Complete(list) => assert_eq!(ids(&list), vec![1, 2]),
        _ => panic!("expected a clamped frame"),
    }
}

#[test]
fn continuation_without_start_stays_pending() {
    let mut mgr = ContactsManager::new();
    assert!(matches!(mgr.receive(vec![TouchpadContact::new(5, 1, 1)], 0), ContactResult::Pending));
    assert!(matches!(mgr.receive(vec![TouchpadContact::new(6, 1, 1)], 0), ContactResult::Pending));
}

#[test]
fn continuation_duplicates_are_dropped() {
    let mut mgr = ContactsManager::new();
    assert!(matches!(
        mgr.receive(vec![TouchpadContact::new(1, 10, 10)], 2),
        ContactResult::Pending
    ));
    // Same id again: still one distinct contact.
    assert!(matches!(
        mgr.receive(vec![TouchpadContact::new(1, 11, 11)], 0),
        ContactResult::Pending
    ));
    match mgr.receive(vec![TouchpadContact::new(2, 20, 20), TouchpadContact::new(3, 30, 30)], 0) {
        ContactResult::Complete(list) => {
            assert_eq!(ids(&list), vec![1, 2]);
            assert_eq!((list[0].x, list[0].y), (10, 10));
        }
        _ => panic!("expected completion with the first two distinct ids"),
    }
}

#[test]
fn new_partial_report_replaces_unfinished_one() {
    let mut mgr = ContactsManager::new();
    assert!(matches!(mgr.receive(vec![TouchpadContact::new(1, 0, 0)], 3), ContactResult::Pending));
    assert!(matches!(mgr.receive(vec![TouchpadContact::new(7, 0, 0)], 2), ContactResult::Pending));
    match mgr.receive(vec![TouchpadContact::new(8, 0, 0)], 0) {
        ContactResult::Complete(list) => assert_eq!(ids(&list), vec![7, 8]),
        _ => panic!("expected the second partial frame to complete"),
    }
}

#[test]
fn remove_duplicates_keeps_first_of_each_id() {
    let mut v = vec![
        TouchpadContact::new(2, 1, 1),
        TouchpadContact::new(1, 2, 2),
        TouchpadContact::new(2, 3, 3),
        TouchpadContact::new(1, 4, 4),
        TouchpadContact::new(3, 5, 5),
    ];
    remove_duplicates(&mut v);
    assert_eq!(ids(&v), vec![2, 1, 3]);
    assert_eq!(v[0].x, 1);
    assert_eq!(v[1].x, 2);
    let mut empty: Vec<TouchpadContact> = vec![];
    remove_duplicates(&mut empty);
    assert!(empty.is_empty());
}

#[test]
fn common_ids_ignore_order_and_position() {
    let a = [TouchpadContact::new(1, 0, 0), TouchpadContact::new(2, 5, 5)];
    let b = [TouchpadContact::new(2, 9, 9), TouchpadContact::new(1, 7, 7)];
    assert!(contacts_ids_common(&a, &b));
    assert!(!contacts_ids_common(&a, &b[..1]));
    let c = [TouchpadContact::new(2, 0, 0), TouchpadContact::new(3, 0, 0)];
    assert!(!contacts_ids_common(&a, &c));
    assert!(contacts_ids_common(&[], &[]));
}

#[test]
fn reassembly_across_many_continuation_reports() {
    let mut mgr = ContactsManager::new();
    let c = |id: i32| TouchpadContact::new(id, id * 10, id * 10);
    assert!(matches!(mgr.receive(vec![c(1)], 4), ContactResult::Pending));
    assert!(matches!(mgr.receive(vec![c(2), c(1)], 0), ContactResult::Pending));
    assert!(matches!(mgr.receive(vec![c(2)], 0), ContactResult::Pending));
    // Arrival order, first contact of each id, cut to the announced count.
    match mgr.receive(vec![c(3), c(3), c(4), c(5)], 0) {
        ContactResult::Complete(list) => {
            assert_eq!(ids(&list), vec![1, 2, 3, 4]);
            assert_eq!(list[0], c(1));
        }
        _ => panic!("expected a complete frame"),
    }
    // The completed frame reset the manager.
    assert!(matches!(mgr.receive(vec![c(6)], 0), ContactResult::Pending));
}
