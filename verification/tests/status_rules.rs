use bulletin_board::status::{
    can_transition, check_status_string, may_mutate, status_from_name, Status, WithStatus,
};

#[test]
fn status_names_are_read_exactly() {
    assert_eq!(status_from_name(&"Open".to_string()), Some(Status::Open));
    assert_eq!(status_from_name(&"Locked".to_string()), Some(Status::Locked));
    assert_eq!(status_from_name(&"Removed".to_string()), Some(Status::Removed));
    for name in ["", "open", "OPEN", " Open", "Open ", "Lock", "Removed!", "Empty", "NotFound"] {
        assert_eq!(status_from_name(&name.to_string()), None, "{:?}", name);
    }
}

#[test]
fn known_status_names_are_three() {
    assert!(check_status_string(&"Open".to_string()));
    assert!(check_status_string(&"Locked".to_string()));
    assert!(check_status_string(&"Removed".to_string()));
    assert!(!check_status_string(&"removed".to_string()));
    assert!(!check_status_string(&"NoPermission".to_string()));
    assert!(!check_status_string(&String::new()));
}

#[test]
fn a_status_name_wraps_the_entity() {
    assert_eq!(
        WithStatus::new_with_status_string(7u8, "Open".to_string()),
        WithStatus::Open(7u8)
    );
    assert_eq!(
        WithStatus::new_with_status_string(7u8, "Locked".to_string()),
        WithStatus::Locked(7u8)
    );
    assert_eq!(
        WithStatus::new_with_status_string(7u8, "Removed".to_string()),
        WithStatus::Removed(7u8)
    );
    assert_eq!(
        WithStatus::new_with_status_string(7u8, "Gone".to_string()),
        WithStatus::NoPermission
    );
    assert_eq!(
        WithStatus::new_with_status_string(7u8, String::new()),
        WithStatus::NoPermission
    );
}

#[test]
fn the_transition_table() {
    let table = [
        (Status::Open, Status::Open, true),
        (Status::Open, Status::Locked, true),
        (Status::Open, Status::Removed, true),
        (Status::Locked, Status::Open, false),
        (Status::Locked, Status::Locked, false),
        (Status::Locked, Status::Removed, true),
        (Status::Removed, Status::Open, false),
        (Status::Removed, Status::Locked, false),
        (Status::Removed, Status::Removed, false),
    ];
    for (current, requested, allowed) in table {
        assert_eq!(can_transition(current, requested), allowed, "{:?} to {:?}", current, requested);
    }
}

#[test]
fn no_transition_leads_backwards() {
    let order = [Status::Open, Status::Locked, Status::Removed];
    for (from, current) in order.iter().enumerate() {
        for (to, requested) in order.iter().enumerate() {
            if can_transition(*current, *requested) {
                assert!(from <= to);
            }
        }
    }
}

#[test]
fn only_the_creator_may_mutate() {
    let alice = "alice.near".to_string();
    let bob = "bob.near".to_string();
    for current in [Status::Open, Status::Locked, Status::Removed] {
        for requested in [Status::Open, Status::Locked, Status::Removed] {
            assert!(!may_mutate(&bob, &alice, current, requested));
            assert_eq!(
                may_mutate(&alice, &alice, current, requested),
                can_transition(current, requested)
            );
        }
    }
    assert!(may_mutate(&alice, &"alice.near".to_string(), Status::Open, Status::Locked));
    assert!(!may_mutate(&"Alice.near".to_string(), &alice, Status::Open, Status::Open));
    assert!(!may_mutate(&String::new(), &alice, Status::Open, Status::Open));
    assert!(may_mutate(&String::new(), &String::new(), Status::Locked, Status::Removed));
}

#[test]
fn what_an_entry_tells_of_itself() {
    let open = WithStatus::Open(1u8);
    let locked = WithStatus::Locked(2u8);
    let removed = WithStatus::Removed(3u8);
    let not_found: WithStatus<u8> = WithStatus::NotFound;
    let no_permission: WithStatus<u8> = WithStatus::NoPermission;
    assert_eq!(open.status(), Some(Status::Open));
    assert_eq!(locked.status(), Some(Status::Locked));
    assert_eq!(removed.status(), Some(Status::Removed));
    assert_eq!(not_found.status(), None);
    assert_eq!(no_permission.status(), None);
    assert!(open.is_entity() && locked.is_entity() && removed.is_entity());
    assert!(!not_found.is_entity() && !no_permission.is_entity());
    assert!(open.is_visible() && locked.is_visible());
    assert!(!removed.is_visible() && !not_found.is_visible() && !no_permission.is_visible());
    assert_eq!(open.get(), Some(&1));
    assert_eq!(locked.get(), Some(&2));
    assert_eq!(removed.get(), Some(&3));
    assert_eq!(not_found.get(), None);
    assert_eq!(no_permission.get(), None);
}

#[test]
fn wrapping_and_copying_keep_status_and_entity() {
    assert_eq!(WithStatus::with_status(Status::Open, 'a'), WithStatus::Open('a'));
    assert_eq!(WithStatus::with_status(Status::Locked, 'a'), WithStatus::Locked('a'));
    assert_eq!(WithStatus::with_status(Status::Removed, 'a'), WithStatus::Removed('a'));
    let entries = [
        WithStatus::Open("x".to_string()),
        WithStatus::Locked("y".to_string()),
        WithStatus::Removed("z".to_string()),
        WithStatus::NotFound,
        WithStatus::NoPermission,
    ];
    for entry in entries.iter() {
        assert_eq!(&entry.clone(), entry);
    }
}
