use realty::errors::AppError;
use realty::owner::{Owner, OwnerStore};

fn sample_owner(id: u128, name: &str) -> Owner {
    Owner {
        owner_id: id,
        owner_name: name.to_string(),
        address: "1 Main Street".to_string(),
        email: "owner@example.com".to_string(),
    }
}

#[test]
fn add_list_and_get_by_id() {
    let mut store = OwnerStore::new();
    store.add(sample_owner(1, "First Owner")).unwrap();
    store.add(sample_owner(2, "Second Owner")).unwrap();

    let all = store.list();
    assert_eq!(all.len(), 2);
    assert_eq!(all[0].owner_name, "First Owner");
    assert_eq!(all[1].owner_name, "Second Owner");

    let one = store.get_by_id(2).expect("row should exist");
    assert_eq!(one.owner_name, "Second Owner");
    assert!(store.get_by_id(3).is_none());
}

#[test]
fn adding_a_duplicate_identifier_fails_and_changes_nothing() {
    let mut store = OwnerStore::new();
    store.add(sample_owner(1, "First Owner")).unwrap();
    let r = store.add(sample_owner(1, "Copycat"));
    assert_eq!(r.unwrap_err(), AppError::Internal);
    assert_eq!(store.owners.len(), 1);
    assert_eq!(store.owners[0].owner_name, "First Owner");
}
