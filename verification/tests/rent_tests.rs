use realty::errors::AppError;
use realty::models::TxnStatus;
use realty::rent::{total_rent_payment, RentStore};

const OWNER: &str = "67e55044-10b1-426f-9247-bb680e5fe0c8";

fn store_with_property(monthly_rent: i64) -> (RentStore, u128) {
    let mut store = RentStore::new();
    let p = store
        .create(
            &OWNER.to_string(),
            "Hillside House".to_string(),
            "Two floors".to_string(),
            "5 Hill Road".to_string(),
            120,
            90,
            3,
            2,
            monthly_rent,
            "http://localhost/rent-pictures/hillside.png".to_string(),
        )
        .expect("create should succeed");
    (store, p.rent_property_id)
}

#[test]
fn ninety_days_at_1000_costs_3000() {
    let (mut store, pid) = store_with_property(1_000);
    let t = store.book(55, pid, 0, 90, 0).expect("booking should succeed");
    assert_eq!(t.total_payment, Some(3_000));
    assert_eq!(t.status, TxnStatus::Unpaid);
    assert_eq!(t.user_id, 55);
    assert_eq!(t.start_date, 0);
    assert_eq!(t.end_date, Some(90));
}

#[test]
fn forty_five_days_at_1000_costs_1000() {
    let (mut store, pid) = store_with_property(1_000);
    let t = store.book(55, pid, 0, 45, 0).expect("booking should succeed");
    // The partial month is dropped by the floor division.
    assert_eq!(t.total_payment, Some(1_000));
}

#[test]
fn total_rent_truncates_toward_zero() {
    assert_eq!(total_rent_payment(1_000, 10, 100), Some(3_000));
    assert_eq!(total_rent_payment(1_000, 0, 29), Some(0));
    // A reversed range gives a negative figure, not an error.
    assert_eq!(total_rent_payment(1_000, 45, 0), Some(-1_000));
}

#[test]
fn booked_property_is_hidden_until_the_booking_expires() {
    let (mut store, pid) = store_with_property(1_000);
    store.book(55, pid, 10, 100, 10).expect("booking should succeed");

    // While the booking is open the listing is gone from both reads.
    let listed = store.list_available(10);
    assert!(listed.iter().all(|p| p.rent_property_id != pid));
    assert_eq!(store.get_by_id(pid, 10).unwrap_err(), AppError::NotFound);

    // Once the end date has passed the listing is admitted back.
    let later = store.list_available(100);
    assert!(later.iter().any(|p| p.rent_property_id == pid));
    assert!(store.get_by_id(pid, 100).is_ok());
}

#[test]
fn rent_booking_an_unknown_property_is_not_found() {
    let mut store = RentStore::new();
    assert_eq!(store.book(55, 1, 0, 90, 0).unwrap_err(), AppError::NotFound);
}

#[test]
fn booking_a_claimed_property_is_not_found() {
    let (mut store, pid) = store_with_property(1_000);
    store.book(55, pid, 0, 90, 0).expect("first booking should succeed");
    assert_eq!(store.book(56, pid, 0, 90, 0).unwrap_err(), AppError::NotFound);
}

#[test]
fn rent_owner_can_pay_and_the_row_flips_to_paid() {
    let (mut store, pid) = store_with_property(1_000);
    let t = store.book(55, pid, 0, 90, 0).unwrap();
    let paid = store.pay(55, t.rent_transaction_id).expect("payment should succeed");
    assert_eq!(paid.status, TxnStatus::Paid);
    assert_eq!(paid.rent_transaction_id, t.rent_transaction_id);
    assert_eq!(store.transactions[0].status, TxnStatus::Paid);
}

#[test]
fn rent_pay_by_a_non_owner_is_forbidden_and_changes_nothing() {
    let (mut store, pid) = store_with_property(1_000);
    let t = store.book(55, pid, 0, 90, 0).unwrap();
    let r = store.pay(99, t.rent_transaction_id);
    assert_eq!(r.unwrap_err(), AppError::Forbidden);
    assert_eq!(store.transactions[0].status, TxnStatus::Unpaid);
    assert_eq!(store.transactions.len(), 1);
}

#[test]
fn rent_pay_unknown_transaction_is_not_found() {
    let mut store = RentStore::new();
    assert_eq!(store.pay(55, 1).unwrap_err(), AppError::NotFound);
}

#[test]
fn rent_get_transaction_is_gated_by_ownership() {
    let (mut store, pid) = store_with_property(1_000);
    let t = store.book(55, pid, 0, 90, 0).unwrap();

    let (got, prop) = store.get_transaction(55, t.rent_transaction_id).unwrap();
    assert_eq!(got.rent_transaction_id, t.rent_transaction_id);
    assert_eq!(prop.rent_property_id, pid);

    assert_eq!(
        store.get_transaction(99, t.rent_transaction_id).unwrap_err(),
        AppError::Forbidden
    );
    assert_eq!(store.get_transaction(55, 12345).unwrap_err(), AppError::NotFound);
}

#[test]
fn rent_list_my_transactions_filters_by_user() {
    let (mut store, pid) = store_with_property(1_000);
    store.book(55, pid, 0, 30, 50).unwrap();
    store.book(99, pid, 100, 130, 50).unwrap();

    let mine = store.list_my_transactions(55);
    assert_eq!(mine.len(), 1);
    assert_eq!(mine[0].0.user_id, 55);
    assert_eq!(mine[0].1.rent_property_id, pid);
    assert!(store.list_my_transactions(7).is_empty());
}

#[test]
fn rent_create_rejects_a_malformed_owner_id() {
    let mut store = RentStore::new();
    let r = store.create(
        &"not-a-uuid".to_string(),
        "Hillside House".to_string(),
        "Two floors".to_string(),
        "5 Hill Road".to_string(),
        120,
        90,
        3,
        2,
        1_000,
        "http://localhost/x.png".to_string(),
    );
    assert_eq!(r.unwrap_err(), AppError::InvalidInput);
    assert!(store.properties.is_empty());
}

#[test]
fn create_parses_the_owner_and_writes_available() {
    let (store, pid) = store_with_property(1_000);
    let expected_owner = uuid::Uuid::parse_str(OWNER).unwrap().as_u128();
    assert_eq!(store.properties.len(), 1);
    assert_eq!(store.properties[0].rent_property_id, pid);
    assert_eq!(store.properties[0].owner_id, expected_owner);
    assert_eq!(store.properties[0].status, "Available");
    assert_eq!(store.properties[0].monthly_rent, 1_000);
}

#[test]
fn fresh_identifiers_differ() {
    let (mut store, first) = store_with_property(1_000);
    let second = store
        .create(
            &OWNER.to_string(),
            "Riverside Flat".to_string(),
            "One floor".to_string(),
            "9 River Road".to_string(),
            60,
            55,
            2,
            1,
            800,
            "http://localhost/rent-pictures/riverside.png".to_string(),
        )
        .unwrap();
    assert_ne!(first, second.rent_property_id);
}

#[test]
fn rent_pay_twice_is_a_no_op() {
    let (mut store, pid) = store_with_property(1_000);
    let t = store.book(55, pid, 0, 90, 0).unwrap();
    let first = store.pay(55, t.rent_transaction_id).unwrap();
    let second = store.pay(55, t.rent_transaction_id).unwrap();
    assert_eq!(first, second);
    assert_eq!(store.transactions.len(), 1);
    assert_eq!(store.transactions[0].status, TxnStatus::Paid);
}
