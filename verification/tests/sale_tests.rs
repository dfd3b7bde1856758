use realty::errors::AppError;
use realty::models::TxnStatus;
use realty::sale::{calculate_monthly_mortgage, SaleStore};

const OWNER: &str = "67e55044-10b1-426f-9247-bb680e5fe0c8";

fn store_with_property(price: i64) -> (SaleStore, u128) {
    let mut store = SaleStore::new();
    let p = store
        .create(
            &OWNER.to_string(),
            "Garden Villa".to_string(),
            "With a pond".to_string(),
            "2 Garden Lane".to_string(),
            200,
            150,
            4,
            3,
            price,
            "http://localhost/sale-pictures/villa.png".to_string(),
        )
        .expect("create should succeed");
    (store, p.sale_property_id)
}

#[test]
fn mortgage_matches_the_pinned_amortization_value() {
    // price 200000, down 20000, 360 months at the fixed 6% yearly rate.
    assert_eq!(calculate_monthly_mortgage(200_000, 20_000, 360), Some(1_079));
}

#[test]
fn mortgage_for_one_month_is_principal_plus_one_interest_step() {
    // principal 200000 at 0.5% monthly: 200000 * 1.005 = 201000.
    assert_eq!(calculate_monthly_mortgage(220_000, 20_000, 1), Some(201_000));
}

#[test]
fn mortgage_twenty_years() {
    assert_eq!(calculate_monthly_mortgage(500_000, 100_000, 240), Some(2_865));
}

#[test]
fn mortgage_needs_at_least_one_month() {
    assert_eq!(calculate_monthly_mortgage(200_000, 20_000, 0), None);
    assert_eq!(calculate_monthly_mortgage(200_000, 20_000, -12), None);
}

#[test]
fn booking_reads_the_price_from_the_listing() {
    let (mut store, pid) = store_with_property(200_000);
    let t = store.book(55, pid, 20_000, 360, 19_000).expect("booking should succeed");
    assert_eq!(t.monthly_mortgage, 1_079);
    assert_eq!(t.down_payment, 20_000);
    assert_eq!(t.installment_duration, 360);
    assert_eq!(t.sale_date, 19_000);
    assert_eq!(t.status, TxnStatus::Unpaid);
}

#[test]
fn sold_property_stays_hidden_whatever_the_date() {
    let (mut store, pid) = store_with_property(200_000);
    store.book(55, pid, 20_000, 360, 0).unwrap();

    assert!(store.list_available().iter().all(|p| p.sale_property_id != pid));
    assert_eq!(store.get_by_id(pid).unwrap_err(), AppError::NotFound);
    // A sale has no availability window: nothing comes back later.
    assert_eq!(store.book(56, pid, 1_000, 12, 99_999).unwrap_err(), AppError::NotFound);
}

#[test]
fn sale_booking_an_unknown_property_is_not_found() {
    let mut store = SaleStore::new();
    assert_eq!(store.book(55, 1, 0, 12, 0).unwrap_err(), AppError::NotFound);
}

#[test]
fn zero_months_on_a_real_listing_is_invalid_input() {
    let (mut store, pid) = store_with_property(200_000);
    assert_eq!(store.book(55, pid, 20_000, 0, 0).unwrap_err(), AppError::InvalidInput);
    assert!(store.transactions.is_empty());
}

#[test]
fn sale_owner_can_pay_and_the_row_flips_to_paid() {
    let (mut store, pid) = store_with_property(200_000);
    let t = store.book(55, pid, 20_000, 360, 0).unwrap();
    let paid = store.pay(55, t.sale_transaction_id).expect("payment should succeed");
    assert_eq!(paid.status, TxnStatus::Paid);
    assert_eq!(store.transactions[0].status, TxnStatus::Paid);
}

#[test]
fn sale_pay_by_a_non_owner_is_forbidden_and_changes_nothing() {
    let (mut store, pid) = store_with_property(200_000);
    let t = store.book(55, pid, 20_000, 360, 0).unwrap();
    assert_eq!(store.pay(99, t.sale_transaction_id).unwrap_err(), AppError::Forbidden);
    assert_eq!(store.transactions[0].status, TxnStatus::Unpaid);
}

#[test]
fn sale_pay_unknown_transaction_is_not_found() {
    let mut store = SaleStore::new();
    assert_eq!(store.pay(55, 1).unwrap_err(), AppError::NotFound);
}

#[test]
fn sale_get_transaction_is_gated_by_ownership() {
    let (mut store, pid) = store_with_property(200_000);
    let t = store.book(55, pid, 20_000, 360, 0).unwrap();
    let (got, prop) = store.get_transaction(55, t.sale_transaction_id).unwrap();
    assert_eq!(got.sale_transaction_id, t.sale_transaction_id);
    assert_eq!(prop.sale_property_id, pid);
    assert_eq!(
        store.get_transaction(99, t.sale_transaction_id).unwrap_err(),
        AppError::Forbidden
    );
    assert_eq!(store.get_transaction(55, 12345).unwrap_err(), AppError::NotFound);
}

#[test]
fn sale_list_my_transactions_filters_by_user() {
    let (mut store, pid) = store_with_property(200_000);
    store.book(55, pid, 20_000, 360, 0).unwrap();

    let mine = store.list_my_transactions(55);
    assert_eq!(mine.len(), 1);
    assert_eq!(mine[0].0.user_id, 55);
    assert_eq!(mine[0].1.sale_property_id, pid);
    assert!(store.list_my_transactions(7).is_empty());
}

#[test]
fn sale_create_rejects_a_malformed_owner_id() {
    let mut store = SaleStore::new();
    let r = store.create(
        &"zz".to_string(),
        "Garden Villa".to_string(),
        "With a pond".to_string(),
        "2 Garden Lane".to_string(),
        200,
        150,
        4,
        3,
        200_000,
        "http://localhost/x.png".to_string(),
    );
    assert_eq!(r.unwrap_err(), AppError::InvalidInput);
    assert!(store.properties.is_empty());
}

#[test]
fn sale_pay_twice_is_a_no_op() {
    let (mut store, pid) = store_with_property(200_000);
    let t = store.book(55, pid, 20_000, 360, 0).unwrap();
    let first = store.pay(55, t.sale_transaction_id).unwrap();
    let second = store.pay(55, t.sale_transaction_id).unwrap();
    assert_eq!(first, second);
    assert_eq!(store.transactions[0].status, TxnStatus::Paid);
}
