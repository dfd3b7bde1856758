//! Rental listings and their transactions: the availability exclusion, the
//! flat rent derivation, and the payment action with its ownership check.

use vstd::prelude::*;
use crate::errors::AppError;
use crate::ids::{new_id, parse_id, uuid_of};
use crate::models::TxnStatus;

verus! {

/// A rental listing.
#[derive(Debug)]
pub struct RentProperty {
    pub rent_property_id: u128,
    pub title: String,
    pub description: String,
    pub address: String,
    pub owner_id: u128,
    /// Land size.
    pub lt: i32,
    /// Building size.
    pub lb: i32,
    pub bedroom: i16,
    pub bathroom: i16,
    pub monthly_rent: i64,
    pub picture_url: String,
    /// Kept as a free-form column; every row is written as `Available`.
    /// Availability is really decided by open transactions, not this field.
    pub status: String,
}

impl Clone for RentProperty {
    fn clone(&self) -> (r: Self)
        ensures
            r == *self,
    {
        RentProperty {
            rent_property_id: self.rent_property_id,
            title: self.title.clone(),
            description: self.description.clone(),
            address: self.address.clone(),
            owner_id: self.owner_id,
            lt: self.lt,
            lb: self.lb,
            bedroom: self.bedroom,
            bathroom: self.bathroom,
            monthly_rent: self.monthly_rent,
            picture_url: self.picture_url.clone(),
            status: self.status.clone(),
        }
    }
}

/// A booking against a rental listing. Dates are day numbers.
#[derive(Clone, Copy, Debug, PartialEq, Eq)]
pub struct RentTransaction {
    pub rent_transaction_id: u128,
    pub rent_property_id: u128,
    pub user_id: u128,
    pub total_payment: Option<i64>,
    pub start_date: i64,
    pub end_date: Option<i64>,
    pub status: TxnStatus,
}

/// Whether a booking still claims its property at date `today`: it is not
/// cancelled and its end date lies in the future. A missing end date never
/// claims anything.
pub open spec fn rent_active(t: RentTransaction, today: i64) -> bool {
    &&& t.status != TxnStatus::Cancelled
    &&& match t.end_date {
        Some(e) => e > today,
        None => false,
    }
}

/// The rent owed for a stay: the monthly rent times the number of whole
/// 30-day months between the dates, any partial month dropped. `None` where
/// the figure cannot be represented in 64 bits.
pub open spec fn spec_total_rent(monthly_rent: i64, start_date: i64, end_date: i64) -> Option<
    i64,
> {
    match end_date.checked_sub(start_date) {
        Some(days) => match days.checked_div(30) {
            Some(months) => monthly_rent.checked_mul(months),
            None => None,
        },
        None => None,
    }
}

/// The executable form of [`spec_total_rent`].
pub fn total_rent_payment(monthly_rent: i64, start_date: i64, end_date: i64) -> (r: Option<i64>)
    ensures
        r == spec_total_rent(monthly_rent, start_date, end_date),
{
    match end_date.checked_sub(start_date) {
        Some(days) => match days.checked_div(30) {
            Some(months) => monthly_rent.checked_mul(months),
            None => None,
        },
        None => None,
    }
}

/// The rental side of the store: the listing table and the booking table.
pub struct RentStore {
    pub properties: Vec<RentProperty>,
    pub transactions: Vec<RentTransaction>,
}

impl RentStore {
    /// Listing and booking identifiers are unique.
    pub open spec fn wf(self) -> bool {
        &&& forall|i: int, j: int|
            0 <= i < j < self.properties@.len() ==> (#[trigger] self.properties@[i]).rent_property_id
                != (#[trigger] self.properties@[j]).rent_property_id
        &&& forall|i: int, j: int|
            0 <= i < j < self.transactions@.len() ==> (
            #[trigger] self.transactions@[i]).rent_transaction_id != (
            #[trigger] self.transactions@[j]).rent_transaction_id
    }

    pub open spec fn has_property(self, pid: u128) -> bool {
        exists|i: int|
            0 <= i < self.properties@.len() && (#[trigger] self.properties@[i]).rent_property_id
                == pid
    }

    /// The unique listing with this identifier, where one exists.
    pub open spec fn property_with_id(self, pid: u128) -> RentProperty {
        self.properties@[choose|i: int|
            0 <= i < self.properties@.len() && (#[trigger] self.properties@[i]).rent_property_id
                == pid]
    }

    pub open spec fn has_transaction(self, tid: u128) -> bool {
        exists|i: int|
            0 <= i < self.transactions@.len() && (
            #[trigger] self.transactions@[i]).rent_transaction_id == tid
    }

    pub open spec fn txn_index(self, tid: u128) -> int {
        choose|i: int|
            0 <= i < self.transactions@.len() && (
            #[trigger] self.transactions@[i]).rent_transaction_id == tid
    }

    /// The unique booking with this identifier, where one exists.
    pub open spec fn txn_with_id(self, tid: u128) -> RentTransaction {
        self.transactions@[self.txn_index(tid)]
    }

    /// The availability exclusion: some booking claims this listing today.
    pub open spec fn excluded(self, pid: u128, today: i64) -> bool {
        exists|i: int|
            0 <= i < self.transactions@.len() && (#[trigger] self.transactions@[i]).rent_property_id
                == pid && rent_active(self.transactions@[i], today)
    }

    /// The predicate `list_available` filters the listing table by.
    pub open spec fn avail_pred(self, today: i64) -> spec_fn(RentProperty) -> bool {
        |p: RentProperty| !self.excluded(p.rent_property_id, today)
    }

    /// The availability window: no two bookings claim the same property at
    /// once. Booking re-checks the exclusion before inserting, so it keeps
    /// this; see the `book` contracts.
    pub open spec fn at_most_one_active(self, today: i64) -> bool {
        forall|i: int, j: int|
            0 <= i < j < self.transactions@.len() && rent_active(
                #[trigger] self.transactions@[i],
                today,
            ) && rent_active(#[trigger] self.transactions@[j], today)
                ==> self.transactions@[i].rent_property_id
                != self.transactions@[j].rent_property_id
    }

    pub fn new() -> (r: Self)
        ensures
            r.properties@ =~= Seq::<RentProperty>::empty(),
            r.transactions@ =~= Seq::<RentTransaction>::empty(),
            r.wf(),
    {
        RentStore { properties: Vec::new(), transactions: Vec::new() }
    }

    /// Whether some booking claims the listing at date `today`.
    pub fn is_excluded(&self, pid: u128, today: i64) -> (r: bool)
        ensures
            r == self.excluded(pid, today),
    {
        let n = self.transactions.len();
        for i in 0..n
            invariant
                n == self.transactions@.len(),
                forall|j: int|
                    0 <= j < i ==> !((#[trigger] self.transactions@[j]).rent_property_id == pid
                        && rent_active(self.transactions@[j], today)),
        {
            let t = &self.transactions[i];
            let active_window = match t.end_date {
                Some(e) => e > today,
                None => false,
            };
            if t.rent_property_id == pid && t.status != TxnStatus::Cancelled && active_window {
                return true;
            }
        }
        false
    }

    /// The unique listing with this identifier, or `None`, with no
    /// availability check.
    fn find_property(&self, pid: u128) -> (r: Option<&RentProperty>)
        requires
            self.wf(),
        ensures
            match r {
                Some(p) => self.has_property(pid) && *p == self.property_with_id(pid),
                None => !self.has_property(pid),
            },
    {
        let n = self.properties.len();
        for i in 0..n
            invariant
                n == self.properties@.len(),
                self.wf(),
                forall|j: int|
                    0 <= j < i ==> (#[trigger] self.properties@[j]).rent_property_id != pid,
        {
            if self.properties[i].rent_property_id == pid {
                proof {
                    assert(self.has_property(pid));
                    let j = choose|j: int|
                        0 <= j < self.properties@.len() && (
                        #[trigger] self.properties@[j]).rent_property_id == pid;
                    if j < i as int {
                        assert(self.properties@[j].rent_property_id != self.properties@[
                            i as int].rent_property_id);
                    } else if j > i as int {
                        assert(self.properties@[i as int].rent_property_id != self.properties@[
                            j].rent_property_id);
                    }
                }
                return Some(&self.properties[i]);
            }
        }
        None
    }

    /// Every listing not claimed by an open booking, in table order.
    pub fn list_available(&self, today: i64) -> (r: Vec<RentProperty>)
        ensures
            r@ == self.properties@.filter(self.avail_pred(today)),
    {
        let mut out: Vec<RentProperty> = Vec::new();
        let n = self.properties.len();
        proof {
            reveal(Seq::filter);
            assert(self.properties@.take(0) =~= Seq::<RentProperty>::empty());
        }
        for i in 0..n
            invariant
                n == self.properties@.len(),
                out@ == self.properties@.take(i as int).filter(self.avail_pred(today)),
        {
            let keep = !self.is_excluded(self.properties[i].rent_property_id, today);
            if keep {
                out.push(self.properties[i].clone());
            }
            proof {
                reveal(Seq::filter);
                let s = self.properties@;
                let pred = self.avail_pred(today);
                assert(s.take(i + 1).drop_last() =~= s.take(i as int));
                assert(s.take(i + 1).last() == s[i as int]);
                assert(s.take(i + 1).filter(pred) == if pred(s[i as int]) {
                    s.take(i as int).filter(pred).push(s[i as int])
                } else {
                    s.take(i as int).filter(pred)
                });
            }
        }
        proof {
            assert(self.properties@.take(n as int) =~= self.properties@);
        }
        out
    }

    /// The listing with this identifier, under the same availability
    /// exclusion as `list_available`: a claimed or unknown listing is
    /// `NotFound`.
    pub fn get_by_id(&self, pid: u128, today: i64) -> (r: Result<RentProperty, AppError>)
        requires
            self.wf(),
        ensures
            match r {
                Ok(p) => self.has_property(pid) && !self.excluded(pid, today) && p
                    == self.property_with_id(pid),
                Err(e) => e == AppError::NotFound && (!self.has_property(pid) || self.excluded(
                    pid,
                    today,
                )),
            },
    {
        let p = match self.find_property(pid) {
            None => {
                return Err(AppError::NotFound);
            },
            Some(p) => p,
        };
        if self.is_excluded(pid, today) {
            return Err(AppError::NotFound);
        }
        Ok(p.clone())
    }

    /// Insert a listing whose identifier is already fixed. Exactly when the
    /// identifier is fresh the row goes in, written `Available`; a stale
    /// identifier is an `Internal` failure and the store is untouched.
    pub fn insert_property(
        &mut self,
        rent_property_id: u128,
        title: String,
        description: String,
        address: String,
        owner_id: u128,
        lt: i32,
        lb: i32,
        bedroom: i16,
        bathroom: i16,
        monthly_rent: i64,
        picture_url: String,
    ) -> (r: Result<RentProperty, AppError>)
        requires
            old(self).wf(),
        ensures
            final(self).wf(),
            final(self).transactions@ == old(self).transactions@,
            r is Err ==> *final(self) == *old(self),
            old(self).has_property(rent_property_id) <==> r == Err::<RentProperty, AppError>(
                AppError::Internal,
            ),
            !old(self).has_property(rent_property_id) ==> r is Ok,
            r matches Ok(p) ==> {
                &&& !old(self).has_property(rent_property_id)
                &&& final(self).properties@ == old(self).properties@.push(p)
                &&& p.rent_property_id == rent_property_id
                &&& p.title == title
                &&& p.description == description
                &&& p.address == address
                &&& p.owner_id == owner_id
                &&& p.lt == lt
                &&& p.lb == lb
                &&& p.bedroom == bedroom
                &&& p.bathroom == bathroom
                &&& p.monthly_rent == monthly_rent
                &&& p.picture_url == picture_url
                &&& p.status@ == "Available"@
            },
    {
        if self.find_property(rent_property_id).is_some() {
            return Err(AppError::Internal);
        }
        let row = RentProperty {
            rent_property_id,
            title,
            description,
            address,
            owner_id,
            lt,
            lb,
            bedroom,
            bathroom,
            monthly_rent,
            picture_url,
            status: String::from_str("Available"),
        };
        let ret = row.clone();
        let ghost before = self.properties@;
        let ghost new_row = row;
        self.properties.push(row);
        proof {
            assert(self.properties@ == before.push(new_row));
            assert forall|i: int, j: int| 0 <= i < j < self.properties@.len() implies (
            #[trigger] self.properties@[i]).rent_property_id != (
            #[trigger] self.properties@[j]).rent_property_id by {
                if j < before.len() {
                    assert(before[i].rent_property_id != before[j].rent_property_id);
                } else {
                    assert(self.properties@[j] == new_row);
                    assert(self.properties@[i] == before[i]);
                    if before[i].rent_property_id == new_row.rent_property_id {
                        assert(old(self).has_property(new_row.rent_property_id));
                    }
                }
            }
        }
        Ok(ret)
    }

    /// Create a listing from an upload: the owner field must parse as a
    /// UUID (else `InvalidInput`), a fresh identifier is drawn, and the row
    /// is written `Available`. The picture has already been validated and
    /// saved; `picture_url` is where it is served from.
    pub fn create(
        &mut self,
        owner: &String,
        title: String,
        description: String,
        address: String,
        lt: i32,
        lb: i32,
        bedroom: i16,
        bathroom: i16,
        monthly_rent: i64,
        picture_url: String,
    ) -> (r: Result<RentProperty, AppError>)
        requires
            old(self).wf(),
        ensures
            final(self).wf(),
            final(self).transactions@ == old(self).transactions@,
            r is Err ==> *final(self) == *old(self),
            uuid_of(owner@) is None <==> r == Err::<RentProperty, AppError>(AppError::InvalidInput),
            r matches Err(e) ==> (e == AppError::InvalidInput || e == AppError::Internal),
            r matches Ok(p) ==> {
                &&& uuid_of(owner@) == Some(p.owner_id)
                &&& !old(self).has_property(p.rent_property_id)
                &&& final(self).properties@ == old(self).properties@.push(p)
                &&& p.title == title
                &&& p.description == description
                &&& p.address == address
                &&& p.lt == lt
                &&& p.lb == lb
                &&& p.bedroom == bedroom
                &&& p.bathroom == bathroom
                &&& p.monthly_rent == monthly_rent
                &&& p.picture_url == picture_url
                &&& p.status@ == "Available"@
            },
    {
        let owner_id = match parse_id(owner.as_str()) {
            None => {
                return Err(AppError::InvalidInput);
            },
            Some(v) => v,
        };
        let property_id = new_id();
        self.insert_property(
            property_id,
            title,
            description,
            address,
            owner_id,
            lt,
            lb,
            bedroom,
            bathroom,
            monthly_rent,
            picture_url,
        )
    }

    /// Book a rental with the transaction identifier already fixed. The
    /// availability exclusion is re-checked; an unavailable or unknown
    /// listing is `NotFound`, a payment figure that does not fit 64 bits is
    /// `InvalidInput`, a stale transaction identifier is `Internal`, and
    /// otherwise the booking is inserted `Unpaid` with the derived total.
    pub fn book_with_id(
        &mut self,
        txn_id: u128,
        user_id: u128,
        rent_property_id: u128,
        start_date: i64,
        end_date: i64,
        today: i64,
    ) -> (r: Result<RentTransaction, AppError>)
        requires
            old(self).wf(),
        ensures
            final(self).wf(),
            final(self).properties@ == old(self).properties@,
            r is Err ==> *final(self) == *old(self),
            (!old(self).has_property(rent_property_id) || old(self).excluded(
                rent_property_id,
                today,
            )) <==> r == Err::<RentTransaction, AppError>(AppError::NotFound),
            (old(self).available(rent_property_id, today) && spec_total_rent(
                old(self).property_with_id(rent_property_id).monthly_rent,
                start_date,
                end_date,
            ) is None) <==> r == Err::<RentTransaction, AppError>(AppError::InvalidInput),
            (old(self).available(rent_property_id, today) && spec_total_rent(
                old(self).property_with_id(rent_property_id).monthly_rent,
                start_date,
                end_date,
            ) is Some && old(self).has_transaction(txn_id)) <==> r == Err::<
                RentTransaction,
                AppError,
            >(AppError::Internal),
            (old(self).available(rent_property_id, today) && spec_total_rent(
                old(self).property_with_id(rent_property_id).monthly_rent,
                start_date,
                end_date,
            ) is Some && !old(self).has_transaction(txn_id)) ==> r is Ok,
            old(self).at_most_one_active(today) ==> final(self).at_most_one_active(today),
            r matches Ok(t) ==> {
                &&& old(self).available(rent_property_id, today)
                &&& !old(self).has_transaction(txn_id)
                &&& t == (RentTransaction {
                    rent_transaction_id: txn_id,
                    rent_property_id,
                    user_id,
                    total_payment: spec_total_rent(
                        old(self).property_with_id(rent_property_id).monthly_rent,
                        start_date,
                        end_date,
                    ),
                    start_date,
                    end_date: Some(end_date),
                    status: TxnStatus::Unpaid,
                })
                &&& final(self).transactions@ == old(self).transactions@.push(t)
            },
    {
        let property = match self.get_by_id(rent_property_id, today) {
            Err(_) => {
                return Err(AppError::NotFound);
            },
            Ok(p) => p,
        };
        let total = match total_rent_payment(property.monthly_rent, start_date, end_date) {
            None => {
                return Err(AppError::InvalidInput);
            },
            Some(v) => v,
        };
        if self.find_transaction_index(txn_id).is_some() {
            return Err(AppError::Internal);
        }
        let t = RentTransaction {
            rent_transaction_id: txn_id,
            rent_property_id,
            user_id,
            total_payment: Some(total),
            start_date,
            end_date: Some(end_date),
            status: TxnStatus::Unpaid,
        };
        let ghost before = self.transactions@;
        self.transactions.push(t);
        proof {
            assert(self.transactions@ == before.push(t));
            assert forall|i: int, j: int| 0 <= i < j < self.transactions@.len() implies (
            #[trigger] self.transactions@[i]).rent_transaction_id != (
            #[trigger] self.transactions@[j]).rent_transaction_id by {
                if j < before.len() {
                    assert(before[i].rent_transaction_id != before[j].rent_transaction_id);
                } else {
                    assert(self.transactions@[j] == t);
                    assert(self.transactions@[i] == before[i]);
                    if before[i].rent_transaction_id == t.rent_transaction_id {
                        assert(old(self).has_transaction(t.rent_transaction_id));
                    }
                }
            }
            if old(self).at_most_one_active(today) {
                assert forall|i: int, j: int|
                    0 <= i < j < self.transactions@.len() && rent_active(
                        #[trigger] self.transactions@[i],
                        today,
                    ) && rent_active(#[trigger] self.transactions@[j], today) implies
                    self.transactions@[i].rent_property_id
                        != self.transactions@[j].rent_property_id by {
                    if j < before.len() {
                        assert(rent_active(before[i], today) && rent_active(before[j], today));
                    } else {
                        assert(self.transactions@[j] == t);
                        assert(self.transactions@[i] == before[i]);
                        if before[i].rent_property_id == t.rent_property_id && rent_active(
                            before[i],
                            today,
                        ) {
                            assert(old(self).excluded(t.rent_property_id, today));
                        }
                    }
                }
            }
        }
        Ok(t)
    }

    /// Book a rental: re-check availability, derive the total as the
    /// monthly rent times the number of whole 30-day months, and insert an
    /// `Unpaid` booking under a fresh identifier.
    pub fn book(
        &mut self,
        user_id: u128,
        rent_property_id: u128,
        start_date: i64,
        end_date: i64,
        today: i64,
    ) -> (r: Result<RentTransaction, AppError>)
        requires
            old(self).wf(),
        ensures
            final(self).wf(),
            final(self).properties@ == old(self).properties@,
            r is Err ==> *final(self) == *old(self),
            (!old(self).has_property(rent_property_id) || old(self).excluded(
                rent_property_id,
                today,
            )) <==> r == Err::<RentTransaction, AppError>(AppError::NotFound),
            (old(self).available(rent_property_id, today) && spec_total_rent(
                old(self).property_with_id(rent_property_id).monthly_rent,
                start_date,
                end_date,
            ) is None) <==> r == Err::<RentTransaction, AppError>(AppError::InvalidInput),
            r matches Err(e) ==> (e == AppError::NotFound || e == AppError::InvalidInput || e
                == AppError::Internal),
            old(self).at_most_one_active(today) ==> final(self).at_most_one_active(today),
            r matches Ok(t) ==> {
                &&& old(self).available(rent_property_id, today)
                &&& t.rent_property_id == rent_property_id
                &&& t.user_id == user_id
                &&& t.total_payment == spec_total_rent(
                    old(self).property_with_id(rent_property_id).monthly_rent,
                    start_date,
                    end_date,
                )
                &&& t.start_date == start_date
                &&& t.end_date == Some(end_date)
                &&& t.status == TxnStatus::Unpaid
                &&& final(self).transactions@ == old(self).transactions@.push(t)
            },
    {
        let txn_id = new_id();
        self.book_with_id(txn_id, user_id, rent_property_id, start_date, end_date, today)
    }

    /// Availability in one word: the listing exists and no open booking
    /// claims it.
    pub open spec fn available(self, pid: u128, today: i64) -> bool {
        self.has_property(pid) && !self.excluded(pid, today)
    }

    /// The position of the unique booking with this identifier, or `None`.
    fn find_transaction_index(&self, tid: u128) -> (r: Option<usize>)
        requires
            self.wf(),
        ensures
            match r {
                Some(i) => self.has_transaction(tid) && i == self.txn_index(tid) && i
                    < self.transactions@.len(),
                None => !self.has_transaction(tid),
            },
    {
        let n = self.transactions.len();
        for i in 0..n
            invariant
                n == self.transactions@.len(),
                self.wf(),
                forall|j: int|
                    0 <= j < i ==> (#[trigger] self.transactions@[j]).rent_transaction_id != tid,
        {
            if self.transactions[i].rent_transaction_id == tid {
                proof {
                    assert(self.has_transaction(tid));
                    let j = self.txn_index(tid);
                    if j < i as int {
                        assert(self.transactions@[j].rent_transaction_id != self.transactions@[
                            i as int].rent_transaction_id);
                    } else if j > i as int {
                        assert(self.transactions@[i as int].rent_transaction_id
                            != self.transactions@[j].rent_transaction_id);
                    }
                }
                return Some(i);
            }
        }
        None
    }

    /// A booking joined with its listing, gated by ownership: an unknown
    /// booking (or one whose listing is gone, as under the join) is
    /// `NotFound`; someone else's booking is `Forbidden`.
    pub fn get_transaction(&self, caller: u128, tid: u128) -> (r: Result<
        (RentTransaction, RentProperty),
        AppError,
    >)
        requires
            self.wf(),
        ensures
            match r {
                Ok((t, p)) => {
                    &&& self.has_transaction(tid)
                    &&& t == self.txn_with_id(tid)
                    &&& t.user_id == caller
                    &&& self.has_property(t.rent_property_id)
                    &&& p == self.property_with_id(t.rent_property_id)
                },
                Err(e) => {
                    ||| (e == AppError::NotFound && (!self.has_transaction(tid)
                        || !self.has_property(self.txn_with_id(tid).rent_property_id)))
                    ||| (e == AppError::Forbidden && self.has_transaction(tid)
                        && self.has_property(self.txn_with_id(tid).rent_property_id)
                        && self.txn_with_id(tid).user_id != caller)
                },
            },
    {
        let idx = match self.find_transaction_index(tid) {
            None => {
                return Err(AppError::NotFound);
            },
            Some(i) => i,
        };
        let t = self.transactions[idx];
        let p = match self.find_property(t.rent_property_id) {
            None => {
                return Err(AppError::NotFound);
            },
            Some(p) => p.clone(),
        };
        if t.user_id != caller {
            return Err(AppError::Forbidden);
        }
        Ok((t, p))
    }

    /// What `list_my_transactions` keeps: the caller's bookings whose
    /// listing still exists (the join drops the rest).
    pub open spec fn my_txn_pred(self, caller: u128) -> spec_fn(RentTransaction) -> bool {
        |t: RentTransaction| t.user_id == caller && self.has_property(t.rent_property_id)
    }

    /// The join of a booking with its listing.
    pub open spec fn join_fn(self) -> spec_fn(RentTransaction) -> (RentTransaction, RentProperty) {
        |t: RentTransaction| (t, self.property_with_id(t.rent_property_id))
    }

    /// Every booking of the caller, each joined with its listing, in table
    /// order. The filter enforces ownership; no separate check is needed.
    pub fn list_my_transactions(&self, caller: u128) -> (r: Vec<(RentTransaction, RentProperty)>)
        requires
            self.wf(),
        ensures
            r@ == self.transactions@.filter(self.my_txn_pred(caller)).map_values(self.join_fn()),
    {
        let mut out: Vec<(RentTransaction, RentProperty)> = Vec::new();
        let n = self.transactions.len();
        proof {
            reveal(Seq::filter);
            assert(self.transactions@.take(0) =~= Seq::<RentTransaction>::empty());
            assert(self.transactions@.take(0).filter(self.my_txn_pred(caller)).map_values(
                self.join_fn(),
            ) =~= Seq::<(RentTransaction, RentProperty)>::empty());
        }
        for i in 0..n
            invariant
                n == self.transactions@.len(),
                self.wf(),
                out@ == self.transactions@.take(i as int).filter(self.my_txn_pred(caller)).map_values(
                    self.join_fn(),
                ),
        {
            let t = self.transactions[i];
            if t.user_id == caller {
                match self.find_property(t.rent_property_id) {
                    Some(p) => {
                        out.push((t, p.clone()));
                    },
                    None => {},
                }
            }
            proof {
                reveal(Seq::filter);
                let s = self.transactions@;
                let pred = self.my_txn_pred(caller);
                let f = self.join_fn();
                assert(s.take(i + 1).drop_last() =~= s.take(i as int));
                assert(s.take(i + 1).last() == s[i as int]);
                assert(s.take(i + 1).filter(pred) == if pred(s[i as int]) {
                    s.take(i as int).filter(pred).push(s[i as int])
                } else {
                    s.take(i as int).filter(pred)
                });
                if pred(s[i as int]) {
                    assert(s.take(i as int).filter(pred).push(s[i as int]).map_values(f)
                        =~= s.take(i as int).filter(pred).map_values(f).push(f(s[i as int])));
                }
            }
        }
        proof {
            assert(self.transactions@.take(n as int) =~= self.transactions@);
        }
        out
    }

    /// The payment action: flip the booking to `Paid` and hand back the
    /// updated row — unless the caller does not own it, in which case the
    /// update is rolled back and nothing in the store changes. An unknown
    /// identifier is `NotFound`.
    pub fn pay(&mut self, caller: u128, tid: u128) -> (r: Result<RentTransaction, AppError>)
        requires
            old(self).wf(),
        ensures
            final(self).wf(),
            final(self).properties@ == old(self).properties@,
            r is Err ==> *final(self) == *old(self),
            !old(self).has_transaction(tid) <==> r == Err::<RentTransaction, AppError>(
                AppError::NotFound,
            ),
            (old(self).has_transaction(tid) && old(self).txn_with_id(tid).user_id != caller) <==> r
                == Err::<RentTransaction, AppError>(AppError::Forbidden),
            (old(self).has_transaction(tid) && old(self).txn_with_id(tid).user_id == caller) ==> r
                is Ok,
            r matches Ok(t) ==> {
                &&& old(self).has_transaction(tid)
                &&& old(self).txn_with_id(tid).user_id == caller
                &&& t == (RentTransaction {
                    rent_transaction_id: old(self).txn_with_id(tid).rent_transaction_id,
                    rent_property_id: old(self).txn_with_id(tid).rent_property_id,
                    user_id: old(self).txn_with_id(tid).user_id,
                    total_payment: old(self).txn_with_id(tid).total_payment,
                    start_date: old(self).txn_with_id(tid).start_date,
                    end_date: old(self).txn_with_id(tid).end_date,
                    status: TxnStatus::Paid,
                })
                &&& final(self).transactions@ == old(self).transactions@.update(
                    old(self).txn_index(tid),
                    t,
                )
            },
    {
        let idx = match self.find_transaction_index(tid) {
            None => {
                return Err(AppError::NotFound);
            },
            Some(i) => i,
        };
        let t = self.transactions[idx];
        if t.user_id != caller {
            return Err(AppError::Forbidden);
        }
        let updated = RentTransaction {
            rent_transaction_id: t.rent_transaction_id,
            rent_property_id: t.rent_property_id,
            user_id: t.user_id,
            total_payment: t.total_payment,
            start_date: t.start_date,
            end_date: t.end_date,
            status: TxnStatus::Paid,
        };
        self.transactions[idx] = updated;
        proof {
            assert forall|i: int, j: int| 0 <= i < j < self.transactions@.len() implies (
            #[trigger] self.transactions@[i]).rent_transaction_id != (
            #[trigger] self.transactions@[j]).rent_transaction_id by {
                assert(old(self).transactions@[i].rent_transaction_id != old(
                    self,
                ).transactions@[j].rent_transaction_id);
                assert(self.transactions@[i].rent_transaction_id == old(
                    self,
                ).transactions@[i].rent_transaction_id);
                assert(self.transactions@[j].rent_transaction_id == old(
                    self,
                ).transactions@[j].rent_transaction_id);
            }
        }
        Ok(updated)
    }
}

/// A listing hidden by an open booking: any booking that is active at date
/// `today` keeps its property out of `list_available` (no returned listing
/// carries its property identifier) and marks it excluded, so `get_by_id`
/// answers `NotFound` for it.
pub proof fn lemma_active_rent_claims_property(
    store: RentStore,
    t: RentTransaction,
    today: i64,
    i: int,
)
    requires
        store.transactions@.contains(t),
        rent_active(t, today),
        0 <= i < store.properties@.filter(store.avail_pred(today)).len(),
    ensures
        store.excluded(t.rent_property_id, today),
        store.properties@.filter(store.avail_pred(today))[i].rent_property_id
            != t.rent_property_id,
{
    let k = choose|k: int| 0 <= k < store.transactions@.len() && store.transactions@[k] == t;
    assert((#[trigger] store.transactions@[k]).rent_property_id == t.rent_property_id
        && rent_active(store.transactions@[k], today));
    store.properties@.lemma_filter_pred(store.avail_pred(today), i);
}

} // verus!
