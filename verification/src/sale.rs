//! Sale listings and their transactions: the availability exclusion (with
//! no time bound — a sold property stays consumed unless the sale is
//! cancelled), the amortized mortgage derivation, and the payment action
//! with its ownership check.

use vstd::prelude::*;
use crate::errors::AppError;
use crate::ids::{new_id, parse_id, uuid_of};
use crate::models::TxnStatus;

verus! {

/// A sale listing: the same shape as a rental, with a one-time price
/// instead of a recurring rent.
#[derive(Debug)]
pub struct SaleProperty {
    pub sale_property_id: u128,
    pub title: String,
    pub description: String,
    pub address: String,
    pub owner_id: u128,
    /// Land size.
    pub lt: i32,
    /// Building size.
    pub lb: i32,
    pub bedroom: i16,
    pub bathroom: i16,
    pub property_price: i64,
    pub picture_url: String,
    /// Kept as a free-form column; every row is written as `Available`.
    pub status: String,
}

impl Clone for SaleProperty {
    fn clone(&self) -> (r: Self)
        ensures
            r == *self,
    {
        SaleProperty {
            sale_property_id: self.sale_property_id,
            title: self.title.clone(),
            description: self.description.clone(),
            address: self.address.clone(),
            owner_id: self.owner_id,
            lt: self.lt,
            lb: self.lb,
            bedroom: self.bedroom,
            bathroom: self.bathroom,
            property_price: self.property_price,
            picture_url: self.picture_url.clone(),
            status: self.status.clone(),
        }
    }
}

/// A purchase agreement against a sale listing. The sale date is a day
/// number; the monthly mortgage is derived, never taken from the client.
#[derive(Clone, Copy, Debug, PartialEq, Eq)]
pub struct SaleTransaction {
    pub sale_transaction_id: u128,
    pub sale_property_id: u128,
    pub user_id: u128,
    pub down_payment: i64,
    pub installment_duration: i32,
    pub monthly_mortgage: i64,
    pub sale_date: i64,
    pub status: TxnStatus,
}

/// Whether a purchase claims its property: any agreement that is not
/// cancelled does, with no time bound.
pub open spec fn sale_active(t: SaleTransaction) -> bool {
    t.status != TxnStatus::Cancelled
}

/// The fixed-point scale the mortgage arithmetic runs at.
pub const MORTGAGE_SCALE: u128 = 1_000_000_000_000_000_000;

/// The compounding factor `(1 + 1/200)^n` at scale [`MORTGAGE_SCALE`],
/// truncating after each month; 1/200 is the monthly form of the fixed
/// 6% yearly rate. `None` once the value outgrows 128 bits.
pub open spec fn spec_growth(n: nat) -> Option<u128>
    decreases n,
{
    if n == 0 {
        Some(MORTGAGE_SCALE)
    } else {
        match spec_growth((n - 1) as nat) {
            None => None,
            Some(x) => match x.checked_mul(201) {
                None => None,
                Some(y) => Some(y / 200),
            },
        }
    }
}

/// Once the compounding factor has outgrown 128 bits it never comes back.
proof fn lemma_growth_none_propagates(k: nat, m: nat)
    requires
        spec_growth(k) is None,
        k <= m,
    ensures
        spec_growth(m) is None,
    decreases m,
{
    if m > k {
        lemma_growth_none_propagates(k, (m - 1) as nat);
    }
}

/// The magnitude of a signed principal.
pub open spec fn spec_magnitude(p: i64) -> u128 {
    if p >= 0 {
        p as u128
    } else {
        (-(p as int)) as u128
    }
}

/// The amortized monthly mortgage at the fixed 6% yearly rate:
/// `principal * r * (1+r)^n / ((1+r)^n - 1)` with `r = 1/200` monthly and
/// `principal = property_price - down_payment`, evaluated in fixed point at
/// scale [`MORTGAGE_SCALE`] and truncated to a whole currency unit. `None`
/// where the duration is under one month or a step does not fit its width.
pub open spec fn spec_mortgage(property_price: i64, down_payment: i64, months: i32) -> Option<
    i64,
> {
    if months < 1 {
        None
    } else {
        match spec_growth(months as nat) {
            None => None,
            Some(g) => match property_price.checked_sub(down_payment) {
                None => None,
                Some(p) => {
                    if g <= MORTGAGE_SCALE {
                        None
                    } else {
                        match spec_magnitude(p).checked_mul(g) {
                            None => None,
                            Some(num) => match (((g - MORTGAGE_SCALE) as u128)).checked_mul(200) {
                                None => None,
                                Some(d) => {
                                    let m = num / d;
                                    if p >= 0 {
                                        if m > i64::MAX as u128 {
                                            None
                                        } else {
                                            Some(m as i64)
                                        }
                                    } else {
                                        if m > 9223372036854775808u128 {
                                            None
                                        } else if m == 9223372036854775808u128 {
                                            Some(i64::MIN)
                                        } else {
                                            Some((-(m as i64)) as i64)
                                        }
                                    }
                                },
                            },
                        }
                    }
                },
            },
        }
    }
}

/// The executable form of [`spec_mortgage`].
pub fn calculate_monthly_mortgage(property_price: i64, down_payment: i64, months: i32) -> (r:
    Option<i64>)
    ensures
        r == spec_mortgage(property_price, down_payment, months),
{
    if months < 1 {
        return None;
    }
    let n: u32 = months as u32;
    let mut g: u128 = MORTGAGE_SCALE;
    let mut i: u32 = 0;
    while i < n
        invariant
            i <= n,
            n == months,
            months >= 1,
            spec_growth(i as nat) == Some(g),
        decreases n - i,
    {
        match g.checked_mul(201) {
            None => {
                proof {
                    lemma_growth_none_propagates((i + 1) as nat, n as nat);
                }
                return None;
            },
            Some(y) => {
                g = y / 200;
            },
        }
        i = i + 1;
    }
    let p = match property_price.checked_sub(down_payment) {
        None => {
            return None;
        },
        Some(p) => p,
    };
    if g <= MORTGAGE_SCALE {
        return None;
    }
    let pm: u128 = if p >= 0 {
        p as u128
    } else {
        (-(p as i128)) as u128
    };
    let num = match pm.checked_mul(g) {
        None => {
            return None;
        },
        Some(v) => v,
    };
    let d = match (g - MORTGAGE_SCALE).checked_mul(200) {
        None => {
            return None;
        },
        Some(v) => v,
    };
    proof {
        assert(d >= 200) by (nonlinear_arith)
            requires
                g >= MORTGAGE_SCALE + 1,
                d == (g - MORTGAGE_SCALE) * 200,
        ;
    }
    let m = num / d;
    if p >= 0 {
        if m > i64::MAX as u128 {
            None
        } else {
            Some(m as i64)
        }
    } else {
        if m > 9223372036854775808u128 {
            None
        } else if m == 9223372036854775808u128 {
            Some(i64::MIN)
        } else {
            Some(-(m as i64))
        }
    }
}

/// The sale side of the store: the listing table and the purchase table.
pub struct SaleStore {
    pub properties: Vec<SaleProperty>,
    pub transactions: Vec<SaleTransaction>,
}

impl SaleStore {
    /// Listing and purchase identifiers are unique.
    pub open spec fn wf(self) -> bool {
        &&& forall|i: int, j: int|
            0 <= i < j < self.properties@.len() ==> (#[trigger] self.properties@[i]).sale_property_id
                != (#[trigger] self.properties@[j]).sale_property_id
        &&& forall|i: int, j: int|
            0 <= i < j < self.transactions@.len() ==> (
            #[trigger] self.transactions@[i]).sale_transaction_id != (
            #[trigger] self.transactions@[j]).sale_transaction_id
    }

    pub open spec fn has_property(self, pid: u128) -> bool {
        exists|i: int|
            0 <= i < self.properties@.len() && (#[trigger] self.properties@[i]).sale_property_id
                == pid
    }

    /// The unique listing with this identifier, where one exists.
    pub open spec fn property_with_id(self, pid: u128) -> SaleProperty {
        self.properties@[choose|i: int|
            0 <= i < self.properties@.len() && (#[trigger] self.properties@[i]).sale_property_id
                == pid]
    }

    pub open spec fn has_transaction(self, tid: u128) -> bool {
        exists|i: int|
            0 <= i < self.transactions@.len() && (
            #[trigger] self.transactions@[i]).sale_transaction_id == tid
    }

    pub open spec fn txn_index(self, tid: u128) -> int {
        choose|i: int|
            0 <= i < self.transactions@.len() && (
            #[trigger] self.transactions@[i]).sale_transaction_id == tid
    }

    /// The unique purchase with this identifier, where one exists.
    pub open spec fn txn_with_id(self, tid: u128) -> SaleTransaction {
        self.transactions@[self.txn_index(tid)]
    }

    /// The availability exclusion: some non-cancelled purchase claims this
    /// listing, whenever it was made.
    pub open spec fn excluded(self, pid: u128) -> bool {
        exists|i: int|
            0 <= i < self.transactions@.len() && (#[trigger] self.transactions@[i]).sale_property_id
                == pid && sale_active(self.transactions@[i])
    }

    /// Availability in one word: the listing exists and no purchase claims
    /// it.
    pub open spec fn available(self, pid: u128) -> bool {
        self.has_property(pid) && !self.excluded(pid)
    }

    /// The predicate `list_available` filters the listing table by.
    pub open spec fn avail_pred(self) -> spec_fn(SaleProperty) -> bool {
        |p: SaleProperty| !self.excluded(p.sale_property_id)
    }

    /// No two open purchases claim the same property. Booking re-checks the
    /// exclusion before inserting, so it keeps this; see the `book`
    /// contracts.
    pub open spec fn at_most_one_active(self) -> bool {
        forall|i: int, j: int|
            0 <= i < j < self.transactions@.len() && sale_active(#[trigger] self.transactions@[i])
                && sale_active(#[trigger] self.transactions@[j])
                ==> self.transactions@[i].sale_property_id
                != self.transactions@[j].sale_property_id
    }

    pub fn new() -> (r: Self)
        ensures
            r.properties@ =~= Seq::<SaleProperty>::empty(),
            r.transactions@ =~= Seq::<SaleTransaction>::empty(),
            r.wf(),
    {
        SaleStore { properties: Vec::new(), transactions: Vec::new() }
    }

    /// Whether some purchase claims the listing.
    pub fn is_excluded(&self, pid: u128) -> (r: bool)
        ensures
            r == self.excluded(pid),
    {
        let n = self.transactions.len();
        for i in 0..n
            invariant
                n == self.transactions@.len(),
                forall|j: int|
                    0 <= j < i ==> !((#[trigger] self.transactions@[j]).sale_property_id == pid
                        && sale_active(self.transactions@[j])),
        {
            let t = &self.transactions[i];
            if t.sale_property_id == pid && t.status != TxnStatus::Cancelled {
                return true;
            }
        }
        false
    }

    /// The unique listing with this identifier, or `None`, with no
    /// availability check.
    fn find_property(&self, pid: u128) -> (r: Option<&SaleProperty>)
        requires
            self.wf(),
        ensures
            match r {
                Some(p) => self.has_property(pid) && *p == self.property_with_id(pid),
                None => !self.has_property(pid),
            },
    {
        let n = self.properties.len();
        for i in 0..n
            invariant
                n == self.properties@.len(),
                self.wf(),
                forall|j: int|
                    0 <= j < i ==> (#[trigger] self.properties@[j]).sale_property_id != pid,
        {
            if self.properties[i].sale_property_id == pid {
                proof {
                    assert(self.has_property(pid));
                    let j = choose|j: int|
                        0 <= j < self.properties@.len() && (
                        #[trigger] self.properties@[j]).sale_property_id == pid;
                    if j < i as int {
                        assert(self.properties@[j].sale_property_id != self.properties@[
                            i as int].sale_property_id);
                    } else if j > i as int {
                        assert(self.properties@[i as int].sale_property_id != self.properties@[
                            j].sale_property_id);
                    }
                }
                return Some(&self.properties[i]);
            }
        }
        None
    }

    /// Every listing not claimed by a purchase, in table order.
    pub fn list_available(&self) -> (r: Vec<SaleProperty>)
        ensures
            r@ == self.properties@.filter(self.avail_pred()),
    {
        let mut out: Vec<SaleProperty> = Vec::new();
        let n = self.properties.len();
        proof {
            reveal(Seq::filter);
            assert(self.properties@.take(0) =~= Seq::<SaleProperty>::empty());
        }
        for i in 0..n
            invariant
                n == self.properties@.len(),
                out@ == self.properties@.take(i as int).filter(self.avail_pred()),
        {
            let keep = !self.is_excluded(self.properties[i].sale_property_id);
            if keep {
                out.push(self.properties[i].clone());
            }
            proof {
                reveal(Seq::filter);
                let s = self.properties@;
                let pred = self.avail_pred();
                assert(s.take(i + 1).drop_last() =~= s.take(i as int));
                assert(s.take(i + 1).last() == s[i as int]);
                assert(s.take(i + 1).filter(pred) == if pred(s[i as int]) {
                    s.take(i as int).filter(pred).push(s[i as int])
                } else {
                    s.take(i as int).filter(pred)
                });
            }
        }
        proof {
            assert(self.properties@.take(n as int) =~= self.properties@);
        }
        out
    }

    /// The listing with this identifier, under the same availability
    /// exclusion as `list_available`: a claimed or unknown listing is
    /// `NotFound`.
    pub fn get_by_id(&self, pid: u128) -> (r: Result<SaleProperty, AppError>)
        requires
            self.wf(),
        ensures
            match r {
                Ok(p) => self.available(pid) && p == self.property_with_id(pid),
                Err(e) => e == AppError::NotFound && !self.available(pid),
            },
    {
        let p = match self.find_property(pid) {
            None => {
                return Err(AppError::NotFound);
            },
            Some(p) => p,
        };
        if self.is_excluded(pid) {
            return Err(AppError::NotFound);
        }
        Ok(p.clone())
    }

    /// Insert a listing whose identifier is already fixed. Exactly when the
    /// identifier is fresh the row goes in, written `Available`; a stale
    /// identifier is an `Internal` failure and the store is untouched.
    pub fn insert_property(
        &mut self,
        sale_property_id: u128,
        title: String,
        description: String,
        address: String,
        owner_id: u128,
        lt: i32,
        lb: i32,
        bedroom: i16,
        bathroom: i16,
        property_price: i64,
        picture_url: String,
    ) -> (r: Result<SaleProperty, AppError>)
        requires
            old(self).wf(),
        ensures
            final(self).wf(),
            final(self).transactions@ == old(self).transactions@,
            r is Err ==> *final(self) == *old(self),
            old(self).has_property(sale_property_id) <==> r == Err::<SaleProperty, AppError>(
                AppError::Internal,
            ),
            !old(self).has_property(sale_property_id) ==> r is Ok,
            r matches Ok(p) ==> {
                &&& !old(self).has_property(sale_property_id)
                &&& final(self).properties@ == old(self).properties@.push(p)
                &&& p.sale_property_id == sale_property_id
                &&& p.title == title
                &&& p.description == description
                &&& p.address == address
                &&& p.owner_id == owner_id
                &&& p.lt == lt
                &&& p.lb == lb
                &&& p.bedroom == bedroom
                &&& p.bathroom == bathroom
                &&& p.property_price == property_price
                &&& p.picture_url == picture_url
                &&& p.status@ == "Available"@
            },
    {
        if self.find_property(sale_property_id).is_some() {
            return Err(AppError::Internal);
        }
        let row = SaleProperty {
            sale_property_id,
            title,
            description,
            address,
            owner_id,
            lt,
            lb,
            bedroom,
            bathroom,
            property_price,
            picture_url,
            status: String::from_str("Available"),
        };
        let ret = row.clone();
        let ghost before = self.properties@;
        let ghost new_row = row;
        self.properties.push(row);
        proof {
            assert(self.properties@ == before.push(new_row));
            assert forall|i: int, j: int| 0 <= i < j < self.properties@.len() implies (
            #[trigger] self.properties@[i]).sale_property_id != (
            #[trigger] self.properties@[j]).sale_property_id by {
                if j < before.len() {
                    assert(before[i].sale_property_id != before[j].sale_property_id);
                } else {
                    assert(self.properties@[j] == new_row);
                    assert(self.properties@[i] == before[i]);
                    if before[i].sale_property_id == new_row.sale_property_id {
                        assert(old(self).has_property(new_row.sale_property_id));
                    }
                }
            }
        }
        Ok(ret)
    }

    /// Create a listing from an upload: the owner field must parse as a
    /// UUID (else `InvalidInput`), a fresh identifier is drawn, and the row
    /// is written `Available`.
    pub fn create(
        &mut self,
        owner: &String,
        title: String,
        description: String,
        address: String,
        lt: i32,
        lb: i32,
        bedroom: i16,
        bathroom: i16,
        property_price: i64,
        picture_url: String,
    ) -> (r: Result<SaleProperty, AppError>)
        requires
            old(self).wf(),
        ensures
            final(self).wf(),
            final(self).transactions@ == old(self).transactions@,
            r is Err ==> *final(self) == *old(self),
            uuid_of(owner@) is None <==> r == Err::<SaleProperty, AppError>(AppError::InvalidInput),
            r matches Err(e) ==> (e == AppError::InvalidInput || e == AppError::Internal),
            r matches Ok(p) ==> {
                &&& uuid_of(owner@) == Some(p.owner_id)
                &&& !old(self).has_property(p.sale_property_id)
                &&& final(self).properties@ == old(self).properties@.push(p)
                &&& p.title == title
                &&& p.description == description
                &&& p.address == address
                &&& p.lt == lt
                &&& p.lb == lb
                &&& p.bedroom == bedroom
                &&& p.bathroom == bathroom
                &&& p.property_price == property_price
                &&& p.picture_url == picture_url
                &&& p.status@ == "Available"@
            },
    {
        let owner_id = match parse_id(owner.as_str()) {
            None => {
                return Err(AppError::InvalidInput);
            },
            Some(v) => v,
        };
        let property_id = new_id();
        self.insert_property(
            property_id,
            title,
            description,
            address,
            owner_id,
            lt,
            lb,
            bedroom,
            bathroom,
            property_price,
            picture_url,
        )
    }

    /// Record a purchase with the transaction identifier already fixed. The
    /// price is read from the listing, never from the caller; an
    /// unavailable or unknown listing is `NotFound`, an unrepresentable
    /// mortgage is `InvalidInput`, a stale identifier is `Internal`, and
    /// otherwise the purchase is inserted `Unpaid`, dated `today`.
    pub fn book_with_id(
        &mut self,
        txn_id: u128,
        user_id: u128,
        sale_property_id: u128,
        down_payment: i64,
        installment_duration: i32,
        today: i64,
    ) -> (r: Result<SaleTransaction, AppError>)
        requires
            old(self).wf(),
        ensures
            final(self).wf(),
            final(self).properties@ == old(self).properties@,
            r is Err ==> *final(self) == *old(self),
            !old(self).available(sale_property_id) <==> r == Err::<SaleTransaction, AppError>(
                AppError::NotFound,
            ),
            (old(self).available(sale_property_id) && spec_mortgage(
                old(self).property_with_id(sale_property_id).property_price,
                down_payment,
                installment_duration,
            ) is None) <==> r == Err::<SaleTransaction, AppError>(AppError::InvalidInput),
            (old(self).available(sale_property_id) && spec_mortgage(
                old(self).property_with_id(sale_property_id).property_price,
                down_payment,
                installment_duration,
            ) is Some && old(self).has_transaction(txn_id)) <==> r == Err::<
                SaleTransaction,
                AppError,
            >(AppError::Internal),
            (old(self).available(sale_property_id) && spec_mortgage(
                old(self).property_with_id(sale_property_id).property_price,
                down_payment,
                installment_duration,
            ) is Some && !old(self).has_transaction(txn_id)) ==> r is Ok,
            old(self).at_most_one_active() ==> final(self).at_most_one_active(),
            r matches Ok(t) ==> {
                &&& old(self).available(sale_property_id)
                &&& !old(self).has_transaction(txn_id)
                &&& Some(t.monthly_mortgage) == spec_mortgage(
                    old(self).property_with_id(sale_property_id).property_price,
                    down_payment,
                    installment_duration,
                )
                &&& t == (SaleTransaction {
                    sale_transaction_id: txn_id,
                    sale_property_id,
                    user_id,
                    down_payment,
                    installment_duration,
                    monthly_mortgage: t.monthly_mortgage,
                    sale_date: today,
                    status: TxnStatus::Unpaid,
                })
                &&& final(self).transactions@ == old(self).transactions@.push(t)
            },
    {
        let property = match self.get_by_id(sale_property_id) {
            Err(_) => {
                return Err(AppError::NotFound);
            },
            Ok(p) => p,
        };
        let mortgage = match calculate_monthly_mortgage(
            property.property_price,
            down_payment,
            installment_duration,
        ) {
            None => {
                return Err(AppError::InvalidInput);
            },
            Some(v) => v,
        };
        if self.find_transaction_index(txn_id).is_some() {
            return Err(AppError::Internal);
        }
        let t = SaleTransaction {
            sale_transaction_id: txn_id,
            sale_property_id,
            user_id,
            down_payment,
            installment_duration,
            monthly_mortgage: mortgage,
            sale_date: today,
            status: TxnStatus::Unpaid,
        };
        let ghost before = self.transactions@;
        self.transactions.push(t);
        proof {
            assert(self.transactions@ == before.push(t));
            assert forall|i: int, j: int| 0 <= i < j < self.transactions@.len() implies (
            #[trigger] self.transactions@[i]).sale_transaction_id != (
            #[trigger] self.transactions@[j]).sale_transaction_id by {
                if j < before.len() {
                    assert(before[i].sale_transaction_id != before[j].sale_transaction_id);
                } else {
                    assert(self.transactions@[j] == t);
                    assert(self.transactions@[i] == before[i]);
                    if before[i].sale_transaction_id == t.sale_transaction_id {
                        assert(old(self).has_transaction(t.sale_transaction_id));
                    }
                }
            }
            if old(self).at_most_one_active() {
                assert forall|i: int, j: int|
                    0 <= i < j < self.transactions@.len() && sale_active(
                        #[trigger] self.transactions@[i],
                    ) && sale_active(#[trigger] self.transactions@[j]) implies
                    self.transactions@[i].sale_property_id
                        != self.transactions@[j].sale_property_id by {
                    if j < before.len() {
                        assert(sale_active(before[i]) && sale_active(before[j]));
                    } else {
                        assert(self.transactions@[j] == t);
                        assert(self.transactions@[i] == before[i]);
                        if before[i].sale_property_id == t.sale_property_id && sale_active(
                            before[i],
                        ) {
                            assert(old(self).excluded(t.sale_property_id));
                        }
                    }
                }
            }
        }
        Ok(t)
    }

    /// Record a purchase: re-check availability, derive the monthly
    /// mortgage from the listing's price, and insert an `Unpaid` purchase
    /// under a fresh identifier, dated `today`.
    pub fn book(
        &mut self,
        user_id: u128,
        sale_property_id: u128,
        down_payment: i64,
        installment_duration: i32,
        today: i64,
    ) -> (r: Result<SaleTransaction, AppError>)
        requires
            old(self).wf(),
        ensures
            final(self).wf(),
            final(self).properties@ == old(self).properties@,
            r is Err ==> *final(self) == *old(self),
            !old(self).available(sale_property_id) <==> r == Err::<SaleTransaction, AppError>(
                AppError::NotFound,
            ),
            (old(self).available(sale_property_id) && spec_mortgage(
                old(self).property_with_id(sale_property_id).property_price,
                down_payment,
                installment_duration,
            ) is None) <==> r == Err::<SaleTransaction, AppError>(AppError::InvalidInput),
            r matches Err(e) ==> (e == AppError::NotFound || e == AppError::InvalidInput || e
                == AppError::Internal),
            old(self).at_most_one_active() ==> final(self).at_most_one_active(),
            r matches Ok(t) ==> {
                &&& old(self).available(sale_property_id)
                &&& t.sale_property_id == sale_property_id
                &&& t.user_id == user_id
                &&& t.down_payment == down_payment
                &&& t.installment_duration == installment_duration
                &&& Some(t.monthly_mortgage) == spec_mortgage(
                    old(self).property_with_id(sale_property_id).property_price,
                    down_payment,
                    installment_duration,
                )
                &&& t.sale_date == today
                &&& t.status == TxnStatus::Unpaid
                &&& final(self).transactions@ == old(self).transactions@.push(t)
            },
    {
        let txn_id = new_id();
        self.book_with_id(
            txn_id,
            user_id,
            sale_property_id,
            down_payment,
            installment_duration,
            today,
        )
    }

    /// The position of the unique purchase with this identifier, or `None`.
    fn find_transaction_index(&self, tid: u128) -> (r: Option<usize>)
        requires
            self.wf(),
        ensures
            match r {
                Some(i) => self.has_transaction(tid) && i == self.txn_index(tid) && i
                    < self.transactions@.len(),
                None => !self.has_transaction(tid),
            },
    {
        let n = self.transactions.len();
        for i in 0..n
            invariant
                n == self.transactions@.len(),
                self.wf(),
                forall|j: int|
                    0 <= j < i ==> (#[trigger] self.transactions@[j]).sale_transaction_id != tid,
        {
            if self.transactions[i].sale_transaction_id == tid {
                proof {
                    assert(self.has_transaction(tid));
                    let j = self.txn_index(tid);
                    if j < i as int {
                        assert(self.transactions@[j].sale_transaction_id != self.transactions@[
                            i as int].sale_transaction_id);
                    } else if j > i as int {
                        assert(self.transactions@[i as int].sale_transaction_id
                            != self.transactions@[j].sale_transaction_id);
                    }
                }
                return Some(i);
            }
        }
        None
    }

    /// A purchase joined with its listing, gated by ownership: an unknown
    /// purchase (or one whose listing is gone, as under the join) is
    /// `NotFound`; someone else's purchase is `Forbidden`.
    pub fn get_transaction(&self, caller: u128, tid: u128) -> (r: Result<
        (SaleTransaction, SaleProperty),
        AppError,
    >)
        requires
            self.wf(),
        ensures
            match r {
                Ok((t, p)) => {
                    &&& self.has_transaction(tid)
                    &&& t == self.txn_with_id(tid)
                    &&& t.user_id == caller
                    &&& self.has_property(t.sale_property_id)
                    &&& p == self.property_with_id(t.sale_property_id)
                },
                Err(e) => {
                    ||| (e == AppError::NotFound && (!self.has_transaction(tid)
                        || !self.has_property(self.txn_with_id(tid).sale_property_id)))
                    ||| (e == AppError::Forbidden && self.has_transaction(tid)
                        && self.has_property(self.txn_with_id(tid).sale_property_id)
                        && self.txn_with_id(tid).user_id != caller)
                },
            },
    {
        let idx = match self.find_transaction_index(tid) {
            None => {
                return Err(AppError::NotFound);
            },
            Some(i) => i,
        };
        let t = self.transactions[idx];
        let p = match self.find_property(t.sale_property_id) {
            None => {
                return Err(AppError::NotFound);
            },
            Some(p) => p.clone(),
        };
        if t.user_id != caller {
            return Err(AppError::Forbidden);
        }
        Ok((t, p))
    }

    /// What `list_my_transactions` keeps: the caller's purchases whose
    /// listing still exists (the join drops the rest).
    pub open spec fn my_txn_pred(self, caller: u128) -> spec_fn(SaleTransaction) -> bool {
        |t: SaleTransaction| t.user_id == caller && self.has_property(t.sale_property_id)
    }

    /// The join of a purchase with its listing.
    pub open spec fn join_fn(self) -> spec_fn(SaleTransaction) -> (SaleTransaction, SaleProperty) {
        |t: SaleTransaction| (t, self.property_with_id(t.sale_property_id))
    }

    /// Every purchase of the caller, each joined with its listing, in table
    /// order. The filter enforces ownership; no separate check is needed.
    pub fn list_my_transactions(&self, caller: u128) -> (r: Vec<(SaleTransaction, SaleProperty)>)
        requires
            self.wf(),
        ensures
            r@ == self.transactions@.filter(self.my_txn_pred(caller)).map_values(self.join_fn()),
    {
        let mut out: Vec<(SaleTransaction, SaleProperty)> = Vec::new();
        let n = self.transactions.len();
        proof {
            reveal(Seq::filter);
            assert(self.transactions@.take(0) =~= Seq::<SaleTransaction>::empty());
            assert(self.transactions@.take(0).filter(self.my_txn_pred(caller)).map_values(
                self.join_fn(),
            ) =~= Seq::<(SaleTransaction, SaleProperty)>::empty());
        }
        for i in 0..n
            invariant
                n == self.transactions@.len(),
                self.wf(),
                out@ == self.transactions@.take(i as int).filter(self.my_txn_pred(caller)).map_values(
                    self.join_fn(),
                ),
        {
            let t = self.transactions[i];
            if t.user_id == caller {
                match self.find_property(t.sale_property_id) {
                    Some(p) => {
                        out.push((t, p.clone()));
                    },
                    None => {},
                }
            }
            proof {
                reveal(Seq::filter);
                let s = self.transactions@;
                let pred = self.my_txn_pred(caller);
                let f = self.join_fn();
                assert(s.take(i + 1).drop_last() =~= s.take(i as int));
                assert(s.take(i + 1).last() == s[i as int]);
                assert(s.take(i + 1).filter(pred) == if pred(s[i as int]) {
                    s.take(i as int).filter(pred).push(s[i as int])
                } else {
                    s.take(i as int).filter(pred)
                });
                if pred(s[i as int]) {
                    assert(s.take(i as int).filter(pred).push(s[i as int]).map_values(f)
                        =~= s.take(i as int).filter(pred).map_values(f).push(f(s[i as int])));
                }
            }
        }
        proof {
            assert(self.transactions@.take(n as int) =~= self.transactions@);
        }
        out
    }

    /// The payment action: flip the purchase to `Paid` and hand back the
    /// updated row — unless the caller does not own it, in which case the
    /// update is rolled back and nothing in the store changes. An unknown
    /// identifier is `NotFound`.
    pub fn pay(&mut self, caller: u128, tid: u128) -> (r: Result<SaleTransaction, AppError>)
        requires
            old(self).wf(),
        ensures
            final(self).wf(),
            final(self).properties@ == old(self).properties@,
            r is Err ==> *final(self) == *old(self),
            !old(self).has_transaction(tid) <==> r == Err::<SaleTransaction, AppError>(
                AppError::NotFound,
            ),
            (old(self).has_transaction(tid) && old(self).txn_with_id(tid).user_id != caller) <==> r
                == Err::<SaleTransaction, AppError>(AppError::Forbidden),
            (old(self).has_transaction(tid) && old(self).txn_with_id(tid).user_id == caller) ==> r
                is Ok,
            r matches Ok(t) ==> {
                &&& old(self).has_transaction(tid)
                &&& old(self).txn_with_id(tid).user_id == caller
                &&& t == (SaleTransaction {
                    sale_transaction_id: old(self).txn_with_id(tid).sale_transaction_id,
                    sale_property_id: old(self).txn_with_id(tid).sale_property_id,
                    user_id: old(self).txn_with_id(tid).user_id,
                    down_payment: old(self).txn_with_id(tid).down_payment,
                    installment_duration: old(self).txn_with_id(tid).installment_duration,
                    monthly_mortgage: old(self).txn_with_id(tid).monthly_mortgage,
                    sale_date: old(self).txn_with_id(tid).sale_date,
                    status: TxnStatus::Paid,
                })
                &&& final(self).transactions@ == old(self).transactions@.update(
                    old(self).txn_index(tid),
                    t,
                )
            },
    {
        let idx = match self.find_transaction_index(tid) {
            None => {
                return Err(AppError::NotFound);
            },
            Some(i) => i,
        };
        let t = self.transactions[idx];
        if t.user_id != caller {
            return Err(AppError::Forbidden);
        }
        let updated = SaleTransaction {
            sale_transaction_id: t.sale_transaction_id,
            sale_property_id: t.sale_property_id,
            user_id: t.user_id,
            down_payment: t.down_payment,
            installment_duration: t.installment_duration,
            monthly_mortgage: t.monthly_mortgage,
            sale_date: t.sale_date,
            status: TxnStatus::Paid,
        };
        self.transactions[idx] = updated;
        proof {
            assert forall|i: int, j: int| 0 <= i < j < self.transactions@.len() implies (
            #[trigger] self.transactions@[i]).sale_transaction_id != (
            #[trigger] self.transactions@[j]).sale_transaction_id by {
                assert(old(self).transactions@[i].sale_transaction_id != old(
                    self,
                ).transactions@[j].sale_transaction_id);
                assert(self.transactions@[i].sale_transaction_id == old(
                    self,
                ).transactions@[i].sale_transaction_id);
                assert(self.transactions@[j].sale_transaction_id == old(
                    self,
                ).transactions@[j].sale_transaction_id);
            }
        }
        Ok(updated)
    }
}

/// A listing hidden by an open purchase: any non-cancelled purchase keeps
/// its property out of `list_available` (no returned listing carries its
/// property identifier) and marks it excluded, so `get_by_id` answers
/// `NotFound` for it — with no time bound.
pub proof fn lemma_active_sale_claims_property(store: SaleStore, t: SaleTransaction, i: int)
    requires
        store.transactions@.contains(t),
        sale_active(t),
        0 <= i < store.properties@.filter(store.avail_pred()).len(),
    ensures
        store.excluded(t.sale_property_id),
        store.properties@.filter(store.avail_pred())[i].sale_property_id != t.sale_property_id,
{
    let k = choose|k: int| 0 <= k < store.transactions@.len() && store.transactions@[k] == t;
    assert((#[trigger] store.transactions@[k]).sale_property_id == t.sale_property_id
        && sale_active(store.transactions@[k]));
    store.properties@.lemma_filter_pred(store.avail_pred(), i);
}

} // verus!
