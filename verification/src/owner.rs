//! Property owners: immutable reference data that listings point at.

use vstd::prelude::*;
use crate::errors::AppError;

verus! {

/// An owner row.
#[derive(Debug)]
pub struct Owner {
    pub owner_id: u128,
    pub owner_name: String,
    pub address: String,
    pub email: String,
}

impl Clone for Owner {
    fn clone(&self) -> (r: Self)
        ensures
            r == *self,
    {
        Owner {
            owner_id: self.owner_id,
            owner_name: self.owner_name.clone(),
            address: self.address.clone(),
            email: self.email.clone(),
        }
    }
}

/// The owner table.
pub struct OwnerStore {
    pub owners: Vec<Owner>,
}

impl OwnerStore {
    /// Row identifiers are unique.
    pub open spec fn wf(self) -> bool {
        forall|i: int, j: int|
            0 <= i < j < self.owners@.len() ==> (#[trigger] self.owners@[i]).owner_id != (
            #[trigger] self.owners@[j]).owner_id
    }

    pub open spec fn has_owner(self, id: u128) -> bool {
        exists|i: int| 0 <= i < self.owners@.len() && (#[trigger] self.owners@[i]).owner_id == id
    }

    /// The unique row with this identifier, where one exists.
    pub open spec fn owner_with_id(self, id: u128) -> Owner {
        self.owners@[choose|i: int|
            0 <= i < self.owners@.len() && (#[trigger] self.owners@[i]).owner_id == id]
    }

    pub fn new() -> (r: Self)
        ensures
            r.owners@ =~= Seq::<Owner>::empty(),
            r.wf(),
    {
        OwnerStore { owners: Vec::new() }
    }

    fn owner_id_exists(&self, id: u128) -> (r: bool)
        ensures
            r == self.has_owner(id),
    {
        let n = self.owners.len();
        for i in 0..n
            invariant
                n == self.owners@.len(),
                forall|j: int| 0 <= j < i ==> (#[trigger] self.owners@[j]).owner_id != id,
        {
            if self.owners[i].owner_id == id {
                return true;
            }
        }
        false
    }

    /// Seed a row. A stale identifier is an `Internal` failure and the
    /// table is untouched.
    pub fn add(&mut self, owner: Owner) -> (r: Result<(), AppError>)
        requires
            old(self).wf(),
        ensures
            final(self).wf(),
            r is Err ==> *final(self) == *old(self),
            old(self).has_owner(owner.owner_id) <==> r == Err::<(), AppError>(AppError::Internal),
            !old(self).has_owner(owner.owner_id) ==> r is Ok,
            r is Ok ==> final(self).owners@ == old(self).owners@.push(owner),
    {
        if self.owner_id_exists(owner.owner_id) {
            return Err(AppError::Internal);
        }
        let ghost before = self.owners@;
        let ghost new_row = owner;
        self.owners.push(owner);
        proof {
            assert(self.owners@ == before.push(new_row));
            assert forall|i: int, j: int| 0 <= i < j < self.owners@.len() implies (
            #[trigger] self.owners@[i]).owner_id != (#[trigger] self.owners@[j]).owner_id by {
                if j < before.len() {
                    assert(before[i].owner_id != before[j].owner_id);
                } else {
                    assert(self.owners@[j] == new_row);
                    assert(self.owners@[i] == before[i]);
                    if before[i].owner_id == new_row.owner_id {
                        assert(old(self).has_owner(new_row.owner_id));
                    }
                }
            }
        }
        Ok(())
    }

    /// Every owner, in table order.
    pub fn list(&self) -> (r: Vec<Owner>)
        ensures
            r@ == self.owners@,
    {
        let mut out: Vec<Owner> = Vec::new();
        let n = self.owners.len();
        for i in 0..n
            invariant
                n == self.owners@.len(),
                out@ == self.owners@.take(i as int),
        {
            out.push(self.owners[i].clone());
            proof {
                assert(self.owners@.take(i + 1) =~= self.owners@.take(i as int).push(
                    self.owners@[i as int],
                ));
            }
        }
        proof {
            assert(self.owners@.take(n as int) =~= self.owners@);
        }
        out
    }

    /// The unique row with this identifier, or `None`. The HTTP layer
    /// reports a missing owner as a plain storage failure, so no error
    /// class is picked here.
    pub fn get_by_id(&self, id: u128) -> (r: Option<Owner>)
        requires
            self.wf(),
        ensures
            match r {
                Some(o) => self.has_owner(id) && o == self.owner_with_id(id),
                None => !self.has_owner(id),
            },
    {
        let n = self.owners.len();
        for i in 0..n
            invariant
                n == self.owners@.len(),
                self.wf(),
                forall|j: int| 0 <= j < i ==> (#[trigger] self.owners@[j]).owner_id != id,
        {
            if self.owners[i].owner_id == id {
                proof {
                    assert(self.has_owner(id));
                    let j = choose|j: int|
                        0 <= j < self.owners@.len() && (#[trigger] self.owners@[j]).owner_id == id;
                    if j < i as int {
                        assert(self.owners@[j].owner_id != self.owners@[i as int].owner_id);
                    } else if j > i as int {
                        assert(self.owners@[i as int].owner_id != self.owners@[j].owner_id);
                    }
                }
                return Some(self.owners[i].clone());
            }
        }
        None
    }
}

} // verus!
