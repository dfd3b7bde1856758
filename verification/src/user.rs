//! User accounts: registration with a salted adaptive password hash, and
//! login, which checks the credentials and mints a session.

use vstd::prelude::*;
use crate::errors::AppError;
use crate::ids::new_id;
use crate::clock::now_seconds;
use crate::models::Session;
use crate::session::SessionStore;

verus! {

/// A stored account row, password hash included.
#[derive(Debug)]
pub struct User {
    pub user_id: u128,
    pub full_name: String,
    pub email_address: String,
    pub address: String,
    /// The bcrypt hash of the account's password, never the password itself.
    pub password: String,
}

/// The public projection of a `User`: what is returned to clients and
/// embedded in sessions. No password hash.
#[derive(Debug)]
pub struct UserData {
    pub user_id: u128,
    pub full_name: String,
    pub email_address: String,
    pub address: String,
}

impl Clone for User {
    fn clone(&self) -> (r: Self)
        ensures
            r == *self,
    {
        User {
            user_id: self.user_id,
            full_name: self.full_name.clone(),
            email_address: self.email_address.clone(),
            address: self.address.clone(),
            password: self.password.clone(),
        }
    }
}

impl Clone for UserData {
    fn clone(&self) -> (r: Self)
        ensures
            r == *self,
    {
        UserData {
            user_id: self.user_id,
            full_name: self.full_name.clone(),
            email_address: self.email_address.clone(),
            address: self.address.clone(),
        }
    }
}

/// The projection that `UserData::from` performs: drop the password hash.
pub open spec fn spec_user_data_of(user: User) -> UserData {
    UserData {
        user_id: user.user_id,
        full_name: user.full_name,
        email_address: user.email_address,
        address: user.address,
    }
}

impl From<User> for UserData {
    fn from(user: User) -> (r: UserData) {
        UserData {
            user_id: user.user_id,
            full_name: user.full_name,
            email_address: user.email_address,
            address: user.address,
        }
    }
}

impl vstd::std_specs::convert::FromSpecImpl<User> for UserData {
    open spec fn obeys_from_spec() -> bool {
        true
    }

    open spec fn from_spec(user: User) -> UserData {
        spec_user_data_of(user)
    }
}

/// Whether bcrypt's check accepts the stored hash as derived from the
/// password. Deterministic in the two strings alone: the salt and cost sit
/// inside the hash string.
pub uninterp spec fn bcrypt_accepts(password: Seq<char>, hash: Seq<char>) -> bool;

/// Whether bcrypt's check can process a stored hash at all: the 60-byte
/// bcrypt format with an allowed cost. A function of the hash string alone;
/// the password plays no part in whether the check runs, only in its
/// verdict.
pub uninterp spec fn bcrypt_well_formed(hash: Seq<char>) -> bool;

/// Relies on `bcrypt::hash` with `bcrypt::DEFAULT_COST`: on success the
/// returned string is a well-formed bcrypt hash embedding the salt and
/// cost, and `bcrypt::verify` accepts it for the same password.
#[verifier::external_body]
pub(crate) fn hash_password(password: &str) -> (r: Option<String>)
    ensures
        r matches Some(h) ==> bcrypt_accepts(password@, h@) && bcrypt_well_formed(h@),
{
    bcrypt::hash(password, bcrypt::DEFAULT_COST).ok()
}

/// Relies on `bcrypt::verify`: deterministic in the password and the hash
/// string; it fails exactly on a hash it cannot parse, and its verdict on a
/// well-formed hash is whether the hash was derived from the password.
#[verifier::external_body]
pub(crate) fn check_password(password: &str, hash: &str) -> (r: Option<bool>)
    ensures
        r is Some <==> bcrypt_well_formed(hash@),
        r matches Some(b) ==> b == bcrypt_accepts(password@, hash@),
{
    bcrypt::verify(password, hash).ok()
}

/// The account table: rows with unique identifiers and unique emails.
pub struct UserStore {
    pub users: Vec<User>,
}

impl UserStore {
    /// Row identifiers and email addresses are unique.
    pub open spec fn wf(self) -> bool {
        forall|i: int, j: int|
            0 <= i < j < self.users@.len() ==> (#[trigger] self.users@[i]).user_id != (
            #[trigger] self.users@[j]).user_id && self.users@[i].email_address@
                != self.users@[j].email_address@
    }

    pub open spec fn email_taken(self, email: Seq<char>) -> bool {
        exists|i: int|
            0 <= i < self.users@.len() && (#[trigger] self.users@[i]).email_address@ == email
    }

    pub open spec fn id_taken(self, id: u128) -> bool {
        exists|i: int| 0 <= i < self.users@.len() && (#[trigger] self.users@[i]).user_id == id
    }

    /// The unique row with this email, where one exists.
    pub open spec fn user_with_email(self, email: Seq<char>) -> User {
        self.users@[choose|i: int|
            0 <= i < self.users@.len() && (#[trigger] self.users@[i]).email_address@ == email]
    }

    pub fn new() -> (r: Self)
        ensures
            r.users@ =~= Seq::<User>::empty(),
            r.wf(),
    {
        UserStore { users: Vec::new() }
    }

    /// The unique row with this email, or `None`.
    pub fn find_by_email(&self, email: &String) -> (r: Option<&User>)
        requires
            self.wf(),
        ensures
            match r {
                Some(u) => self.email_taken(email@) && *u == self.user_with_email(email@),
                None => !self.email_taken(email@),
            },
    {
        let n = self.users.len();
        for i in 0..n
            invariant
                n == self.users@.len(),
                self.wf(),
                forall|j: int| 0 <= j < i ==> (#[trigger] self.users@[j]).email_address@ != email@,
        {
            if self.users[i].email_address.eq(email) {
                proof {
                    assert(self.email_taken(email@));
                    let j = choose|j: int|
                        0 <= j < self.users@.len() && (#[trigger] self.users@[j]).email_address@
                            == email@;
                    if j < i as int {
                        assert(self.users@[j].email_address@ != self.users@[i as int].email_address@);
                    } else if j > i as int {
                        assert(self.users@[i as int].email_address@ != self.users@[j].email_address@);
                    }
                }
                return Some(&self.users[i]);
            }
        }
        None
    }

    fn email_exists(&self, email: &String) -> (r: bool)
        ensures
            r == self.email_taken(email@),
    {
        let n = self.users.len();
        for i in 0..n
            invariant
                n == self.users@.len(),
                forall|j: int| 0 <= j < i ==> (#[trigger] self.users@[j]).email_address@ != email@,
        {
            if self.users[i].email_address.eq(email) {
                return true;
            }
        }
        false
    }

    fn id_exists(&self, id: u128) -> (r: bool)
        ensures
            r == self.id_taken(id),
    {
        let n = self.users.len();
        for i in 0..n
            invariant
                n == self.users@.len(),
                forall|j: int| 0 <= j < i ==> (#[trigger] self.users@[j]).user_id != id,
        {
            if self.users[i].user_id == id {
                return true;
            }
        }
        false
    }

    /// Insert a row whose password hash and identifier are already fixed.
    /// Exactly when the email is free and the identifier fresh, the row goes
    /// in; a taken email is a `Conflict`, a stale identifier an `Internal`
    /// failure, and either way the table is untouched.
    pub fn register_record(
        &mut self,
        full_name: String,
        email_address: String,
        address: String,
        password_hash: String,
        user_id: u128,
    ) -> (r: Result<UserData, AppError>)
        requires
            old(self).wf(),
        ensures
            final(self).wf(),
            r is Err ==> *final(self) == *old(self),
            old(self).email_taken(email_address@) <==> r == Err::<UserData, AppError>(AppError::Conflict),
            !old(self).email_taken(email_address@) && old(self).id_taken(user_id) <==> r == Err::<UserData, AppError>(
                AppError::Internal,
            ),
            !old(self).email_taken(email_address@) && !old(self).id_taken(user_id) ==> r is Ok,
            r matches Ok(u) ==> {
                &&& !old(self).email_taken(email_address@)
                &&& !old(self).id_taken(user_id)
                &&& final(self).users@ == old(self).users@.push(
                    User { user_id, full_name, email_address, address, password: password_hash },
                )
                &&& u == (UserData { user_id, full_name, email_address, address })
            },
    {
        if self.email_exists(&email_address) {
            return Err(AppError::Conflict);
        }
        if self.id_exists(user_id) {
            return Err(AppError::Internal);
        }
        let data = UserData {
            user_id,
            full_name: full_name.clone(),
            email_address: email_address.clone(),
            address: address.clone(),
        };
        let row = User { user_id, full_name, email_address, address, password: password_hash };
        let ghost before = self.users@;
        let ghost new_row = row;
        self.users.push(row);
        proof {
            assert(self.users@ == before.push(new_row));
            assert forall|i: int, j: int| 0 <= i < j < self.users@.len() implies (
            #[trigger] self.users@[i]).user_id != (#[trigger] self.users@[j]).user_id
                && self.users@[i].email_address@ != self.users@[j].email_address@ by {
                if j < before.len() {
                    assert(before[i].user_id != before[j].user_id && before[i].email_address@
                        != before[j].email_address@);
                } else {
                    assert(self.users@[j] == new_row);
                    assert(self.users@[i] == before[i]);
                    if before[i].email_address@ == new_row.email_address@ {
                        assert(old(self).email_taken(new_row.email_address@));
                    }
                    if before[i].user_id == new_row.user_id {
                        assert(old(self).id_taken(new_row.user_id));
                    }
                }
            }
        }
        Ok(data)
    }

    /// Register a new account: a taken email is a `Conflict`, exactly;
    /// otherwise the password is hashed, a fresh identifier drawn, and the
    /// row inserted. Every failure leaves the table untouched.
    pub fn register(
        &mut self,
        full_name: String,
        email_address: String,
        address: String,
        password: String,
    ) -> (r: Result<UserData, AppError>)
        requires
            old(self).wf(),
        ensures
            final(self).wf(),
            r is Err ==> *final(self) == *old(self),
            r matches Err(e) ==> (e == AppError::Conflict || e == AppError::Internal),
            old(self).email_taken(email_address@) <==> r == Err::<UserData, AppError>(
                AppError::Conflict,
            ),
            r matches Ok(u) ==> {
                let row = final(self).users@.last();
                &&& !old(self).email_taken(email_address@)
                &&& final(self).users@ == old(self).users@.push(row)
                &&& bcrypt_accepts(password@, row.password@)
                &&& bcrypt_well_formed(row.password@)
                &&& row.user_id == u.user_id
                &&& row.full_name == full_name
                &&& row.email_address == email_address
                &&& row.address == address
                &&& u == spec_user_data_of(row)
            },
    {
        if self.email_exists(&email_address) {
            return Err(AppError::Conflict);
        }
        let pass_hash = match hash_password(password.as_str()) {
            Some(h) => h,
            None => {
                return Err(AppError::Internal);
            },
        };
        let user_id = new_id();
        let r = self.register_record(full_name, email_address, address, pass_hash, user_id);
        r
    }
}

/// Log in: look the account up by email, check the password against the
/// stored hash, and on success mint a new random token, stamp it with the
/// current time and store the session. A wrong email and a wrong password
/// fail alike, telling the caller nothing about which part was wrong; only
/// a stored hash that bcrypt cannot parse (which `register` never writes)
/// is a distinct internal failure.
pub fn login(
    users: &UserStore,
    sessions: &mut SessionStore,
    email_address: &String,
    password: &str,
) -> (r: Result<Session, AppError>)
    requires
        users.wf(),
    ensures
        r is Err ==> final(sessions).sessions@ == old(sessions).sessions@,
        r matches Err(e) ==> (e == AppError::Unauthorized || e == AppError::Internal),
        !users.email_taken(email_address@) ==> r == Err::<Session, AppError>(AppError::Unauthorized),
        (users.email_taken(email_address@) && !bcrypt_well_formed(
            users.user_with_email(email_address@).password@,
        )) <==> r == Err::<Session, AppError>(AppError::Internal),
        users.email_taken(email_address@) && bcrypt_well_formed(
            users.user_with_email(email_address@).password@,
        ) && !bcrypt_accepts(password@, users.user_with_email(email_address@).password@) ==> r
            == Err::<Session, AppError>(AppError::Unauthorized),
        users.email_taken(email_address@) && bcrypt_well_formed(
            users.user_with_email(email_address@).password@,
        ) && bcrypt_accepts(password@, users.user_with_email(email_address@).password@) ==> r is Ok,
        r matches Ok(s) ==> {
            &&& users.email_taken(email_address@)
            &&& bcrypt_accepts(password@, users.user_with_email(email_address@).password@)
            &&& s.user_data == spec_user_data_of(users.user_with_email(email_address@))
            &&& final(sessions).sessions@ == old(sessions).sessions@.insert(s.session_id, s)
        },
{
    let user = match users.find_by_email(email_address) {
        None => {
            return Err(AppError::Unauthorized);
        },
        Some(u) => u,
    };
    let ok = match check_password(password, user.password.as_str()) {
        None => {
            return Err(AppError::Internal);
        },
        Some(b) => b,
    };
    if !ok {
        return Err(AppError::Unauthorized);
    }
    let token = new_id();
    let now = now_seconds();
    let data = UserData::from(user.clone());
    Ok(sessions.establish(token, data, now))
}

} // verus!
