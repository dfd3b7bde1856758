//! The response envelope shared by every endpoint, and the session record
//! that binds an opaque token to an authenticated user.

use vstd::prelude::*;
use crate::clock::now_seconds;
use crate::user::UserData;

verus! {

/// The payment lifecycle of a transaction: `Unpaid` on creation, `Paid`
/// after the payment action, `Cancelled` reserved by the status domain.
#[derive(Clone, Copy, Debug, PartialEq, Eq, Structural)]
pub enum TxnStatus {
    Unpaid,
    Paid,
    Cancelled,
}

/// The envelope every endpoint answers with.
#[derive(Debug)]
pub struct ApiResponse<T> {
    pub success: bool,
    pub message: String,
    pub data: Option<T>,
    pub error: Option<String>,
}

impl<T> ApiResponse<T> {
    pub fn new(success: bool, message: String, data: Option<T>, error: Option<String>) -> (r: Self)
        ensures
            r.success == success,
            r.message == message,
            r.data == data,
            r.error == error,
    {
        ApiResponse { success, message, data, error }
    }
}

/// A server-side session: an opaque token bound to the public projection of
/// a user, with the time of the last authenticated request.
#[derive(Debug)]
pub struct Session {
    pub session_id: u128,
    pub user_data: UserData,
    /// Unix seconds of the last authenticated request through this session.
    pub last_active: i64,
}

impl Clone for Session {
    fn clone(&self) -> (r: Self)
        ensures
            r == *self,
    {
        Session {
            session_id: self.session_id,
            user_data: self.user_data.clone(),
            last_active: self.last_active,
        }
    }
}

impl Session {
    /// A session stamped with the current wall-clock time. The timestamp is
    /// whatever the clock returned; `with_time` pins it instead.
    pub fn new(session_id: u128, user_data: UserData) -> (r: Self)
        ensures
            r.session_id == session_id,
            r.user_data == user_data,
    {
        let last_active = now_seconds();
        Session { session_id, user_data, last_active }
    }

    /// A session with every field given, the form the verified logic builds.
    pub fn with_time(session_id: u128, user_data: UserData, last_active: i64) -> (r: Self)
        ensures
            r == (Session { session_id, user_data, last_active }),
    {
        Session { session_id, user_data, last_active }
    }
}

} // verus!
