//! The relay's account records, as the logic reads them.

use vstd::prelude::*;

verus! {

/// A registered account: the Google account id, its e-mail address and
/// the chosen username.
pub struct User {
    pub id: String,
    pub email: String,
    pub username: String,
}

/// The fields of a new account.
pub struct NewUser {
    pub id: String,
    pub email: String,
    pub username: String,
}

/// A session token stored for an account.
pub struct UserToken {
    pub user_id: String,
    pub token: String,
}

/// A session token to be stored for an account.
pub struct NewUserToken {
    pub user_id: String,
    pub token: String,
}

} // verus!
