//! Response envelopes of the HTTP handlers, and the pure outcome rules that
//! turn a storage or lookup result into the response each handler owes.
//! The handlers themselves only perform the I/O around these.

use vstd::prelude::*;
use vstd::string::{StrSliceExecFns, StringExecFns};

use crate::users::{MsgError, User, UserResponse};

verus! {

/// Status code and message of a response.
#[derive(Debug)]
pub struct MetaResponse {
    pub code: i32,
    pub message: String,
}

/// Response to a successful registration or login.
#[derive(Debug)]
pub struct AuthResponse {
    pub meta: MetaResponse,
    pub data: User,
    pub access_token: Option<String>,
    pub refresh_token: Option<String>,
}

/// Response to the user listing.
#[derive(Debug)]
pub struct UsersResponse {
    pub meta: MetaResponse,
    pub data: UserResponse,
}

/// Login form contents.
#[derive(Debug)]
pub struct LoginParam {
    pub user_name: String,
    pub password: String,
}

/// Password-change form contents.
#[derive(Debug)]
pub struct UpdatePasswordParam {
    pub password: String,
}

/// Query parameters of the user listing.
#[derive(Debug)]
pub struct GetUsersQuery {
    pub page: i32,
    pub user_name: Option<String>,
}

/// The response owed for a registration attempt: success carries the stored
/// user and both tokens; failure reports the storage error.
pub fn register_outcome(
    result: Result<User, MsgError>,
    access_token: Option<String>,
    refresh_token: Option<String>,
) -> (r: Result<AuthResponse, MetaResponse>)
    ensures
        result matches Ok(u) ==> (r matches Ok(a) && a.meta.code == 200 && a.meta.message@
            == "Success"@ && a.data == u && a.access_token == access_token && a.refresh_token
            == refresh_token),
        result matches Err(e) ==> (r matches Err(m) && m.code == 400 && m.message@
            == "Failed to register: "@ + e.0@),
{
    match result {
        Ok(u) => Ok(
            AuthResponse {
                meta: MetaResponse { code: 200, message: String::from_str("Success") },
                data: u,
                access_token,
                refresh_token,
            },
        ),
        Err(e) => {
            let mut msg = String::from_str("Failed to register: ");
            msg.append(e.0.as_str());
            Err(MetaResponse { code: 400, message: msg })
        },
    }
}

/// The response owed for a login attempt: an unknown name is refused; a
/// found account is answered with its record and both tokens.
pub fn login_outcome(
    found: Option<User>,
    access_token: Option<String>,
    refresh_token: Option<String>,
) -> (r: Result<AuthResponse, MetaResponse>)
    ensures
        found matches Some(u) ==> (r matches Ok(a) && a.meta.code == 200 && a.meta.message@
            == "Success"@ && a.data == u && a.access_token == access_token && a.refresh_token
            == refresh_token),
        found is None ==> (r matches Err(m) && m.code == 404 && m.message@
            == "Invalid user name or password"@),
{
    match found {
        Some(u) => Ok(
            AuthResponse {
                meta: MetaResponse { code: 200, message: String::from_str("Success") },
                data: u,
                access_token,
                refresh_token,
            },
        ),
        None => Err(
            MetaResponse {
                code: 404,
                message: String::from_str("Invalid user name or password"),
            },
        ),
    }
}

/// The response owed for a user listing.
pub fn users_outcome(result: Result<UserResponse, MsgError>) -> (r: Result<
    UsersResponse,
    MetaResponse,
>)
    ensures
        result matches Ok(u) ==> (r matches Ok(a) && a.meta.code == 200 && a.meta.message@
            == "Success"@ && a.data == u),
        result matches Err(e) ==> (r matches Err(m) && m.code == 400 && m.message@ == e.0@),
{
    match result {
        Ok(u) => Ok(
            UsersResponse {
                meta: MetaResponse { code: 200, message: String::from_str("Success") },
                data: u,
            },
        ),
        Err(e) => Err(MetaResponse { code: 400, message: e.0 }),
    }
}

/// The response owed for a password change.
pub fn update_password_outcome(result: Result<bool, MsgError>) -> (r: MetaResponse)
    ensures
        result is Ok ==> (r.code == 200 && r.message@ == "Success"@),
        result matches Err(e) ==> (r.code == 400 && r.message@ == e.0@),
{
    match result {
        Ok(_) => MetaResponse { code: 200, message: String::from_str("Success") },
        Err(e) => MetaResponse { code: 400, message: e.0 },
    }
}

/// The response owed for an account deletion.
pub fn delete_user_outcome(result: Result<bool, MsgError>) -> (r: MetaResponse)
    ensures
        result is Ok ==> (r.code == 200 && r.message@ == "Success"@),
        result matches Err(e) ==> (r.code == 400 && r.message@ == e.0@),
{
    match result {
        Ok(_) => MetaResponse { code: 200, message: String::from_str("Success") },
        Err(e) => MetaResponse { code: 400, message: e.0 },
    }
}

} // verus!
