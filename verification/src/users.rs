//! User account records and the pure account rules: name uniqueness,
//! pagination, and the query text used by the user listing.

use vstd::prelude::*;
use vstd::string::{StrSliceExecFns, StringExecFns};

use crate::ids::new_uuid_string;
use crate::passwords::{hash_password, password_error_text, password_verifies, valid_password_hash};
use crate::strutil::str_eq;

verus! {

/// A stored user as handed back to clients: no password material.
#[derive(Debug)]
pub struct User {
    pub user_id: String,
    pub user_name: String,
    pub email: String,
}

impl Clone for User {
    fn clone(&self) -> (r: Self)
        ensures
            r == *self,
    {
        User {
            user_id: self.user_id.clone(),
            user_name: self.user_name.clone(),
            email: self.email.clone(),
        }
    }
}

/// A registration request: the password still in the clear.
#[derive(Debug)]
pub struct NewUser {
    pub user_name: String,
    pub email: String,
    pub password: String,
}

impl NewUser {
    pub fn new(user_name: String, email: String, password: String) -> (r: NewUser)
        ensures
            r.user_name == user_name,
            r.email == email,
            r.password == password,
    {
        NewUser { user_name, email, password }
    }
}

/// One page of users.
#[derive(Debug)]
pub struct UserResponse {
    pub page: i32,
    pub data: Vec<User>,
}

/// The context against which a new user name is checked.
pub struct UserContext {
    pub user_name: String,
}

/// An error carrying a plain message.
#[derive(Debug)]
pub struct MsgError(pub String);

impl Clone for MsgError {
    fn clone(&self) -> (r: Self)
        ensures
            r == *self,
    {
        MsgError(self.0.clone())
    }
}

/// A registration is refused exactly when the requested name equals the name
/// already present in the context.
pub fn unique_name(user: &NewUser, context: &UserContext) -> (r: Result<(), MsgError>)
    ensures
        r is Err <==> user.user_name@ == context.user_name@,
        r matches Err(e) ==> (e.0@ == "cannot register using user name "@ + user.user_name@
            + ", user name already exists"@),
{
    if str_eq(user.user_name.as_str(), context.user_name.as_str()) {
        let mut msg = String::from_str("cannot register using user name ");
        msg.append(user.user_name.as_str());
        msg.append(", user name already exists");
        Err(MsgError(msg))
    } else {
        Ok(())
    }
}

/// Builds the stored form of a new account: a fresh identifier, and the
/// password hashed so that the hash verifies exactly the password given.
/// The record handed back carries no password material.
pub fn prepare_user(new_user: NewUser) -> (r: Result<(User, String), MsgError>)
    ensures
        r matches Ok(p) ==> (p.0.user_name == new_user.user_name && p.0.email == new_user.email
            && p.0.user_id@.len() == 36 && valid_password_hash(p.1@) && password_verifies(
            p.1@,
            new_user.password@,
        )),
{
    let uid = new_uuid_string();
    let hash = match hash_password(new_user.password.clone()) {
        Ok(h) => h,
        Err(e) => {
            let mut msg = String::from_str("Failed to hash password: ");
            let text = password_error_text(&e);
            msg.append(text.as_str());
            return Err(MsgError(msg));
        },
    };
    Ok((User { user_id: uid, user_name: new_user.user_name, email: new_user.email }, hash))
}

/// The row offset of a one-based page of ten users; pages at or below zero
/// start from the first row.
pub fn page_offset(page: i32) -> (r: i32)
    requires
        page <= 214748364,
    ensures
        r == if page > 0 {
            (page - 1) * 10
        } else {
            0
        },
{
    if page > 0 {
        (page - 1) * 10
    } else {
        0
    }
}

/// The SQL text of the user listing, with or without a name filter.
pub fn users_query_sql(filter_by_name: bool) -> (r: String)
    ensures
        filter_by_name ==> r@ ==
            "select user_id, user_name, email from users where user_name like $1 order by user_name desc limit 10 offset $2"@,
        !filter_by_name ==> r@ ==
            "select user_id, user_name, email from users order by user_name desc limit 10 offset $1"@,
{
    if filter_by_name {
        String::from_str(
            "select user_id, user_name, email from users where user_name like $1 order by user_name desc limit 10 offset $2",
        )
    } else {
        String::from_str(
            "select user_id, user_name, email from users order by user_name desc limit 10 offset $1",
        )
    }
}

/// The `like` pattern that matches any name containing the given text.
pub fn like_pattern(user_name: &str) -> (r: String)
    ensures
        r@ == "%"@ + user_name@ + "%"@,
{
    let mut s = String::from_str("%");
    s.append(user_name);
    s.append("%");
    proof {
        assert(s@ =~= "%"@ + user_name@ + "%"@);
    }
    s
}

} // verus!
