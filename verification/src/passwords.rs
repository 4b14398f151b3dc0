//! Password hashing and verification through argon2, and random display
//! names. The hashing itself stays in the outside crate: its results are
//! named by `valid_password_hash` and `password_verifies`, both functions
//! of their text arguments alone, and the rules built on top — when a
//! password change is allowed, what a fresh hash guarantees — are verified
//! against those names.

use vstd::prelude::*;
use vstd::string::StringExecFns;

use argon2::{Argon2, PasswordHasher, PasswordVerifier};

use crate::strutil::{push_char, spec_starts_with};
use crate::users::MsgError;

verus! {

#[verifier::external_type_specification]
#[verifier::external_body]
pub struct ExPasswordHashError(argon2::password_hash::Error);

#[verifier::external_type_specification]
#[verifier::external_body]
pub struct ExPasswordHash(argon2::PasswordHash);

/// Whether argon2's PHC-string parser accepts this text as a password hash
/// that carries a hash output. A function of the text alone.
pub uninterp spec fn valid_password_hash(hash: Seq<char>) -> bool;

/// Whether argon2 accepts this password against this PHC hash string:
/// parsing the string and verifying the password both succeed. A function
/// of the two texts alone.
pub uninterp spec fn password_verifies(hash: Seq<char>, password: Seq<char>) -> bool;

/// Relies on argon2's `hash_password` with default parameters and a fresh
/// random salt: a successful result renders as a PHC string that parses
/// back and verifies exactly the password that was hashed. The salt is
/// drawn anew on every call, so nothing more is stated of the text itself.
#[verifier::external_body]
pub fn hash_password(pwd: String) -> (r: Result<String, argon2::password_hash::Error>)
    ensures
        r matches Ok(h) ==> valid_password_hash(h@) && password_verifies(h@, pwd@),
{
    let argon2 = Argon2::default();
    let password_hash = argon2.hash_password(pwd.as_bytes())?;
    Ok(password_hash.to_string())
}

/// Relies on argon2's `PasswordHash::new`, named by `valid_password_hash`:
/// parses the PHC string, refusing it also when it carries no hash output.
#[verifier::external_body]
pub fn parse_password(parse_pwd: &str) -> (r: Result<
    argon2::PasswordHash,
    argon2::password_hash::Error,
>)
    ensures
        r is Ok <==> valid_password_hash(parse_pwd@),
{
    let parse_hash = argon2::PasswordHash::new(parse_pwd)?;
    if parse_hash.hash.is_none() {
        return Err(argon2::password_hash::Error::PasswordInvalid);
    }
    Ok(parse_hash)
}

/// Relies on argon2's `verify_password` against a PHC string, named by
/// `password_verifies`: the outcome depends on the hash text and the
/// password alone.
#[verifier::external_body]
fn verify_password_str(hash: &str, password: &str) -> (r: bool)
    ensures
        r == password_verifies(hash@, password@),
{
    Argon2::default().verify_password(password.as_bytes(), hash).is_ok()
}

/// Relies on std's `Display` rendering of argon2's error; the text is only
/// carried into a message, nothing is stated of it.
#[verifier::external_body]
pub(crate) fn password_error_text(e: &argon2::password_hash::Error) -> String {
    format!("{}", e)
}

/// Whether a password matches a stored hash; a hash that does not parse is
/// an error carrying the parse failure, not a mismatch.
pub fn passwords_match(pwd: &str, new_pwd: &str) -> (r: Result<bool, MsgError>)
    ensures
        valid_password_hash(pwd@) ==> (r matches Ok(b) && b == password_verifies(pwd@, new_pwd@)),
        !valid_password_hash(pwd@) ==> (r matches Err(e) && spec_starts_with(
            e.0@,
            "Failed to parse password hash: "@,
        )),
{
    match parse_password(pwd) {
        Ok(_) => Ok(verify_password_str(pwd, new_pwd)),
        Err(e) => {
            let mut msg = String::from_str("Failed to parse password hash: ");
            let text = password_error_text(&e);
            msg.append(text.as_str());
            proof {
                assert(msg@.subrange(0, "Failed to parse password hash: "@.len() as int)
                    =~= "Failed to parse password hash: "@);
            }
            Err(MsgError(msg))
        },
    }
}

/// Decides a password change against the stored hash: the stored hash
/// must parse, the new password must differ from the current one, and an
/// accepted password is hashed anew. The same-password refusal arises
/// exactly when the new password still verifies against the stored hash;
/// with a parsing stored hash and a genuinely new password, the only
/// failure left is the hasher's own, and it is reported as such.
pub fn new_password(current_hash: &str, new_pwd: &str) -> (r: Result<(String, bool), MsgError>)
    ensures
        (valid_password_hash(current_hash@) && password_verifies(current_hash@, new_pwd@)) ==> (
        r matches Err(e) && e.0@ == "New password cannot be the same as the current password"@),
        (r matches Err(e) && e.0@
            == "New password cannot be the same as the current password"@) ==> (
        valid_password_hash(current_hash@) && password_verifies(current_hash@, new_pwd@)),
        !valid_password_hash(current_hash@) ==> (r matches Err(e) && spec_starts_with(
            e.0@,
            "Failed to compare passwords: "@,
        )),
        r matches Err(e) ==> ((valid_password_hash(current_hash@) && !password_verifies(
            current_hash@,
            new_pwd@,
        )) ==> spec_starts_with(e.0@, "Failed to hash password: "@)),
        r matches Ok(p) ==> (valid_password_hash(current_hash@) && !password_verifies(
            current_hash@,
            new_pwd@,
        ) && valid_password_hash(p.0@) && password_verifies(p.0@, new_pwd@) && p.1 == false),
{
    proof {
        reveal_strlit("Failed to compare passwords: ");
        reveal_strlit("Failed to hash password: ");
        reveal_strlit("New password cannot be the same as the current password");
    }
    let match_password = match passwords_match(current_hash, new_pwd) {
        Ok(b) => b,
        Err(e) => {
            let mut msg = String::from_str("Failed to compare passwords: ");
            msg.append(e.0.as_str());
            proof {
                assert(msg@.subrange(0, "Failed to compare passwords: "@.len() as int)
                    =~= "Failed to compare passwords: "@);
                assert(msg@[0] == 'F');
            }
            return Err(MsgError(msg));
        },
    };
    if match_password {
        return Err(
            MsgError(String::from_str("New password cannot be the same as the current password")),
        );
    }
    match hash_password(String::from_str(new_pwd)) {
        Ok(h) => Ok((h, match_password)),
        Err(e) => {
            let mut msg = String::from_str("Failed to hash password: ");
            let text = password_error_text(&e);
            msg.append(text.as_str());
            proof {
                assert(msg@.subrange(0, "Failed to hash password: "@.len() as int)
                    =~= "Failed to hash password: "@);
                assert(msg@[0] == 'F');
            }
            Err(MsgError(msg))
        },
    }
}

/// Relies on rand's thread-local generator and `random_range`: a value
/// drawn from the half-open range, which must not be empty. Nothing links
/// one drawing to the next.
#[verifier::external_body]
fn random_index(low: usize, high: usize) -> (r: usize)
    requires
        low < high,
    ensures
        low <= r < high,
{
    rand::random_range(low..high)
}

/// A random display name: seven to twenty-five letters drawn from the
/// lowercase alphabet, the first raised to its uppercase.
pub fn random_name() -> (r: String)
    ensures
        7 <= r@.len() < 26,
        65 <= r@[0] as u32 <= 90,
        forall|i: int| 1 <= i < r@.len() ==> 97 <= #[trigger] r@[i] as u32 <= 122,
{
    let name_length = random_index(7, 26);
    let mut out = String::new();
    let mut i: usize = 0;
    while i < name_length
        invariant
            i <= name_length,
            7 <= name_length < 26,
            out@.len() == i,
            i > 0 ==> 65 <= out@[0] as u32 <= 90,
            forall|j: int| 1 <= j < i ==> 97 <= #[trigger] out@[j] as u32 <= 122,
        decreases name_length - i,
    {
        let idx = random_index(0, 26);
        let c: char = if i == 0 {
            (65 + idx as u8) as char
        } else {
            (97 + idx as u8) as char
        };
        push_char(&mut out, c);
        i = i + 1;
    }
    out
}

} // verus!
