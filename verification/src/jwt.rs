//! Token claims and their rules: the signing secret read from the
//! configuration, expiry windows for access and refresh tokens, the claims
//! a token carries, and the extraction of a bearer token from an
//! authorization header. Signing and verifying the token text is the
//! concern of the encoder outside; everything decided here is verified.

use vstd::prelude::*;
use vstd::string::{StrSliceExecFns, StringExecFns};

use crate::config::{Configure, spec_parse_config};

verus! {

/// Whether a configuration document carries the signing key.
pub open spec fn has_jwt_secret(s: Seq<char>) -> bool {
    spec_parse_config(s) matches Some(m) && m.0.contains_key("jwt.key"@)
}

/// Reads the signing secret out of configuration text.
pub struct Secret;

impl Secret {
    /// The signing key of a configuration document that carries one.
    pub fn new(source: &str) -> (r: String)
        requires
            has_jwt_secret(source@),
        ensures
            spec_parse_config(source@) matches Some(m) && r@ == m.0["jwt.key"@],
    {
        match Configure::build(source) {
            Ok(cfg) => match cfg.get_string("jwt.key") {
                Ok(s) => s,
                Err(_) => vstd::pervasive::unreached(),
            },
            Err(_) => vstd::pervasive::unreached(),
        }
    }
}

/// What a token asserts: the subject, the issue and expiry instants, and
/// the account it belongs to.
#[derive(Debug)]
pub struct Claims {
    pub sub: String,
    pub exp: usize,
    pub iat: usize,
    pub user_id: String,
    pub email: String,
}

impl Clone for Claims {
    fn clone(&self) -> (r: Self)
        ensures
            r == *self,
    {
        Claims {
            sub: self.sub.clone(),
            exp: self.exp,
            iat: self.iat,
            user_id: self.user_id.clone(),
            email: self.email.clone(),
        }
    }
}

/// The verified caller of a request, as the middleware hands it on.
pub struct AuthUser(pub Claims);

/// The signing secret beside the two expiry windows, in seconds.
#[derive(Debug)]
pub struct JwtConfig {
    pub secret: String,
    pub access_token_expiry: usize,
    pub refresh_token_expiry: usize,
}

impl Clone for JwtConfig {
    fn clone(&self) -> (r: Self)
        ensures
            r == *self,
    {
        JwtConfig {
            secret: self.secret.clone(),
            access_token_expiry: self.access_token_expiry,
            refresh_token_expiry: self.refresh_token_expiry,
        }
    }
}

impl JwtConfig {
    /// Expiries of one hour for access tokens and seven days for refresh
    /// tokens.
    pub fn new(secret: String) -> (r: Self)
        ensures
            r.secret == secret,
            r.access_token_expiry == 3600,
            r.refresh_token_expiry == 604800,
    {
        JwtConfig { secret, access_token_expiry: 3600, refresh_token_expiry: 604800 }
    }
}

/// The claims of an access token issued now: the subject is the account,
/// and the token expires one access window after its issue instant.
pub fn access_claims(config: &JwtConfig, user_id: &str, email: &str, now: usize) -> (r: Claims)
    requires
        now + config.access_token_expiry <= usize::MAX,
    ensures
        r.sub@ == user_id@,
        r.exp == now + config.access_token_expiry,
        r.iat == now,
        r.user_id@ == user_id@,
        r.email@ == email@,
{
    Claims {
        sub: String::from_str(user_id),
        exp: now + config.access_token_expiry,
        iat: now,
        user_id: String::from_str(user_id),
        email: String::from_str(email),
    }
}

/// The claims of a refresh token issued now, expiring one refresh window
/// after its issue instant.
pub fn refresh_claims(config: &JwtConfig, user_id: &str, email: &str, now: usize) -> (r: Claims)
    requires
        now + config.refresh_token_expiry <= usize::MAX,
    ensures
        r.sub@ == user_id@,
        r.exp == now + config.refresh_token_expiry,
        r.iat == now,
        r.user_id@ == user_id@,
        r.email@ == email@,
{
    Claims {
        sub: String::from_str(user_id),
        exp: now + config.refresh_token_expiry,
        iat: now,
        user_id: String::from_str(user_id),
        email: String::from_str(email),
    }
}

/// Strips the `Bearer ` prefix off an authorization header value; a header
/// that is absent or shaped otherwise yields nothing.
pub fn bearer_token(header: Option<&str>) -> (r: Option<String>)
    ensures
        r matches Some(t) ==> (header matches Some(h) && h@.len() >= 7 && h@.subrange(0, 7)
            == "Bearer "@ && t@ == h@.subrange(7, h@.len() as int)),
        (header matches Some(h) && h@.len() >= 7 && h@.subrange(0, 7) == "Bearer "@) ==> r
            is Some,
        header is None ==> r is None,
{
    match header {
        None => None,
        Some(h) => {
            let len = h.unicode_len();
            if len < 7 {
                return None;
            }
            proof {
                reveal_strlit("Bearer ");
            }
            if h.get_char(0) == 'B' && h.get_char(1) == 'e' && h.get_char(2) == 'a' && h.get_char(
                3,
            ) == 'r' && h.get_char(4) == 'e' && h.get_char(5) == 'r' && h.get_char(6) == ' ' {
                proof {
                    assert(h@.subrange(0, 7) =~= "Bearer "@);
                }
                let t = h.substring_char(7, len);
                Some(String::from_str(t))
            } else {
                proof {
                    if h@.subrange(0, 7) == "Bearer "@ {
                        assert(h@[0] == h@.subrange(0, 7)[0]);
                        assert(h@[1] == h@.subrange(0, 7)[1]);
                        assert(h@[2] == h@.subrange(0, 7)[2]);
                        assert(h@[3] == h@.subrange(0, 7)[3]);
                        assert(h@[4] == h@.subrange(0, 7)[4]);
                        assert(h@[5] == h@.subrange(0, 7)[5]);
                        assert(h@[6] == h@.subrange(0, 7)[6]);
                    }
                }
                None
            }
        },
    }
}

} // verus!
