//! Session claims and the bearer token of a request.

use vstd::prelude::*;

verus! {

/// Seconds for which an issued token is valid.
pub const TOKEN_LIFETIME_SECONDS: usize = 3600;

/// The claims of a session token.
#[derive(Debug)]
pub struct Claims {
    /// The user's identifier.
    pub sub: String,
    /// The user's name.
    pub name: String,
    /// When the token expires, in seconds since the epoch.
    pub exp: usize,
}

/// The user that a valid token stands for.
#[derive(Debug)]
pub struct AuthUser {
    pub user_id: String,
    pub name: String,
}

/// Why a request was not authenticated.
pub struct AuthError {
    pub message: &'static str,
}

/// The token of an `Authorization` header: what follows the prefix
/// `Bearer `, where the header opens with it.
pub open spec fn bearer_token_of(header: Seq<char>) -> Option<Seq<char>> {
    if "Bearer "@.is_prefix_of(header) {
        Some(header.skip(7))
    } else {
        None
    }
}

impl Claims {
    /// The claims of a token issued at `now_seconds` for the given user:
    /// valid for one hour.
    pub fn issue(user_id: &str, name: &str, now_seconds: usize) -> (claims: Claims)
        requires
            now_seconds + TOKEN_LIFETIME_SECONDS <= usize::MAX,
        ensures
            claims.sub@ == user_id@,
            claims.name@ == name@,
            claims.exp == now_seconds + TOKEN_LIFETIME_SECONDS,
    {
        Claims {
            sub: user_id.to_owned(),
            name: name.to_owned(),
            exp: now_seconds + TOKEN_LIFETIME_SECONDS,
        }
    }

    /// Whether the token has run out at `now_seconds`.
    pub fn is_expired(&self, now_seconds: usize) -> (expired: bool)
        ensures
            expired == (self.exp < now_seconds),
    {
        self.exp < now_seconds
    }
}

impl AuthUser {
    /// The user named by verified claims.
    pub fn from_claims(claims: Claims) -> (user: AuthUser)
        ensures
            user.user_id == claims.sub,
            user.name == claims.name,
    {
        AuthUser { user_id: claims.sub, name: claims.name }
    }
}

impl AuthError {
    /// The request carried no bearer token.
    pub fn missing_header() -> (error: AuthError)
        ensures
            error.message@ == "Missing Authorization header"@,
    {
        AuthError { message: "Missing Authorization header" }
    }

    /// The token did not verify.
    pub fn invalid_token() -> (error: AuthError)
        ensures
            error.message@ == "Invalid token"@,
    {
        AuthError { message: "Invalid token" }
    }
}

/// The bearer token of a request, given its `Authorization` header if it has
/// one. A missing header, or one that does not open with `Bearer `, is an
/// error.
pub fn bearer_token<'a>(header: Option<&'a str>) -> (token: Result<&'a str, AuthError>)
    ensures
        match token {
            Ok(text) => header matches Some(h) && bearer_token_of(h@) == Some(text@),
            Err(error) => error.message@ == "Missing Authorization header"@ && (header matches Some(
                h,
            ) ==> bearer_token_of(h@) is None),
        },
{
    let h = match header {
        Some(h) => h,
        None => {
            return Err(AuthError::missing_header());
        },
    };
    proof {
        reveal_strlit("Bearer ");
    }
    let len = h.unicode_len();
    if len < 7 {
        return Err(AuthError::missing_header());
    }
    if h.get_char(0) == 'B' && h.get_char(1) == 'e' && h.get_char(2) == 'a' && h.get_char(3)
        == 'r' && h.get_char(4) == 'e' && h.get_char(5) == 'r' && h.get_char(6) == ' ' {
        assert("Bearer "@ =~= h@.subrange(0, 7));
        Ok(h.substring_char(7, len))
    } else {
        assert(!"Bearer "@.is_prefix_of(h@)) by {
            if "Bearer "@.is_prefix_of(h@) {
                assert("Bearer "@ == h@.subrange(0, 7));
                assert(h@.subrange(0, 7)[0] == h@[0]);
                assert(h@.subrange(0, 7)[1] == h@[1]);
                assert(h@.subrange(0, 7)[2] == h@[2]);
                assert(h@.subrange(0, 7)[3] == h@[3]);
                assert(h@.subrange(0, 7)[4] == h@[4]);
                assert(h@.subrange(0, 7)[5] == h@[5]);
                assert(h@.subrange(0, 7)[6] == h@[6]);
            }
        }
        Err(AuthError::missing_header())
    }
}

} // verus!
