use vstd::prelude::*;
use vstd::string::StringExecFns;

verus! {

/// The token pair handed out by the identity endpoint.
pub struct Token {
    pub access_token: String,
    pub refresh_token: String,
}

/// The answer of an identity endpoint that renews the access value only.
pub struct AccessToken {
    pub access_token: String,
}

/// What the identity endpoint answers to a refresh request.
pub enum RefreshResponse {
    /// A new access value; the refresh value stays as it was.
    AccessOnly(AccessToken),
    /// A whole new token pair.
    Full(Token),
}

/// The authorization header value that presents `access` as a bearer token.
pub open spec fn bearer_of(access: Seq<char>) -> Seq<char> {
    "Bearer "@ + access
}

/// The access value in force after `resp` has been received.
pub open spec fn refreshed_access(resp: RefreshResponse) -> Seq<char> {
    match resp {
        RefreshResponse::AccessOnly(a) => a.access_token@,
        RefreshResponse::Full(t) => t.access_token@,
    }
}

/// The refresh value in force after `resp` has been received for a pair whose refresh
/// value was `refresh`.
pub open spec fn refreshed_refresh(refresh: Seq<char>, resp: RefreshResponse) -> Seq<char> {
    match resp {
        RefreshResponse::AccessOnly(_) => refresh,
        RefreshResponse::Full(t) => t.refresh_token@,
    }
}

impl Token {
    pub fn new(access_token: String, refresh_token: String) -> (r: Token)
        ensures
            r.access_token@ == access_token@,
            r.refresh_token@ == refresh_token@,
    {
        Token { access_token, refresh_token }
    }

    /// The value of the authorization header of a delivery request: `Bearer <access>`.
    pub fn format_bearer(&self) -> (r: String)
        ensures
            r@ == bearer_of(self.access_token@),
    {
        let mut r = String::from_str("Bearer ");
        r.append(self.access_token.as_str());
        r
    }

    /// The token pair that results from receiving `resp` in answer to a refresh:
    /// the access value is always replaced, the refresh value only by a full pair.
    pub fn merge_refresh(self, resp: RefreshResponse) -> (r: Token)
        ensures
            r.access_token@ == refreshed_access(resp),
            r.refresh_token@ == refreshed_refresh(self.refresh_token@, resp),
    {
        match resp {
            RefreshResponse::AccessOnly(a) => Token {
                access_token: a.access_token,
                refresh_token: self.refresh_token,
            },
            RefreshResponse::Full(t) => t,
        }
    }
}

} // verus!
