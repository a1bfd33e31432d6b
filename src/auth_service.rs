use vstd::prelude::*;
use vstd::string::StringExecFns;
use crate::error::Error;
use crate::tokens::{RefreshResponse, Token, refreshed_access, refreshed_refresh};

verus! {

/// The form-encoded body that exchanges the client credentials for a token pair.
pub open spec fn authenticate_body(client_id: Seq<char>, client_secret: Seq<char>) -> Seq<char> {
    "grant_type=client_credentials&client_id="@ + client_id + "&client_secret="@ + client_secret
}

/// The form-encoded body that exchanges a refresh value for a new access value.
pub open spec fn refresh_body(
    client_id: Seq<char>,
    client_secret: Seq<char>,
    refresh_token: Seq<char>,
) -> Seq<char> {
    "grant_type=refresh_token&client_id="@ + client_id + "&client_secret="@ + client_secret
        + "&refresh_token="@ + refresh_token
}

/// The digits of a `\u00XX` escape.
pub const HEX_DIGITS: &'static str = "0123456789abcdef";

/// How `c` stands inside a JSON string literal: quote, backslash and control
/// characters are escaped, every other character stands as it is.
pub open spec fn json_escaped_char(c: char) -> Seq<char> {
    if c == '"' {
        "\\\""@
    } else if c == '\\' {
        "\\\\"@
    } else if c == '\n' {
        "\\n"@
    } else if c == '\r' {
        "\\r"@
    } else if c == '\t' {
        "\\t"@
    } else if c == '\u{8}' {
        "\\b"@
    } else if c == '\u{c}' {
        "\\f"@
    } else if (c as u32) < 0x20 {
        "\\u00"@ + seq![HEX_DIGITS@[((c as u32) / 16) as int], HEX_DIGITS@[((c as u32) % 16) as int]]
    } else {
        seq![c]
    }
}

/// The characters of `s` escaped for a JSON string literal.
pub open spec fn json_escaped(s: Seq<char>) -> Seq<char>
    decreases s.len(),
{
    if s.len() == 0 {
        Seq::empty()
    } else {
        json_escaped(s.drop_last()) + json_escaped_char(s.last())
    }
}

/// `s` as a JSON string literal.
pub open spec fn json_string(s: Seq<char>) -> Seq<char> {
    "\""@ + json_escaped(s) + "\""@
}

/// The JSON body that exchanges the client credentials for a token pair.
pub open spec fn authenticate_json_body(client_id: Seq<char>, client_secret: Seq<char>) -> Seq<char> {
    "{\"clientId\":"@ + json_string(client_id) + ",\"clientSecret\":"@ + json_string(client_secret)
        + "}"@
}

/// How the credentials are encoded in a request to the identity endpoint.
#[derive(PartialEq, Eq, Structural, Clone, Copy)]
pub enum AuthBodyStyle {
    /// `grant_type=client_credentials&client_id=...&client_secret=...`
    Form,
    /// `{"clientId": ..., "clientSecret": ...}`
    Json,
}

/// Appends `c`, the character at `i` in `s`, as it stands inside a JSON string literal.
fn push_json_char(out: &mut String, s: &str, i: usize, c: char)
    requires
        i < s@.len() <= usize::MAX,
        s@[i as int] == c,
    ensures
        final(out)@ == old(out)@ + json_escaped_char(c),
{
    proof {
        reveal_strlit("0123456789abcdef");
    }
    if c == '"' {
        out.append("\\\"");
    } else if c == '\\' {
        out.append("\\\\");
    } else if c == '\n' {
        out.append("\\n");
    } else if c == '\r' {
        out.append("\\r");
    } else if c == '\t' {
        out.append("\\t");
    } else if c == '\u{8}' {
        out.append("\\b");
    } else if c == '\u{c}' {
        out.append("\\f");
    } else if (c as u32) < 0x20 {
        let v = c as u32;
        let hi = (v / 16) as usize;
        let lo = (v % 16) as usize;
        out.append("\\u00");
        out.append(HEX_DIGITS.substring_char(hi, hi + 1));
        out.append(HEX_DIGITS.substring_char(lo, lo + 1));
        assert(HEX_DIGITS@.subrange(hi as int, hi + 1) =~= seq![HEX_DIGITS@[hi as int]]);
        assert(HEX_DIGITS@.subrange(lo as int, lo + 1) =~= seq![HEX_DIGITS@[lo as int]]);
    } else {
        out.append(s.substring_char(i, i + 1));
        assert(s@.subrange(i as int, i + 1) =~= seq![c]);
    }
}

/// Appends `s` as a JSON string literal.
fn push_json_string(out: &mut String, s: &str)
    ensures
        final(out)@ == old(out)@ + json_string(s@),
{
    let ghost start = out@;
    out.append("\"");
    let n = s.unicode_len();
    let mut i: usize = 0;
    while i < n
        invariant
            n == s@.len(),
            i <= n,
            out@ == start + "\""@ + json_escaped(s@.subrange(0, i as int)),
        decreases n - i,
    {
        let c = s.get_char(i);
        push_json_char(out, s, i, c);
        assert(s@.subrange(0, i + 1).drop_last() =~= s@.subrange(0, i as int));
        i = i + 1;
    }
    assert(s@.subrange(0, n as int) =~= s@);
    out.append("\"");
}

/// Holds the client credentials and the current token pair, and decides how the
/// identity endpoint's answers change that pair.
pub struct AuthService {
    pub client_id: String,
    pub client_secret: String,
    /// `None` until the first successful authentication.
    pub token: Option<Token>,
    pub auth_url: &'static str,
    pub body_style: AuthBodyStyle,
}

impl AuthService {
    pub fn new(client_id: String, client_secret: String, auth_url: &'static str) -> (r: Self)
        ensures
            r.client_id@ == client_id@,
            r.client_secret@ == client_secret@,
            r.auth_url@ == auth_url@,
            r.token is None,
            r.body_style == AuthBodyStyle::Form,
    {
        AuthService { client_id, client_secret, token: None, auth_url, body_style: AuthBodyStyle::Form }
    }

    /// The same service, encoding its credentials in the style `body_style`.
    pub fn with_body_style(self, body_style: AuthBodyStyle) -> (r: Self)
        ensures
            r.client_id == self.client_id,
            r.client_secret == self.client_secret,
            r.auth_url == self.auth_url,
            r.token == self.token,
            r.body_style == body_style,
    {
        AuthService { body_style, ..self }
    }

    /// Takes in the identity endpoint's answer to an authentication request. On success
    /// the answer becomes the current token pair; on failure nothing changes.
    pub fn authenticate(&mut self, response: Result<Token, Error>) -> (r: Result<(), Error>)
        ensures
            final(self).client_id == old(self).client_id,
            final(self).client_secret == old(self).client_secret,
            final(self).auth_url == old(self).auth_url,
            final(self).body_style == old(self).body_style,
            match response {
                Ok(t) => r is Ok && final(self).token == Some(t),
                Err(e) => r == Err::<(), Error>(e) && final(self).token == old(self).token,
            },
    {
        match response {
            Ok(t) => {
                self.token = Some(t);
                Ok(())
            },
            Err(e) => Err(e),
        }
    }

    /// Takes in the identity endpoint's answer to a refresh request. On success the answer
    /// is merged into the current pair; on failure nothing changes.
    pub fn refresh(&mut self, response: Result<RefreshResponse, Error>) -> (r: Result<(), Error>)
        requires
            old(self).token is Some,
        ensures
            final(self).client_id == old(self).client_id,
            final(self).client_secret == old(self).client_secret,
            final(self).auth_url == old(self).auth_url,
            final(self).body_style == old(self).body_style,
            final(self).token is Some,
            match response {
                Ok(resp) => {
                    &&& r is Ok
                    &&& final(self).token.unwrap().access_token@ == refreshed_access(resp)
                    &&& final(self).token.unwrap().refresh_token@ == refreshed_refresh(
                        old(self).token.unwrap().refresh_token@,
                        resp,
                    )
                },
                Err(e) => r == Err::<(), Error>(e) && final(self).token == old(self).token,
            },
    {
        match response {
            Ok(resp) => {
                let current = self.token.take().unwrap();
                self.token = Some(current.merge_refresh(resp));
                Ok(())
            },
            Err(e) => Err(e),
        }
    }

    pub fn format_body_authenticate(&self) -> (r: String)
        ensures
            r@ == authenticate_body(self.client_id@, self.client_secret@),
    {
        let mut r = String::from_str("grant_type=client_credentials&client_id=");
        r.append(self.client_id.as_str());
        r.append("&client_secret=");
        r.append(self.client_secret.as_str());
        r
    }

    pub fn format_body_authenticate_json(&self) -> (r: String)
        ensures
            r@ == authenticate_json_body(self.client_id@, self.client_secret@),
    {
        let mut r = String::from_str("{\"clientId\":");
        push_json_string(&mut r, self.client_id.as_str());
        r.append(",\"clientSecret\":");
        push_json_string(&mut r, self.client_secret.as_str());
        r.append("}");
        r
    }

    /// The body of an authentication request, in the style chosen at construction.
    pub fn authenticate_request_body(&self) -> (r: String)
        ensures
            self.body_style == AuthBodyStyle::Form ==> r@ == authenticate_body(self.client_id@, self.client_secret@),
            self.body_style == AuthBodyStyle::Json ==> r@ == authenticate_json_body(self.client_id@, self.client_secret@),
    {
        match self.body_style {
            AuthBodyStyle::Form => self.format_body_authenticate(),
            AuthBodyStyle::Json => self.format_body_authenticate_json(),
        }
    }

    /// The `content-type` header of an authentication request.
    pub fn authenticate_content_type(&self) -> (r: &'static str)
        ensures
            self.body_style == AuthBodyStyle::Form ==> r@ == "application/x-www-form-urlencoded"@,
            self.body_style == AuthBodyStyle::Json ==> r@ == "application/json"@,
    {
        match self.body_style {
            AuthBodyStyle::Form => "application/x-www-form-urlencoded",
            AuthBodyStyle::Json => "application/json",
        }
    }

    /// The `content-type` header of a refresh request.
    pub fn refresh_content_type(&self) -> (r: &'static str)
        ensures
            r@ == "application/x-www-form-urlencoded"@,
    {
        "application/x-www-form-urlencoded"
    }

    pub fn format_body_refresh(&self, token: &Token) -> (r: String)
        ensures
            r@ == refresh_body(self.client_id@, self.client_secret@, token.refresh_token@),
    {
        let mut r = String::from_str("grant_type=refresh_token&client_id=");
        r.append(self.client_id.as_str());
        r.append("&client_secret=");
        r.append(self.client_secret.as_str());
        r.append("&refresh_token=");
        r.append(token.refresh_token.as_str());
        r
    }
}

} // verus!
