use vstd::prelude::*;

use crate::error::Error;
use vstd::string::StringExecFns;

verus! {

/// An issued credential pair together with its issue instant and
/// time-to-live, both in milliseconds.
///
/// The expiry instant is derived: it is `issued_at_ms + ttl_ms`. Refresh
/// responses may omit the refresh secret, which is why it is optional; a
/// refresh never discards a stored refresh secret.
pub struct Token {
    pub access_secret: String,
    pub refresh_secret: Option<String>,
    pub issued_at_ms: u64,
    pub ttl_ms: u64,
}

impl Token {
    /// The instant, in milliseconds, at which the access secret expires.
    pub open spec fn expires_at_ms(self) -> int {
        self.issued_at_ms + self.ttl_ms
    }
}

/// Cache for the current token.
///
/// Created empty, populated by login or by loading persisted state, and
/// mutated in place by refresh. Callers that share the cache across threads
/// wrap it in their own mutual exclusion; every operation here is a plain
/// read or write of the single token slot.
pub struct AuthToken {
    token: Option<Token>,
}

impl AuthToken {
    /// The stored token, if the cache has been populated.
    pub closed spec fn spec_token(self) -> Option<Token> {
        self.token
    }

    /// Whether a caller holding the clock value `now_ms` must refresh before
    /// using the access secret: true when the cache is unpopulated or when
    /// `now_ms` is at or past the expiry instant.
    pub open spec fn spec_requires_new_token(self, now_ms: u64) -> bool {
        match self.spec_token() {
            None => true,
            Some(t) => now_ms >= t.expires_at_ms(),
        }
    }

    /// The stored access secret; meaningful only when the cache is
    /// populated.
    pub open spec fn spec_access_secret(self) -> Seq<char> {
        match self.spec_token() {
            None => Seq::empty(),
            Some(t) => t.access_secret@,
        }
    }

    /// The refresh secret that a refresh exchange would send, or the error
    /// that rules the exchange out.
    pub open spec fn spec_refresh_secret(self) -> Result<Seq<char>, Error> {
        match self.spec_token() {
            None => Err(Error::Unauthenticated),
            Some(t) => match t.refresh_secret {
                None => Err(Error::RefreshTokenMissing),
                Some(s) => Ok(s@),
            },
        }
    }

    pub fn new() -> (r: AuthToken)
        ensures
            r.spec_token() is None,
    {
        AuthToken { token: None }
    }

    /// Replaces the stored token; future freshness checks reflect the new
    /// expiry.
    pub fn set_token(&mut self, new_token: Token)
        ensures
            final(self).spec_token() == Some(new_token),
    {
        self.token = Some(new_token);
    }

    /// A view of the current token; fails when never populated.
    pub fn get_token(&self) -> (r: Result<&Token, Error>)
        ensures
            match self.spec_token() {
                Some(t) => r matches Ok(got) && *got == t,
                None => r matches Err(e) && e == Error::Unauthenticated,
            },
    {
        match &self.token {
            Some(t) => Ok(t),
            None => Err(Error::Unauthenticated),
        }
    }

    pub fn has_token(&self) -> (r: bool)
        ensures
            r == (self.spec_token() is Some),
    {
        self.token.is_some()
    }

    /// Freshness check against the supplied clock value: for a token set
    /// with issue instant `T` and time-to-live `E`, the result is false for
    /// every `now_ms` in `[T, T + E)` and true for every `now_ms >= T + E`.
    /// This is a snapshot, not a guard against a concurrently racing refresh.
    pub fn requires_new_token(&self, now_ms: u64) -> (r: bool)
        ensures
            r == self.spec_requires_new_token(now_ms),
    {
        match &self.token {
            None => true,
            Some(t) => now_ms >= t.issued_at_ms && now_ms - t.issued_at_ms >= t.ttl_ms,
        }
    }

    /// The refresh secret to hand to the OAuth gateway for a refresh
    /// exchange. Fails with `Unauthenticated` when no token is present and
    /// with `RefreshTokenMissing` when the stored token has no refresh
    /// secret.
    pub fn refresh_secret(&self) -> (r: Result<String, Error>)
        ensures
            match self.spec_refresh_secret() {
                Ok(s) => r matches Ok(got) && got@ == s,
                Err(e) => r matches Err(got) && got == e,
            },
    {
        match &self.token {
            None => Err(Error::Unauthenticated),
            Some(t) => match &t.refresh_secret {
                None => Err(Error::RefreshTokenMissing),
                Some(s) => Ok(s.clone()),
            },
        }
    }

    /// Installs the outcome of a refresh exchange: the access secret and the
    /// expiry are replaced, the refresh secret is retained unchanged. An
    /// unpopulated cache is left unpopulated.
    pub fn set_access_token(&mut self, access_secret: String, ttl_ms: u64, now_ms: u64)
        ensures
            old(self).spec_token() is None ==> final(self).spec_token() is None,
            old(self).spec_token() matches Some(t) ==> final(self).spec_token() == Some(
                Token {
                    access_secret: access_secret,
                    refresh_secret: t.refresh_secret,
                    issued_at_ms: now_ms,
                    ttl_ms: ttl_ms,
                },
            ),
    {
        match self.token.take() {
            None => {
            },
            Some(t) => {
                self.token = Some(
                    Token {
                        access_secret: access_secret,
                        refresh_secret: t.refresh_secret,
                        issued_at_ms: now_ms,
                        ttl_ms: ttl_ms,
                    },
                );
            },
        }
    }

    /// The `Authorization` header value: `"Bearer "` followed by the access
    /// secret. Fails with `Unauthenticated` when unpopulated.
    pub fn get_auth_header(&self) -> (r: Result<String, Error>)
        ensures
            match self.spec_token() {
                Some(t) => r matches Ok(h) && h@ == "Bearer "@ + t.access_secret@,
                None => r matches Err(e) && e == Error::Unauthenticated,
            },
    {
        match &self.token {
            None => Err(Error::Unauthenticated),
            Some(t) => {
                let mut header = String::from_str("Bearer ");
                header.append(t.access_secret.as_str());
                Ok(header)
            },
        }
    }
}

} // verus!
