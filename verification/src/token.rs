//! Session-token lifecycle: Absent, Valid and Expired states, and the
//! transition back into Valid after a remote authentication.
//!
//! Only one cached token exists at a time; a refresh replaces it wholesale.
//! Validity is detected purely by local clock comparison — deciding whether
//! a refresh is needed performs no I/O. The HTTP POST to the token endpoint
//! is the caller's concern; the caller hands back the status and the parsed
//! token value, and the verified transition decides what they mean.

use vstd::prelude::*;

use crate::errors::CoreError;

verus! {

/// Seconds a freshly obtained session token stays valid.
pub const TOKEN_TTL: u64 = 3600;

/// A cached bearer token with its lifetime bounds.
#[derive(Debug)]
pub struct Token {
    /// The opaque bearer value presented per request.
    pub value: String,
    /// Seconds since the epoch when the token was obtained.
    pub obtained_at: u64,
    /// Seconds since the epoch when it expires; always `obtained_at + TOKEN_TTL`.
    pub expires_at: u64,
}

impl Token {
    /// The expiry is exactly the fixed TTL after the moment of issue.
    pub open spec fn wf(&self) -> bool {
        self.expires_at == self.obtained_at + TOKEN_TTL
    }

    /// The token is valid at `now`: obtained no later than `now` and not yet
    /// expired.
    pub open spec fn live_at(&self, now: u64) -> bool {
        self.obtained_at <= now < self.expires_at
    }

    /// An equal copy of the token.
    pub fn duplicate(&self) -> (t: Token)
        ensures
            t == *self,
    {
        Token {
            value: self.value.clone(),
            obtained_at: self.obtained_at,
            expires_at: self.expires_at,
        }
    }
}

/// The lifecycle state of the cached token at a given instant.
#[derive(Clone, Copy, Debug, PartialEq, Eq, Structural)]
pub enum TokenState {
    /// No cached token exists.
    Absent,
    /// The cached token is usable without any network call.
    Valid,
    /// The cached token's lifetime does not cover the present instant; a
    /// re-authentication is required.
    Expired,
}

/// The state of a cache holding `cached` at instant `now`.
pub open spec fn spec_token_state(cached: Option<Token>, now: u64) -> TokenState {
    match cached {
        Option::None => TokenState::Absent,
        Option::Some(t) => if t.live_at(now) {
            TokenState::Valid
        } else {
            TokenState::Expired
        },
    }
}

/// The in-memory token cache: the single cached token, if any. Durable
/// persistence of the one cache row is the caller's concern; the caller
/// loads it at startup and writes it back after each replacement.
pub struct TokenCache {
    cached: Option<Token>,
}

impl View for TokenCache {
    type V = Option<Token>;

    closed spec fn view(&self) -> Option<Token> {
        self.cached
    }
}

impl TokenCache {
    /// An empty cache: state Absent.
    pub fn new() -> (r: TokenCache)
        ensures
            r@ is None,
    {
        TokenCache { cached: None }
    }

    /// A cache primed with a token loaded from durable storage, if one was
    /// found there.
    pub fn from_loaded(token: Option<Token>) -> (r: TokenCache)
        ensures
            r@ == token,
    {
        TokenCache { cached: token }
    }

    /// The lifecycle state at instant `now`, by clock comparison alone.
    pub fn state(&self, now: u64) -> (s: TokenState)
        ensures
            s == spec_token_state(self@, now),
    {
        match &self.cached {
            Option::None => TokenState::Absent,
            Option::Some(t) => if t.obtained_at <= now && now < t.expires_at {
                TokenState::Valid
            } else {
                TokenState::Expired
            },
        }
    }

    /// Whether a re-authentication is required at `now`: the cache is not in
    /// state Valid.
    pub fn needs_refresh(&self, now: u64) -> (b: bool)
        ensures
            b == (spec_token_state(self@, now) != TokenState::Valid),
    {
        self.state(now) != TokenState::Valid
    }

    /// The read path: returns the cached token exactly when it is valid at
    /// `now`, with zero I/O; returns nothing when a transition into Valid
    /// must be driven first.
    pub fn get_valid_token(&self, now: u64) -> (r: Option<Token>)
        ensures
            r is Some <==> spec_token_state(self@, now) == TokenState::Valid,
            r matches Some(t) ==> self@ == Some(t) && t.live_at(now),
    {
        match &self.cached {
            Option::None => None,
            Option::Some(t) => if t.obtained_at <= now && now < t.expires_at {
                Some(t.duplicate())
            } else {
                None
            },
        }
    }

    /// Drops the cached token, forcing the next read to re-authenticate.
    /// Used when the remote rejects a token that looked valid locally.
    pub fn invalidate(&mut self)
        ensures
            final(self)@ is None,
    {
        self.cached = None;
    }

    /// Interprets the token endpoint's reply and, on success, replaces the
    /// cached token wholesale with `{value, obtained_at: now, expires_at:
    /// now + TOKEN_TTL}`.
    ///
    /// A 2xx reply whose body carried a token installs it; 401 means the
    /// stored credentials are bad — terminal, the cache is left untouched
    /// and the caller must reconfigure; a 5xx or a 2xx body that yielded no
    /// token is a transport failure, the cache untouched; any other status
    /// is surfaced verbatim, the cache untouched.
    pub fn process_auth_reply(&mut self, status: u16, token_value: Option<String>, now: u64)
        -> (r: Result<Token, CoreError>)
        requires
            now <= u64::MAX - TOKEN_TTL,
        ensures
            r matches Ok(t) ==> 200 <= status < 300
                && (token_value matches Some(v) && t.value == v)
                && t.obtained_at == now && t.expires_at == now + TOKEN_TTL && t.wf()
                && final(self)@ == Some(t),
            r is Err ==> *final(self) == *old(self),
            r matches Err(e) ==> (
                (e == CoreError::AuthenticationFailed && status == 401)
                || (e == CoreError::TransportError && (500 <= status < 600
                    || (200 <= status < 300 && token_value is None)))
                || (e == CoreError::RequestFailed(status) && !(200 <= status < 300)
                    && status != 401 && !(500 <= status < 600))),
            r is Ok <==> (200 <= status < 300 && token_value is Some),
    {
        if 200 <= status && status < 300 {
            match token_value {
                Option::Some(v) => {
                    let token = Token {
                        value: v,
                        obtained_at: now,
                        expires_at: now + TOKEN_TTL,
                    };
                    let copy = token.duplicate();
                    self.cached = Some(token);
                    Ok(copy)
                },
                Option::None => Err(CoreError::TransportError),
            }
        } else if status == 401 {
            Err(CoreError::AuthenticationFailed)
        } else if 500 <= status && status < 600 {
            Err(CoreError::TransportError)
        } else {
            Err(CoreError::RequestFailed(status))
        }
    }
}

/// Token expiry: a cache whose token covers `now` is Valid and yields its
/// token with no transition — no network call is needed — while a cache
/// whose token does not cover `now` is Expired (or Absent when empty) and
/// yields nothing, so the caller must drive exactly one transition into
/// Valid before a token is available.
pub proof fn lemma_token_expiry(cache: TokenCache, now: u64)
    ensures
        (cache@ matches Some(t) && t.live_at(now)) ==> spec_token_state(cache@, now)
            == TokenState::Valid,
        (cache@ matches Some(t) && !t.live_at(now)) ==> spec_token_state(cache@, now)
            == TokenState::Expired,
        cache@ is None ==> spec_token_state(cache@, now) == TokenState::Absent,
{
}

} // verus!
