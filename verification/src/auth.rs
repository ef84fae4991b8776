//! Credential lifecycle management for the Lark tenant access token.
//!
//! The manager owns the cached credential and its expiry. The network
//! round-trip to the issuer endpoint and the clock are supplied by the
//! caller: the cache-hit path is [`FeishuTokenManager::get_cached_token`],
//! and the outcome of a fetch is applied with
//! [`FeishuTokenManager::complete_refresh`]. A driver loop performs the
//! fetch only when the lookup reports a miss, and holds the manager behind
//! a lock so that the check-fetch-store sequence is serialized.
use vstd::prelude::*;

verus! {

/// Errors surfaced by the credential manager and the API clients.
#[derive(Debug, Clone)]
pub enum FeishuApiError {
    /// Transport-level failure: the endpoint could not be reached, the
    /// connection timed out, or the like.
    NetworkError(String),
    /// The endpoint replied, but its body could not be decoded.
    SerdeError(String),
    /// The endpoint replied with a nonzero application status code.
    ApiError { code: i32, message: String },
    /// The service identity needed for a refresh was not available.
    TokenRefreshError(String),
}

/// Body of a credential fetch request: the service identity.
#[derive(Debug, Clone)]
pub struct TenantAccessTokenRequest {
    pub app_id: String,
    pub app_secret: String,
}

/// Body of the issuer's reply: an application status code (0 means
/// success), a message, the credential, and its lifetime in seconds.
#[derive(Debug, Clone)]
pub struct TenantAccessTokenResponse {
    pub code: i32,
    pub msg: String,
    pub tenant_access_token: String,
    pub expire: i32,
}

impl TenantAccessTokenResponse {
    /// The issuer accepted the request exactly when its code is 0.
    pub fn is_success(&self) -> (r: bool)
        ensures
            r == (self.code == 0),
    {
        self.code == 0
    }
}

/// The cached credential together with the instant (in seconds, on the
/// caller's clock) after which it must no longer be handed out.
#[derive(Debug, Clone)]
pub struct TokenCache {
    pub token: String,
    pub expiry: u64,
}

/// Owns the cached credential; at most one entry at any time, replaced
/// wholesale on every successful refresh and never mutated in place.
#[derive(Debug)]
pub struct FeishuTokenManager {
    /// The cached credential, if one was fetched and not yet discarded.
    pub cache: Option<TokenCache>,
    /// Seconds subtracted from the issuer-reported lifetime before the
    /// expiry is computed, so the cache pre-expires the credential.
    pub refresh_buffer: u64,
}

/// The expiry computed from a successful refresh at time `now`: `now` plus
/// the issuer-reported lifetime less the safety margin, never negative,
/// capped at the clock's range.
pub open spec fn spec_new_expiry(now: u64, expire: i32, buffer: u64) -> u64 {
    let lifetime = vstd::math::max(0, expire - buffer);
    if now + lifetime > u64::MAX {
        u64::MAX
    } else {
        (now + lifetime) as u64
    }
}

impl FeishuTokenManager {
    /// A credential is on hand at `now` when an entry is cached and `now`
    /// is strictly before its expiry.
    pub open spec fn has_valid_cache(self, now: u64) -> bool {
        match self.cache {
            Option::Some(c) => now < c.expiry,
            Option::None => false,
        }
    }

    /// The manager state after a successful refresh at `now`: the cache is
    /// replaced wholesale by the pair of the fetched credential and its
    /// computed expiry.
    pub open spec fn spec_refreshed(self, resp: TenantAccessTokenResponse, now: u64) -> FeishuTokenManager {
        FeishuTokenManager {
            cache: Option::Some(TokenCache {
                token: resp.tenant_access_token,
                expiry: spec_new_expiry(now, resp.expire, self.refresh_buffer),
            }),
            refresh_buffer: self.refresh_buffer,
        }
    }

    /// A fresh manager: no cached credential, 60 second safety margin.
    pub fn new() -> (r: Self)
        ensures
            r.cache is None,
            r.refresh_buffer == 60,
    {
        FeishuTokenManager { cache: Option::None, refresh_buffer: 60 }
    }

    /// The same manager with the safety margin set to `seconds`.
    pub fn with_refresh_buffer(self, seconds: u64) -> (r: Self)
        ensures
            r.refresh_buffer == seconds,
            r.cache == self.cache,
    {
        FeishuTokenManager { refresh_buffer: seconds, cache: self.cache }
    }

    /// The cache-hit path of `get_credential`: the cached credential is
    /// returned exactly when it is still valid at `now`, and no refresh is
    /// needed; on a miss the caller performs one refresh round-trip and
    /// applies its outcome with [`Self::complete_refresh`].
    pub fn get_cached_token(&self, now: u64) -> (r: Option<String>)
        ensures
            r == (if self.has_valid_cache(now) {
                Option::Some(self.cache->Some_0.token)
            } else {
                Option::None::<String>
            }),
    {
        match &self.cache {
            Option::Some(cached) => {
                if now < cached.expiry {
                    Option::Some(cached.token.clone())
                } else {
                    Option::None
                }
            },
            Option::None => Option::None,
        }
    }

    /// Apply the outcome of one refresh round-trip, fetched by the caller
    /// at time `now`, whether it was asked for by `get_credential` on a
    /// cache miss or by `force_refresh` unconditionally.
    ///
    /// On a transport or configuration failure the error is passed through;
    /// on an issuer rejection the code and message are surfaced; in both
    /// cases the cache is left untouched. On success the cache is replaced
    /// atomically by the new pair and the new credential is returned.
    pub fn complete_refresh(
        &mut self,
        outcome: Result<TenantAccessTokenResponse, FeishuApiError>,
        now: u64,
    ) -> (r: Result<String, FeishuApiError>)
        ensures
            match outcome {
                Result::Ok(resp) => {
                    if resp.code == 0 {
                        &&& r == Result::<String, FeishuApiError>::Ok(resp.tenant_access_token)
                        &&& *final(self) == old(self).spec_refreshed(resp, now)
                    } else {
                        &&& r == Result::<String, FeishuApiError>::Err(FeishuApiError::ApiError {
                            code: resp.code,
                            message: resp.msg,
                        })
                        &&& *final(self) == *old(self)
                    }
                },
                Result::Err(e) => {
                    &&& r == Result::<String, FeishuApiError>::Err(e)
                    &&& *final(self) == *old(self)
                },
            },
    {
        let resp = match outcome {
            Result::Ok(resp) => resp,
            Result::Err(e) => {
                return Result::Err(e);
            },
        };
        if !resp.is_success() {
            return Result::Err(FeishuApiError::ApiError { code: resp.code, message: resp.msg });
        }
        let lifetime: u64 = if resp.expire >= 0 {
            (resp.expire as u64).saturating_sub(self.refresh_buffer)
        } else {
            0
        };
        let expiry: u64 = now.saturating_add(lifetime);
        self.cache = Option::Some(TokenCache { token: resp.tenant_access_token.clone(), expiry });
        Result::Ok(resp.tenant_access_token)
    }
}

/// The issuer endpoint a refresh round-trip is sent to.
pub fn tenant_access_token_url() -> (r: String)
    ensures
        r@ == "https://open.feishu.cn/open-apis/auth/v3/tenant_access_token/internal"@,
{
    String::from_str("https://open.feishu.cn/open-apis/auth/v3/tenant_access_token/internal")
}

/// Law: the computed expiry is `now + max(0, lifetime - margin)` whenever
/// that sum fits the clock; a margin at or above the reported lifetime
/// leaves an already-expired entry, a valid if degenerate configuration.
pub proof fn lemma_safety_margin_arithmetic(now: u64, expire: i32, buffer: u64)
    requires
        now + vstd::math::max(0, expire - buffer) <= u64::MAX,
    ensures
        spec_new_expiry(now, expire, buffer) == now + vstd::math::max(0, expire - buffer),
        buffer >= expire ==> spec_new_expiry(now, expire, buffer) == now,
{
}

/// Law: right after a refresh the cached entry is valid exactly when the
/// safety margin is strictly below the issuer-reported lifetime. A margin
/// at or above it leaves an effective lifetime of zero: the entry is born
/// expired, and every later request triggers a refresh — a valid, if
/// degenerate, configuration.
pub proof fn lemma_margin_at_or_above_lifetime_expires_at_once(
    m: FeishuTokenManager,
    resp: TenantAccessTokenResponse,
    now: u64,
)
    requires
        now + vstd::math::max(0, resp.expire - m.refresh_buffer) <= u64::MAX,
    ensures
        m.spec_refreshed(resp, now).has_valid_cache(now) <==> resp.expire - m.refresh_buffer > 0,
{
}

/// Law: a refresh replaces the cache for every prior state, a stale one as
/// well as a still-valid one: this is what a forced refresh relies on.
/// The new entry is the pair fetched together — credential and expiry from
/// the same response, never a mix of two refreshes — and the safety margin
/// is left as it was.
pub proof fn lemma_refresh_replaces_cache(
    m: FeishuTokenManager,
    resp: TenantAccessTokenResponse,
    now: u64,
)
    ensures
        m.spec_refreshed(resp, now).cache == Option::Some(TokenCache {
            token: resp.tenant_access_token,
            expiry: spec_new_expiry(now, resp.expire, m.refresh_buffer),
        }),
        m.spec_refreshed(resp, now).refresh_buffer == m.refresh_buffer,
{
}

} // verus!
