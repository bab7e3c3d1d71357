use vstd::prelude::*;

use crate::session::INACTIVITY_MS;
use crate::text::str_eq;

verus! {

/// Settings of the listening side of the gateway.
#[derive(Debug, Clone)]
pub struct ServerConfig {
    pub port: u16,
    pub log_level: String,
    /// `"text"` or `"json"`.
    pub log_format: String,
}

/// Where proxied traffic goes.
#[derive(Debug, Clone)]
pub struct ProxyConfig {
    /// Base URL of the single upstream; a request's path and query are appended to it.
    pub target_url: String,
}

/// Cookie and response-header policy.
#[derive(Debug, Clone)]
pub struct SecurityConfig {
    pub https: bool,
    pub secure_cookies: bool,
    /// `"Lax"`, `"Strict"` or `"None"`; anything else is read as `"Lax"`.
    pub same_site: String,
    pub enable_hsts: bool,
    pub enable_csp: bool,
}

/// Admission-control limits.
#[derive(Debug, Clone)]
pub struct ReliabilityConfig {
    pub rate_limit_per_sec: u64,
    pub timeout_ms: u64,
}

/// The whole configuration, read once at startup and never changed afterwards.
#[derive(Debug, Clone)]
pub struct AppConfig {
    pub server: ServerConfig,
    pub proxy: ProxyConfig,
    pub security: SecurityConfig,
    pub reliability: ReliabilityConfig,
}

/// The `SameSite` attribute put on the session cookie.
#[derive(Debug, Clone, Copy, PartialEq, Eq, Structural)]
pub enum SameSitePolicy {
    Lax,
    Strict,
    Unrestricted,
}

/// The policy a configured `same_site` text stands for.
pub open spec fn same_site_of(s: Seq<char>) -> SameSitePolicy {
    if s == "Strict"@ {
        SameSitePolicy::Strict
    } else if s == "None"@ {
        SameSitePolicy::Unrestricted
    } else {
        SameSitePolicy::Lax
    }
}

/// Reads the configured `same_site` text; unknown values fall back to `Lax`.
pub fn parse_same_site(s: &str) -> (r: SameSitePolicy)
    ensures
        r == same_site_of(s@),
{
    proof {
        reveal_strlit("Lax");
        reveal_strlit("Strict");
        reveal_strlit("None");
        assert("Lax"@.len() == 3 && "Strict"@.len() == 6 && "None"@.len() == 4);
    }
    if str_eq(s, "Lax") {
        SameSitePolicy::Lax
    } else if str_eq(s, "Strict") {
        SameSitePolicy::Strict
    } else if str_eq(s, "None") {
        SameSitePolicy::Unrestricted
    } else {
        SameSitePolicy::Lax
    }
}

impl SecurityConfig {
    /// The cookie policy of this configuration.
    pub fn same_site_policy(&self) -> (r: SameSitePolicy)
        ensures
            r == same_site_of(self.same_site@),
    {
        parse_same_site(self.same_site.as_str())
    }
}

/// How the session cookie is issued.
#[derive(Debug, Clone, Copy, PartialEq, Eq, Structural)]
pub struct CookiePolicy {
    pub secure: bool,
    pub http_only: bool,
    pub same_site: SameSitePolicy,
    /// Inactivity after which the session lapses, in milliseconds.
    pub max_idle_ms: u64,
}

/// The session cookie of a configuration: HTTP-only always, `Secure` and `SameSite` as
/// configured, and the sliding inactivity window of the session store.
pub fn cookie_policy(security: &SecurityConfig) -> (r: CookiePolicy)
    ensures
        r == (CookiePolicy {
            secure: security.secure_cookies,
            http_only: true,
            same_site: same_site_of(security.same_site@),
            max_idle_ms: INACTIVITY_MS,
        }),
{
    CookiePolicy {
        secure: security.secure_cookies,
        http_only: true,
        same_site: security.same_site_policy(),
        max_idle_ms: INACTIVITY_MS,
    }
}

} // verus!
