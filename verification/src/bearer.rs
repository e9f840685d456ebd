//! Which bearer token the proxy forwards upstream, and what a JWT's claims say of it.
use vstd::prelude::*;
use crate::json::{Json, get_str, get_u64, json_get};
use crate::pkce::{b64url, b64url_decode};
use crate::text::{contains, eq_ignore_ascii_case, split_char, trim_ws};

verus! {

/// A JWT counts as expired this many seconds before its `exp` claim.
pub const TOKEN_EXPIRY_SKEW_SECS: u64 = 60;

pub const MSG_OAUTH_EXPIRED: &'static str =
    "OPENAI_OAUTH_TOKEN appears expired and local auth file could not refresh. Run: cargo run -- auth";

pub const MSG_MISSING_BROWSER: &'static str =
    "Missing browser bearer token. Set OPENAI_OAUTH_TOKEN or run: cargo run -- auth";

pub const MSG_MISSING: &'static str =
    "Missing bearer token. Set OPENAI_PROXY_BEARER_TOKEN, OPENAI_API_KEY, OPENAI_OAUTH_TOKEN or run: cargo run -- auth";

/// An environment value as a token source sees it: trimmed, and absent when empty.
pub open spec fn env_token(raw: Option<Seq<char>>) -> Option<Seq<char>> {
    match raw {
        Some(v) => if trim_ws(v).len() == 0 {
            None
        } else {
            Some(trim_ws(v))
        },
        None => None,
    }
}

/// The trimmed environment value, or nothing when it is unset or blank.
pub fn read_env_token(raw: Option<&str>) -> (r: Option<String>)
    ensures
        crate::token::opt_view(r) == env_token(
            match raw {
                Some(v) => Some(v@),
                None => None,
            },
        ),
{
    match raw {
        Some(v) => {
            let t = crate::text::trim(v);
            if t.as_str().is_empty() {
                None
            } else {
                Some(t)
            }
        },
        None => None,
    }
}

/// `true` for the upstream that speaks the ChatGPT (OAuth) protocol.
pub open spec fn is_oauth_base(base: Seq<char>) -> bool {
    contains(base, "chatgpt.com"@)
}

pub fn is_oauth_upstream(base: &str) -> (b: bool)
    ensures
        b == is_oauth_base(base@),
{
    crate::text::contains_str(base, "chatgpt.com")
}

/// A client's placeholder API key: blank, or `proxy` in any ASCII case.
pub open spec fn is_placeholder(v: Seq<char>) -> bool {
    trim_ws(v).len() == 0 || eq_ignore_ascii_case(trim_ws(v), "proxy"@)
}

pub fn is_proxy_placeholder(value: &str) -> (b: bool)
    ensures
        b == is_placeholder(value@),
{
    let v = crate::text::trim(value);
    v.as_str().is_empty() || crate::text::eq_ignore_ascii_case_str(v.as_str(), "proxy")
}

/// The second `.`-separated segment of a JWT (its payload), if there is one.
pub open spec fn jwt_segment(token: Seq<char>) -> Option<Seq<char>> {
    if split_char(token, '.').len() >= 2 {
        Some(split_char(token, '.')[1])
    } else {
        None
    }
}

pub fn jwt_payload_segment(token: &str) -> (r: Option<String>)
    ensures
        crate::token::opt_view(r) == jwt_segment(token@),
{
    let parts = crate::text::split_on_char(token, '.');
    if parts.len() >= 2 {
        assert(parts@.map_values(|p: String| p@)[1] == parts@[1]@);
        Some(parts[1].clone())
    } else {
        None
    }
}

/// The decoded payload bytes of a JWT: its second segment read as unpadded base64url.
pub fn jwt_payload_bytes(token: &str) -> (r: Option<Vec<u8>>)
    ensures
        match r {
            Some(b) => jwt_segment(token@) == Some(b64url(b@)),
            None => match jwt_segment(token@) {
                Some(seg) => forall|b: Seq<u8>| b64url(b) != seg,
                None => true,
            },
        },
{
    match jwt_payload_segment(token) {
        Some(seg) => b64url_decode(seg.as_str()),
        None => None,
    }
}

/// The `exp` claim of a JWT payload.
pub fn jwt_exp(claims: &Json) -> (r: Option<u64>)
    ensures
        r == get_u64(*claims, "exp"@),
{
    claims.get_u64("exp")
}

/// The `chatgpt_account_id` inside the `https://api.openai.com/auth` claim.
pub open spec fn account_id_claim(claims: Json) -> Option<Seq<char>> {
    match json_get(claims, "https://api.openai.com/auth"@) {
        Some(auth) => get_str(auth, "chatgpt_account_id"@),
        None => None,
    }
}

pub fn chatgpt_account_id(claims: &Json) -> (r: Option<String>)
    ensures
        crate::token::opt_view(r) == account_id_claim(*claims),
{
    match claims.get("https://api.openai.com/auth") {
        Some(auth) => auth.get_str("chatgpt_account_id"),
        None => None,
    }
}

/// Whether an `exp` claim has passed (within the skew) at `now`; no claim is no expiry.
pub open spec fn exp_expired(exp: Option<u64>, now: u64) -> bool {
    match exp {
        Some(e) => e <= now + TOKEN_EXPIRY_SKEW_SECS,
        None => false,
    }
}

pub fn is_expired_exp(exp: Option<u64>, now: u64) -> (b: bool)
    ensures
        b == exp_expired(exp, now),
{
    match exp {
        Some(e) => e <= now || e - now <= TOKEN_EXPIRY_SKEW_SECS,
        None => false,
    }
}

/// The token sources in the environment, each as `read_env_token` gives it, with the `exp`
/// claim of the OAuth token and the current time.
pub struct TokenEnv {
    pub proxy_bearer: Option<String>,
    pub oauth_token: Option<String>,
    pub oauth_token_exp: Option<u64>,
    pub api_key: Option<String>,
    pub now: u64,
}

pub open spec fn oauth_env_expired(env: TokenEnv) -> bool {
    env.oauth_token is Some && exp_expired(env.oauth_token_exp, env.now)
}

pub open spec fn usable_api_key(env: TokenEnv) -> Option<Seq<char>> {
    match env.api_key {
        Some(k) => if is_placeholder(k@) {
            None
        } else {
            Some(k@)
        },
        None => None,
    }
}

/// Whether the decision needs the token from the local auth file.
pub open spec fn needs_browser_token(env: TokenEnv, base: Seq<char>) -> bool {
    env.proxy_bearer is None && if is_oauth_base(base) {
        !(env.oauth_token is Some && !oauth_env_expired(env)) && usable_api_key(env) is None
    } else {
        usable_api_key(env) is None && env.oauth_token is None
    }
}

/// The bearer token to forward, given the token from the local auth file (if loaded).
pub open spec fn bearer_outcome(env: TokenEnv, base: Seq<char>, browser: Option<Seq<char>>) -> Result<
    Seq<char>,
    Seq<char>,
> {
    match env.proxy_bearer {
        Some(v) => Ok(v@),
        None => if is_oauth_base(base) {
            if env.oauth_token is Some && !oauth_env_expired(env) {
                Ok(env.oauth_token->0@)
            } else if usable_api_key(env) is Some {
                Ok(usable_api_key(env)->0)
            } else if browser is Some {
                Ok(browser->0)
            } else if oauth_env_expired(env) {
                Err(MSG_OAUTH_EXPIRED@)
            } else {
                Err(MSG_MISSING_BROWSER@)
            }
        } else {
            if usable_api_key(env) is Some {
                Ok(usable_api_key(env)->0)
            } else if env.oauth_token is Some {
                Ok(env.oauth_token->0@)
            } else if browser is Some {
                Ok(browser->0)
            } else {
                Err(MSG_MISSING@)
            }
        },
    }
}

pub open spec fn result_view(r: Result<String, String>) -> Result<Seq<char>, Seq<char>> {
    match r {
        Ok(s) => Ok(s@),
        Err(e) => Err(e@),
    }
}

/// The first step of choosing the bearer token: done, or the local auth file is needed.
pub enum BearerStep {
    Done(Result<String, String>),
    NeedBrowserToken,
}

fn usable_key(env: &TokenEnv) -> (r: Option<String>)
    ensures
        crate::token::opt_view(r) == usable_api_key(*env),
{
    match &env.api_key {
        Some(k) => if is_proxy_placeholder(k.as_str()) {
            None
        } else {
            Some(k.clone())
        },
        None => None,
    }
}

fn oauth_expired(env: &TokenEnv) -> (b: bool)
    ensures
        b == oauth_env_expired(*env),
{
    env.oauth_token.is_some() && is_expired_exp(env.oauth_token_exp, env.now)
}

/// Picks the bearer token without the local auth file where the sources allow it.
pub fn bearer_token_step(env: &TokenEnv, upstream_base: &str) -> (step: BearerStep)
    ensures
        match step {
            BearerStep::Done(r) => !needs_browser_token(*env, upstream_base@) && forall|
                b: Option<Seq<char>>,
            | #[trigger] bearer_outcome(*env, upstream_base@, b) == result_view(r),
            BearerStep::NeedBrowserToken => needs_browser_token(*env, upstream_base@),
        },
{
    if let Some(v) = &env.proxy_bearer {
        return BearerStep::Done(Ok(v.clone()));
    }
    if is_oauth_upstream(upstream_base) {
        if let Some(v) = &env.oauth_token {
            if !oauth_expired(env) {
                return BearerStep::Done(Ok(v.clone()));
            }
        }
        if let Some(k) = usable_key(env) {
            return BearerStep::Done(Ok(k));
        }
        BearerStep::NeedBrowserToken
    } else {
        if let Some(k) = usable_key(env) {
            return BearerStep::Done(Ok(k));
        }
        if let Some(v) = &env.oauth_token {
            return BearerStep::Done(Ok(v.clone()));
        }
        BearerStep::NeedBrowserToken
    }
}

/// Picks the bearer token given the outcome of loading the local auth file.
pub fn bearer_token_with_browser(env: &TokenEnv, upstream_base: &str, browser: Option<String>) -> (r:
    Result<String, String>)
    ensures
        result_view(r) == bearer_outcome(*env, upstream_base@, crate::token::opt_view(browser)),
{
    match bearer_token_step(env, upstream_base) {
        BearerStep::Done(r) => {
            assert(bearer_outcome(*env, upstream_base@, crate::token::opt_view(browser))
                == result_view(r));
            r
        },
        BearerStep::NeedBrowserToken => {
            if let Some(t) = browser {
                return Ok(t);
            }
            if is_oauth_upstream(upstream_base) {
                if oauth_expired(env) {
                    return Err(MSG_OAUTH_EXPIRED.to_owned());
                }
                Err(MSG_MISSING_BROWSER.to_owned())
            } else {
                Err(MSG_MISSING.to_owned())
            }
        },
    }
}

/// A token from `OPENAI_PROXY_BEARER_TOKEN` is forwarded whatever the other sources hold.
pub proof fn explicit_bearer_wins(env: TokenEnv, base: Seq<char>, browser: Option<Seq<char>>)
    requires
        env.proxy_bearer is Some,
    ensures
        bearer_outcome(env, base, browser) == Ok::<Seq<char>, Seq<char>>(env.proxy_bearer->0@),
        !needs_browser_token(env, base),
{
}

/// When the decision does not need the local auth file, what that file holds cannot change
/// it.
pub proof fn browser_token_irrelevant_when_not_needed(
    env: TokenEnv,
    base: Seq<char>,
    b1: Option<Seq<char>>,
    b2: Option<Seq<char>>,
)
    requires
        !needs_browser_token(env, base),
    ensures
        bearer_outcome(env, base, b1) == bearer_outcome(env, base, b2),
{
}

/// The environment's sources come before the local auth file: whenever `OPENAI_OAUTH_TOKEN`
/// (unexpired, on the ChatGPT upstream) or a usable `OPENAI_API_KEY` is set, the file is not
/// consulted and the token is one of those.
pub proof fn env_sources_before_auth_file(
    env: TokenEnv,
    base: Seq<char>,
    browser: Option<Seq<char>>,
)
    requires
        env.proxy_bearer is None,
        usable_api_key(env) is Some || (env.oauth_token is Some && (!is_oauth_base(base)
            || !oauth_env_expired(env))),
    ensures
        !needs_browser_token(env, base),
        bearer_outcome(env, base, browser) == Ok::<Seq<char>, Seq<char>>(env.oauth_token->0@)
            || bearer_outcome(env, base, browser) == Ok::<Seq<char>, Seq<char>>(
            usable_api_key(env)->0,
        ),
{
}

/// The local auth file is consulted only when no environment source yields a token.
pub proof fn auth_file_only_without_env_token(env: TokenEnv, base: Seq<char>)
    requires
        needs_browser_token(env, base),
    ensures
        env.proxy_bearer is None,
        usable_api_key(env) is None,
        env.oauth_token is Some ==> is_oauth_base(base) && oauth_env_expired(env),
{
}

/// A placeholder API key (`proxy`, blank) is never forwarded as a bearer token.
pub proof fn placeholder_key_never_forwarded(
    env: TokenEnv,
    base: Seq<char>,
    browser: Option<Seq<char>>,
)
    requires
        env.api_key is Some,
        is_placeholder(env.api_key->0@),
        env.proxy_bearer is None,
        env.oauth_token is None,
        browser is None,
    ensures
        bearer_outcome(env, base, browser) is Err,
{
}

/// When the decision needs the local auth file and the file yields a token, that token is
/// forwarded.
pub proof fn auth_file_token_forwarded_when_needed(env: TokenEnv, base: Seq<char>, t: Seq<char>)
    requires
        needs_browser_token(env, base),
    ensures
        bearer_outcome(env, base, Some(t)) == Ok::<Seq<char>, Seq<char>>(t),
{
}

/// With no explicit bearer, no `OPENAI_OAUTH_TOKEN`, and an `OPENAI_API_KEY` that is absent or
/// only the client placeholder, the token of the local auth file is forwarded, on every
/// upstream.
pub proof fn placeholder_key_falls_back_to_auth_file(env: TokenEnv, base: Seq<char>, t: Seq<char>)
    requires
        env.proxy_bearer is None,
        env.oauth_token is None,
        env.api_key matches Some(k) ==> is_placeholder(k@),
    ensures
        needs_browser_token(env, base),
        bearer_outcome(env, base, Some(t)) == Ok::<Seq<char>, Seq<char>>(t),
{
}

} // verus!
