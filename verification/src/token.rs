//! The stored OAuth token: reading a token endpoint's reply, and deciding when to refresh.
use vstd::prelude::*;
use crate::json::{Json, get_str, get_u64};

verus! {

/// Where the token file lives unless `AGENT_AUTH_FILE` says otherwise.
pub const DEFAULT_AUTH_FILE: &'static str = "~/.config/openai-oauth-proxy/aopenai-browser-token.json";

/// The OAuth token endpoint.
pub const OPENAI_TOKEN_URL: &'static str = "https://auth.openai.com/oauth/token";

/// The OAuth client id of the Codex CLI.
pub const OPENAI_CLIENT_ID: &'static str = "app_EMoamEEZ73f0CkXaXp7hrann";

/// A token counts as expired this many seconds before its stated expiry.
pub const EXPIRY_SKEW_SECS: u64 = 60;

/// Lifetime assumed when a token reply states none.
pub const DEFAULT_EXPIRES_IN: u64 = 3600;

/// The token file's contents.
pub struct TokenFile {
    pub access_token: String,
    pub refresh_token: String,
    pub token_type: Option<String>,
    pub expires_at_unix: u64,
}

/// Why a token endpoint's reply holds no usable token.
#[derive(PartialEq, Eq, Structural, Debug, Clone, Copy)]
pub enum TokenPayloadError {
    MissingAccessToken,
    MissingRefreshToken,
}

impl TokenPayloadError {
    pub open spec fn text(self) -> Seq<char> {
        match self {
            TokenPayloadError::MissingAccessToken => "token response missing access_token"@,
            TokenPayloadError::MissingRefreshToken => "token response missing refresh_token"@,
        }
    }

    /// The error's message.
    pub fn message(&self) -> (m: String)
        ensures
            m@ == self.text(),
    {
        match self {
            TokenPayloadError::MissingAccessToken => "token response missing access_token".to_owned(),
            TokenPayloadError::MissingRefreshToken => "token response missing refresh_token".to_owned(),
        }
    }
}

pub open spec fn opt_view(o: Option<String>) -> Option<Seq<char>> {
    match o {
        Some(s) => Some(s@),
        None => None,
    }
}

/// The refresh token a reply leaves: its own when present and non-empty, else the fallback.
pub open spec fn chosen_refresh(payload: Json, fallback: Seq<char>) -> Seq<char> {
    match get_str(payload, "refresh_token"@) {
        Some(r) => if r.len() > 0 {
            r
        } else {
            fallback
        },
        None => fallback,
    }
}

/// The lifetime a reply states, or one hour.
pub open spec fn expires_in(payload: Json) -> u64 {
    match get_u64(payload, "expires_in"@) {
        Some(n) => n,
        None => DEFAULT_EXPIRES_IN,
    }
}

/// What a token reply yields at time `now`.
pub open spec fn payload_outcome(payload: Json, fallback: Seq<char>, now: u64) -> Result<
    (Seq<char>, Seq<char>, Option<Seq<char>>, int),
    TokenPayloadError,
> {
    match get_str(payload, "access_token"@) {
        None => Err(TokenPayloadError::MissingAccessToken),
        Some(access) => {
            let refresh = chosen_refresh(payload, fallback);
            if refresh.len() == 0 {
                Err(TokenPayloadError::MissingRefreshToken)
            } else {
                Ok((access, refresh, get_str(payload, "token_type"@), now + expires_in(payload)))
            }
        },
    }
}

/// The token file's fields as plain values.
pub open spec fn token_fields(t: TokenFile) -> (Seq<char>, Seq<char>, Option<Seq<char>>, int) {
    (t.access_token@, t.refresh_token@, opt_view(t.token_type), t.expires_at_unix as int)
}

/// Reads a token endpoint's JSON reply received at `now`: the access token is required, the
/// refresh token falls back to `refresh_fallback`, the lifetime to one hour.
pub fn parse_token_payload(payload: &Json, refresh_fallback: &str, now: u64) -> (r: Result<
    TokenFile,
    TokenPayloadError,
>)
    requires
        now + expires_in(*payload) <= u64::MAX,
    ensures
        match (r, payload_outcome(*payload, refresh_fallback@, now)) {
            (Ok(t), Ok(f)) => token_fields(t) == f,
            (Err(e), Err(f)) => e == f,
            _ => false,
        },
{
    let access = match payload.get_str("access_token") {
        Some(a) => a,
        None => return Err(TokenPayloadError::MissingAccessToken),
    };
    let refresh = match payload.get_str("refresh_token") {
        Some(r) => if !r.as_str().is_empty() {
            r
        } else {
            refresh_fallback.to_owned()
        },
        None => refresh_fallback.to_owned(),
    };
    if refresh.as_str().is_empty() {
        return Err(TokenPayloadError::MissingRefreshToken);
    }
    let lifetime = match payload.get_u64("expires_in") {
        Some(n) => n,
        None => DEFAULT_EXPIRES_IN,
    };
    let token_type = payload.get_str("token_type");
    Ok(TokenFile { access_token: access, refresh_token: refresh, token_type, expires_at_unix: now + lifetime })
}

/// A reply is accepted only when it holds a string access token; the token read from it always
/// carries a non-empty refresh token and expires no earlier than it was received.
pub proof fn accepted_payload_has_refresh_token(payload: Json, fallback: Seq<char>, now: u64)
    requires
        payload_outcome(payload, fallback, now) is Ok,
    ensures
        payload_outcome(payload, fallback, now)->Ok_0.1.len() > 0,
        payload_outcome(payload, fallback, now)->Ok_0.3 >= now,
        get_str(payload, "access_token"@) is Some,
{
}

/// Whether a token that expires at `expires_at` must be refreshed at `now`.
pub open spec fn token_needs_refresh(expires_at: u64, now: u64) -> bool {
    expires_at <= now + EXPIRY_SKEW_SECS
}

/// `true` when the stored token expires within the skew window of `now`.
pub fn needs_refresh(token: &TokenFile, now: u64) -> (b: bool)
    ensures
        b == token_needs_refresh(token.expires_at_unix, now),
{
    token.expires_at_unix <= now || token.expires_at_unix - now <= EXPIRY_SKEW_SECS
}

/// The form fields of a refresh-token grant.
pub open spec fn refresh_form_spec(refresh_token: Seq<char>, client_id: Seq<char>) -> Seq<
    (Seq<char>, Seq<char>),
> {
    seq![
        ("grant_type"@, "refresh_token"@),
        ("refresh_token"@, refresh_token),
        ("client_id"@, client_id),
    ]
}

pub open spec fn pairs_view(v: Seq<(String, String)>) -> Seq<(Seq<char>, Seq<char>)> {
    v.map_values(|p: (String, String)| (p.0@, p.1@))
}

/// The form fields of a refresh-token grant.
pub fn refresh_form(refresh_token: &str, client_id: &str) -> (form: Vec<(String, String)>)
    ensures
        pairs_view(form@) == refresh_form_spec(refresh_token@, client_id@),
{
    let mut form: Vec<(String, String)> = Vec::new();
    form.push(("grant_type".to_owned(), "refresh_token".to_owned()));
    form.push(("refresh_token".to_owned(), refresh_token.to_owned()));
    form.push(("client_id".to_owned(), client_id.to_owned()));
    assert(pairs_view(form@) == refresh_form_spec(refresh_token@, client_id@));
    form
}

/// What to do with a stored token at `now`: hand out its access token, or refresh it.
pub enum AccessTokenPlan {
    Use(String),
    Refresh { refresh_token: String, form: Vec<(String, String)> },
}

/// Decides between using the stored token and refreshing it with the given client id.
pub fn plan_access_token(stored: &TokenFile, now: u64, client_id: &str) -> (plan: AccessTokenPlan)
    ensures
        match plan {
            AccessTokenPlan::Use(a) => !token_needs_refresh(stored.expires_at_unix, now)
                && a@ == stored.access_token@,
            AccessTokenPlan::Refresh { refresh_token, form } => token_needs_refresh(
                stored.expires_at_unix,
                now,
            ) && refresh_token@ == stored.refresh_token@ && pairs_view(form@)
                == refresh_form_spec(stored.refresh_token@, client_id@),
        },
{
    if needs_refresh(stored, now) {
        let form = refresh_form(stored.refresh_token.as_str(), client_id);
        AccessTokenPlan::Refresh { refresh_token: stored.refresh_token.clone(), form }
    } else {
        AccessTokenPlan::Use(stored.access_token.clone())
    }
}

/// The token a refresh reply yields: none unless the reply was a success whose body is JSON
/// that `parse_token_payload` accepts, with the old refresh token as fallback.
pub fn refreshed_token(success: bool, payload: Option<&Json>, old_refresh: &str, now: u64) -> (r:
    Option<TokenFile>)
    requires
        payload matches Some(p) ==> now + expires_in(*p) <= u64::MAX,
    ensures
        match r {
            Some(t) => success && (payload matches Some(p) && payload_outcome(
                *p,
                old_refresh@,
                now,
            ) == Ok::<_, TokenPayloadError>(token_fields(t))),
            None => !success || payload is None || payload_outcome(
                *payload->0,
                old_refresh@,
                now,
            ) is Err,
        },
{
    if !success {
        return None;
    }
    match payload {
        Some(p) => match parse_token_payload(p, old_refresh, now) {
            Ok(t) => Some(t),
            Err(_) => None,
        },
        None => None,
    }
}

/// The token file path setting: the `AGENT_AUTH_FILE` value when set, else the default
/// (before `~` expansion).
pub fn auth_file_setting(env_value: Option<&str>) -> (path: String)
    ensures
        path@ == match env_value {
            Some(v) => v@,
            None => DEFAULT_AUTH_FILE@,
        },
{
    match env_value {
        Some(v) => v.to_owned(),
        None => DEFAULT_AUTH_FILE.to_owned(),
    }
}

} // verus!
