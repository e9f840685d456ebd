//! The OAuth 2.0 PKCE browser login: authorize URL, redirect parsing, code exchange, and the
//! login flow as a state machine.
use vstd::prelude::*;
use crate::json::Json;
use crate::percent::{url_decode, url_decoded, url_encode, url_encoded};
use vstd::string::StringSliceAdditionalSpecFns;
use crate::token::{TokenFile, expires_in, opt_view, pairs_view, payload_outcome, token_fields};
use crate::text::{
    contains, find_char, join, str_eq, lines, split_char, split_once_char, starts_with, trim_end_char,
    trim_ws, words,
};

verus! {

pub const OPENAI_AUTHORIZE_URL: &'static str = "https://auth.openai.com/oauth/authorize";

pub const OPENAI_REDIRECT_URI: &'static str = "http://localhost:1455/auth/callback";

pub const OPENAI_SCOPE: &'static str =
    "openid profile email offline_access model.request api.model.read api.responses.write";

/// The models this proxy offers.
pub open spec fn hard_coded_models() -> Seq<Seq<char>> {
    seq!["gpt-4o-mini"@, "gpt-5.1-codex"@, "gpt-5.2-codex"@, "gpt-5.3-codex"@]
}

/// The built-in model list.
pub fn list_models() -> (models: Vec<String>)
    ensures
        models@.map_values(|m: String| m@) == hard_coded_models(),
{
    let mut models: Vec<String> = Vec::new();
    models.push("gpt-4o-mini".to_owned());
    models.push("gpt-5.1-codex".to_owned());
    models.push("gpt-5.2-codex".to_owned());
    models.push("gpt-5.3-codex".to_owned());
    assert(models@.map_values(|m: String| m@) =~= hard_coded_models());
    models
}

/// A flag's value that switches it on: `1`, `true`, `yes`, `on` (lower or upper case).
pub open spec fn is_truthy(v: Option<Seq<char>>) -> bool {
    match v {
        Some(s) => s == "1"@ || s == "true"@ || s == "TRUE"@ || s == "yes"@ || s == "YES"@ || s
            == "on"@ || s == "ON"@,
        None => false,
    }
}

pub open spec fn opt_str_view(v: Option<&str>) -> Option<Seq<char>> {
    match v {
        Some(s) => Some(s@),
        None => None,
    }
}

/// Whether a flag's environment value switches it on.
pub fn flag_enabled(value: Option<&str>) -> (b: bool)
    ensures
        b == is_truthy(opt_str_view(value)),
{
    match value {
        Some(s) => {
            str_eq(s, "1") || str_eq(s, "true") || str_eq(s, "TRUE") || str_eq(s, "yes")
                || str_eq(s, "YES") || str_eq(s, "on") || str_eq(s, "ON")
        },
        None => false,
    }
}

/// The browser opens by itself unless `OPENAI_OAUTH_NO_BROWSER` is switched on.
pub fn browser_open_enabled(no_browser: Option<&str>) -> (b: bool)
    ensures
        b == !is_truthy(opt_str_view(no_browser)),
{
    !flag_enabled(no_browser)
}

/// The OAuth settings of a login, each from its environment variable or its default.
pub struct OAuthSettings {
    pub redirect_uri: String,
    pub auth_url: String,
    pub token_url: String,
    pub client_id: String,
    pub scope: String,
}

pub open spec fn or_default(v: Option<&str>, d: Seq<char>) -> Seq<char> {
    match v {
        Some(s) => s@,
        None => d,
    }
}

fn setting(v: Option<&str>, default: &str) -> (r: String)
    ensures
        r@ == or_default(v, default@),
{
    match v {
        Some(s) => s.to_owned(),
        None => default.to_owned(),
    }
}

/// The settings from `OPENAI_OAUTH_REDIRECT_URI`, `OPENAI_OAUTH_AUTH_URL`,
/// `OPENAI_OAUTH_TOKEN_URL`, `OPENAI_OAUTH_CLIENT_ID` and `OPENAI_OAUTH_SCOPE`.
pub fn oauth_settings(
    redirect_uri: Option<&str>,
    auth_url: Option<&str>,
    token_url: Option<&str>,
    client_id: Option<&str>,
    scope: Option<&str>,
) -> (s: OAuthSettings)
    ensures
        s.redirect_uri@ == or_default(redirect_uri, OPENAI_REDIRECT_URI@),
        s.auth_url@ == or_default(auth_url, OPENAI_AUTHORIZE_URL@),
        s.token_url@ == or_default(token_url, crate::token::OPENAI_TOKEN_URL@),
        s.client_id@ == or_default(client_id, crate::token::OPENAI_CLIENT_ID@),
        s.scope@ == or_default(scope, OPENAI_SCOPE@),
{
    OAuthSettings {
        redirect_uri: setting(redirect_uri, OPENAI_REDIRECT_URI),
        auth_url: setting(auth_url, OPENAI_AUTHORIZE_URL),
        token_url: setting(token_url, crate::token::OPENAI_TOKEN_URL),
        client_id: setting(client_id, crate::token::OPENAI_CLIENT_ID),
        scope: setting(scope, OPENAI_SCOPE),
    }
}

/// The parameters of the authorize request, in order.
pub open spec fn authorize_params(
    client_id: Seq<char>,
    redirect_uri: Seq<char>,
    scope: Seq<char>,
    code_challenge: Seq<char>,
    state: Seq<char>,
) -> Seq<(Seq<char>, Seq<char>)> {
    seq![
        ("response_type"@, "code"@),
        ("client_id"@, client_id),
        ("redirect_uri"@, redirect_uri),
        ("scope"@, scope),
        ("code_challenge"@, code_challenge),
        ("code_challenge_method"@, "S256"@),
        ("state"@, state),
        ("id_token_add_organizations"@, "true"@),
        ("codex_cli_simplified_flow"@, "true"@),
        ("originator"@, "codex_cli_rs"@),
    ]
}

/// One `key=value` pair of a query, both percent-encoded.
pub open spec fn encoded_param(p: (Seq<char>, Seq<char>)) -> Seq<char> {
    url_encoded(p.0) + "="@ + url_encoded(p.1)
}

/// The encoded pairs, joined by `&`.
pub open spec fn query_string(params: Seq<(Seq<char>, Seq<char>)>) -> Seq<char> {
    join(params.map_values(|p: (Seq<char>, Seq<char>)| encoded_param(p)), "&"@)
}

/// The authorize URL: the endpoint without trailing `/`, `?`, and the query.
pub open spec fn authorize_url(
    auth_url: Seq<char>,
    client_id: Seq<char>,
    redirect_uri: Seq<char>,
    scope: Seq<char>,
    code_challenge: Seq<char>,
    state: Seq<char>,
) -> Seq<char> {
    trim_end_char(auth_url, '/') + "?"@ + query_string(
        authorize_params(client_id, redirect_uri, scope, code_challenge, state),
    )
}

fn encoded_pair(k: &str, v: &str) -> (r: String)
    ensures
        r@ == url_encoded(k@) + "="@ + url_encoded(v@),
{
    let mut r = url_encode(k);
    r.append("=");
    let ev = url_encode(v);
    r.append(ev.as_str());
    r
}

/// The URL that starts the browser login.
pub fn build_authorize_url(
    client_id: &str,
    redirect_uri: &str,
    scope: &str,
    code_challenge: &str,
    state: &str,
    auth_url: &str,
) -> (url: String)
    ensures
        url@ == authorize_url(auth_url@, client_id@, redirect_uri@, scope@, code_challenge@, state@),
{
    let ghost params = authorize_params(client_id@, redirect_uri@, scope@, code_challenge@, state@);
    let mut parts: Vec<String> = Vec::new();
    parts.push(encoded_pair("response_type", "code"));
    parts.push(encoded_pair("client_id", client_id));
    parts.push(encoded_pair("redirect_uri", redirect_uri));
    parts.push(encoded_pair("scope", scope));
    parts.push(encoded_pair("code_challenge", code_challenge));
    parts.push(encoded_pair("code_challenge_method", "S256"));
    parts.push(encoded_pair("state", state));
    parts.push(encoded_pair("id_token_add_organizations", "true"));
    parts.push(encoded_pair("codex_cli_simplified_flow", "true"));
    parts.push(encoded_pair("originator", "codex_cli_rs"));
    assert(parts@.map_values(|p: String| p@) =~= params.map_values(
        |p: (Seq<char>, Seq<char>)| encoded_param(p),
    ));
    let query = crate::text::join_strings(&parts, "&");
    let mut url = crate::text::trim_end_matches_char(auth_url, '/');
    url.append("?");
    url.append(query.as_str());
    url
}

/// Host, port, path and query of a URL, as plain values.
pub struct UrlParts {
    pub host: Option<String>,
    pub port: Option<u16>,
    pub path: String,
    pub query: Option<String>,
}

pub open spec fn url_parts_view(p: UrlParts) -> (Option<Seq<char>>, Option<u16>, Seq<char>, Option<
    Seq<char>,
>) {
    (crate::token::opt_view(p.host), p.port, p.path@, crate::token::opt_view(p.query))
}

/// The components of a URL as the `url` crate parses it, or nothing when it does not.
pub uninterp spec fn url_components(s: Seq<char>) -> Option<
    (Option<Seq<char>>, Option<u16>, Seq<char>, Option<Seq<char>>),
>;

/// Calls `url::Url::parse` and reads `host_str`, `port`, `path` and `query` of the result;
/// what comes back is named `url_components` of the input.
#[verifier::external_body]
fn parse_url(s: &str) -> (r: Option<UrlParts>)
    ensures
        match r {
            Some(p) => url_components(s@) == Some(url_parts_view(p)),
            None => url_components(s@) is None,
        },
{
    match url::Url::parse(s) {
        Ok(u) => Some(
            UrlParts {
                host: u.host_str().map(|h| h.to_owned()),
                port: u.port(),
                path: u.path().to_owned(),
                query: u.query().map(|q| q.to_owned()),
            },
        ),
        Err(_) => None,
    }
}

/// Where the callback listener binds and which path it expects: the redirect URI's host
/// (`127.0.0.1` when it has none), port (1455 when it has none) and path (`/auth/callback`
/// when empty).
pub open spec fn redirect_target(uri: Seq<char>) -> Option<(Seq<char>, u16, Seq<char>)> {
    match url_components(uri) {
        Some((host, port, path, _)) => Some(
            (
                match host {
                    Some(h) => h,
                    None => "127.0.0.1"@,
                },
                match port {
                    Some(p) => p,
                    None => 1455u16,
                },
                if path.len() == 0 {
                    "/auth/callback"@
                } else {
                    path
                },
            ),
        ),
        None => None,
    }
}

pub fn parse_redirect_uri(uri: &str) -> (r: Option<(String, u16, String)>)
    ensures
        match r {
            Some(t) => redirect_target(uri@) == Some((t.0@, t.1, t.2@)),
            None => redirect_target(uri@) is None,
        },
{
    let parts = match parse_url(uri) {
        Some(p) => p,
        None => return None,
    };
    let host = match parts.host {
        Some(h) => h,
        None => "127.0.0.1".to_owned(),
    };
    let port = match parts.port {
        Some(p) => p,
        None => 1455,
    };
    let path = if parts.path.as_str().is_empty() {
        "/auth/callback".to_owned()
    } else {
        parts.path
    };
    Some((host, port, path))
}

/// The decoded value of the first `key=` pair of a query; nothing when a pair before it has
/// no `=`, or its value does not decode.
pub open spec fn find_param(pairs: Seq<Seq<char>>, key: Seq<char>) -> Option<Seq<char>>
    decreases pairs.len(),
{
    if pairs.len() == 0 {
        None
    } else {
        match split_once_char(pairs[0], '=') {
            None => None,
            Some((k, v)) => if k == key {
                url_decoded(v)
            } else {
                find_param(pairs.drop_first(), key)
            },
        }
    }
}

pub open spec fn query_param(query: Seq<char>, key: Seq<char>) -> Option<Seq<char>> {
    find_param(split_char(query, '&'), key)
}

/// The decoded value of `key` in a query string (see `find_param`).
pub fn extract_param(query: &str, key: &str) -> (r: Option<String>)
    ensures
        crate::token::opt_view(r) == query_param(query@, key@),
{
    let pairs = crate::text::split_on_char(query, '&');
    let ghost pv = pairs@.map_values(|p: String| p@);
    let mut i: usize = 0;
    assert(pv.skip(0) == pv);
    while i < pairs.len()
        invariant
            i <= pairs@.len(),
            pv == pairs@.map_values(|p: String| p@),
            pv == split_char(query@, '&'),
            find_param(pv.skip(i as int), key@) == query_param(query@, key@),
        decreases pairs.len() - i,
    {
        assert(pv.skip(i as int)[0] == pairs@[i as int]@);
        assert(pv.skip(i as int).drop_first() == pv.skip(i + 1));
        match crate::text::split_once_on_char(pairs[i].as_str(), '=') {
            None => return None,
            Some((k, v)) => {
                if crate::text::str_eq(k.as_str(), key) {
                    return url_decode(v.as_str());
                }
            },
        }
        i += 1;
    }
    assert(pv.skip(pairs@.len() as int).len() == 0);
    None
}

/// The value of the first parameter whose encoded name is `key`.
pub open spec fn param_lookup(params: Seq<(Seq<char>, Seq<char>)>, key: Seq<char>) -> Option<
    Seq<char>,
>
    decreases params.len(),
{
    if params.len() == 0 {
        None
    } else if url_encoded(params[0].0) == key {
        Some(params[0].1)
    } else {
        param_lookup(params.drop_first(), key)
    }
}

proof fn lemma_encoded_param_split(p: (Seq<char>, Seq<char>))
    ensures
        split_once_char(encoded_param(p), '=') == Some((url_encoded(p.0), url_encoded(p.1))),
        forall|j: int|
            0 <= j < encoded_param(p).len() ==> #[trigger] encoded_param(p)[j] != '&',
{
    let a = url_encoded(p.0);
    let b = url_encoded(p.1);
    let e = encoded_param(p);
    reveal_strlit("=");
    crate::percent::lemma_percent_encoded_chars(vstd::utf8::encode_utf8(p.0));
    crate::percent::lemma_percent_encoded_chars(vstd::utf8::encode_utf8(p.1));
    assert forall|j: int| 0 <= j < a.len() implies #[trigger] e[j] != '=' by {
        assert(e[j] == a[j]);
    }
    assert forall|j: int| 0 <= j < e.len() implies #[trigger] e[j] != '&' by {
        if j < a.len() {
            assert(e[j] == a[j]);
        } else if j > a.len() {
            assert(e[j] == b[j - a.len() - 1]);
        }
    }
    crate::text::lemma_find_char_at(e, '=', a.len() as int);
    assert(e.take(a.len() as int) =~= a);
    assert(e.skip(a.len() as int + 1) =~= b);
}

proof fn lemma_find_param_encoded(params: Seq<(Seq<char>, Seq<char>)>, key: Seq<char>)
    ensures
        find_param(params.map_values(|p: (Seq<char>, Seq<char>)| encoded_param(p)), key)
            == param_lookup(params, key),
    decreases params.len(),
{
    if params.len() > 0 {
        let parts = params.map_values(|p: (Seq<char>, Seq<char>)| encoded_param(p));
        lemma_encoded_param_split(params[0]);
        crate::percent::lemma_url_round_trip(params[0].1);
        assert(parts.drop_first() =~= params.drop_first().map_values(
            |p: (Seq<char>, Seq<char>)| encoded_param(p),
        ));
        lemma_find_param_encoded(params.drop_first(), key);
    }
}

/// Reading a parameter back from a query built of encoded pairs gives the value of the first
/// pair with that encoded name.
pub proof fn lemma_query_param_lookup(params: Seq<(Seq<char>, Seq<char>)>, key: Seq<char>)
    requires
        params.len() > 0,
    ensures
        query_param(query_string(params), key) == param_lookup(params, key),
{
    let parts = params.map_values(|p: (Seq<char>, Seq<char>)| encoded_param(p));
    reveal_strlit("&");
    assert forall|k: int, j: int| 0 <= k < parts.len() && 0 <= j < parts[k].len() implies #[trigger] parts[k][j]
        != '&' by {
        lemma_encoded_param_split(params[k]);
    }
    crate::text::lemma_split_join(parts, '&');
    assert("&"@ == seq!['&']);
    lemma_find_param_encoded(params, key);
}

/// Reading the authorize request's query back gives each value that went into it (client id,
/// redirect URI, scope, code challenge, state), and it holds no `code` parameter.
pub proof fn authorize_query_reads_back(
    auth_url: Seq<char>,
    client_id: Seq<char>,
    redirect_uri: Seq<char>,
    scope: Seq<char>,
    code_challenge: Seq<char>,
    state: Seq<char>,
)
    ensures
        ({
            let q = query_string(
                authorize_params(client_id, redirect_uri, scope, code_challenge, state),
            );
            &&& authorize_url(auth_url, client_id, redirect_uri, scope, code_challenge, state)
                == trim_end_char(auth_url, '/') + "?"@ + q
            &&& query_param(q, "client_id"@) == Some(client_id)
            &&& query_param(q, "redirect_uri"@) == Some(redirect_uri)
            &&& query_param(q, "scope"@) == Some(scope)
            &&& query_param(q, "code_challenge"@) == Some(code_challenge)
            &&& query_param(q, "state"@) == Some(state)
            &&& query_param(q, "code"@) is None
        }),
{
    let params = authorize_params(client_id, redirect_uri, scope, code_challenge, state);
    reveal_strlit("response_type");
    reveal_strlit("client_id");
    reveal_strlit("redirect_uri");
    reveal_strlit("scope");
    reveal_strlit("code_challenge");
    reveal_strlit("code_challenge_method");
    reveal_strlit("state");
    reveal_strlit("id_token_add_organizations");
    reveal_strlit("codex_cli_simplified_flow");
    reveal_strlit("originator");
    reveal_strlit("code");
    crate::percent::lemma_url_encoded_unreserved("response_type"@);
    crate::percent::lemma_url_encoded_unreserved("client_id"@);
    crate::percent::lemma_url_encoded_unreserved("redirect_uri"@);
    crate::percent::lemma_url_encoded_unreserved("scope"@);
    crate::percent::lemma_url_encoded_unreserved("code_challenge"@);
    crate::percent::lemma_url_encoded_unreserved("code_challenge_method"@);
    crate::percent::lemma_url_encoded_unreserved("state"@);
    crate::percent::lemma_url_encoded_unreserved("id_token_add_organizations"@);
    crate::percent::lemma_url_encoded_unreserved("codex_cli_simplified_flow"@);
    crate::percent::lemma_url_encoded_unreserved("originator"@);
    assert("scope"@[1] != "state"@[1]);
    lemma_query_param_lookup(params, "client_id"@);
    lemma_query_param_lookup(params, "redirect_uri"@);
    lemma_query_param_lookup(params, "scope"@);
    lemma_query_param_lookup(params, "code_challenge"@);
    lemma_query_param_lookup(params, "state"@);
    lemma_query_param_lookup(params, "code"@);
    reveal_with_fuel(param_lookup, 11);
}

/// The `(code, state)` of a browser callback request: its first line's target must have the
/// expected path, and its query must hold both parameters.
pub open spec fn callback_params(data: Seq<char>, expected_path: Seq<char>) -> Option<
    (Seq<char>, Seq<char>),
> {
    if lines(data).len() == 0 {
        None
    } else {
        let parts = words(lines(data)[0]);
        if parts.len() < 2 {
            None
        } else {
            let target = parts[1];
            let (path, query) = match find_char(target, '?') {
                Some(i) => (target.take(i), target.skip(i + 1)),
                None => (target, seq![]),
            };
            if path != expected_path {
                None
            } else {
                match (query_param(query, "code"@), query_param(query, "state"@)) {
                    (Some(c), Some(st)) => Some((c, st)),
                    _ => None,
                }
            }
        }
    }
}

pub open spec fn pair_view(p: Option<(String, String)>) -> Option<(Seq<char>, Seq<char>)> {
    match p {
        Some(t) => Some((t.0@, t.1@)),
        None => None,
    }
}

/// Reads the `(code, state)` of a browser callback request (its text as received).
pub fn parse_callback_request(data: &str, expected_path: &str) -> (r: Option<(String, String)>)
    ensures
        pair_view(r) == callback_params(data@, expected_path@),
{
    let ls = crate::text::lines_of(data);
    if ls.len() == 0 {
        return None;
    }
    assert(ls@.map_values(|p: String| p@)[0] == ls@[0]@);
    let parts = crate::text::words_of(ls[0].as_str());
    if parts.len() < 2 {
        return None;
    }
    assert(parts@.map_values(|p: String| p@)[1] == parts@[1]@);
    let target = crate::text::chars_of(parts[1].as_str());
    let tn = target.len();
    assert(target@.skip(0) == target@);
    let (path, query) = match crate::text::find_char_from(&target, 0, '?') {
        Some(i) => {
            assert(target@.take(i as int) == target@.subrange(0, i as int));
            assert(target@.skip(i + 1) == target@.subrange(i + 1, target@.len() as int));
            (
                crate::text::string_of_range(&target, 0, i),
                crate::text::string_of_range(&target, i + 1, tn),
            )
        },
        None => (crate::text::string_of(&target), String::new()),
    };
    if !str_eq(path.as_str(), expected_path) {
        return None;
    }
    let code = match extract_param(query.as_str(), "code") {
        Some(c) => c,
        None => return None,
    };
    let state = match extract_param(query.as_str(), "state") {
        Some(st) => st,
        None => return None,
    };
    Some((code, state))
}

/// The text the callback listener answers with.
pub const CALLBACK_PAGE: &'static str = "Authentication complete. You can close this tab.";

/// The HTTP reply to the browser's callback request.
pub fn callback_http_response() -> (r: String)
    ensures
        r@ == "HTTP/1.1 200 OK\r\nContent-Type: text/plain\r\nContent-Length: "@
            + crate::text::decimal(CALLBACK_PAGE@.len()) + "\r\n\r\n"@ + CALLBACK_PAGE@,
{
    let mut r = "HTTP/1.1 200 OK\r\nContent-Type: text/plain\r\nContent-Length: ".to_owned();
    let n = crate::text::chars_of(CALLBACK_PAGE).len();
    let len = crate::text::decimal_string(n as u64);
    r.append(len.as_str());
    r.append("\r\n\r\n");
    r.append(CALLBACK_PAGE);
    r
}

/// The `(code, state)` a pasted redirect yields: from the query of a URL (the state defaulting
/// to the expected one), else from `code#state`, else the whole text as the code.
pub open spec fn manual_params(raw: Seq<char>, expected_state: Seq<char>) -> Option<
    (Seq<char>, Seq<char>),
> {
    let t = trim_ws(raw);
    if t.len() == 0 {
        None
    } else {
        let from_url = if contains(t, "?"@) || starts_with(t, "http"@) {
            match url_components(t) {
                Some((_, _, _, q)) => {
                    let query = match q {
                        Some(q) => q,
                        None => seq![],
                    };
                    match query_param(query, "code"@) {
                        Some(c) => Some(
                            (
                                c,
                                match query_param(query, "state"@) {
                                    Some(st) => st,
                                    None => expected_state,
                                },
                            ),
                        ),
                        None => None,
                    }
                },
                None => None,
            }
        } else {
            None
        };
        match from_url {
            Some(p) => Some(p),
            None => {
                let from_hash = match split_once_char(t, '#') {
                    Some((c, st)) => if trim_ws(c).len() > 0 && trim_ws(st).len() > 0 {
                        Some((trim_ws(c), trim_ws(st)))
                    } else {
                        None
                    },
                    None => None,
                };
                match from_hash {
                    Some(p) => Some(p),
                    None => Some((t, expected_state)),
                }
            },
        }
    }
}

fn params_from_url(t: &str, expected_state: &str) -> (r: Option<(String, String)>)
    ensures
        pair_view(r) == match url_components(t@) {
            Some((_, _, _, q)) => {
                let query = match q {
                    Some(q) => q,
                    None => seq![],
                };
                match query_param(query, "code"@) {
                    Some(c) => Some(
                        (
                            c,
                            match query_param(query, "state"@) {
                                Some(st) => st,
                                None => expected_state@,
                            },
                        ),
                    ),
                    None => None,
                }
            },
            None => None,
        },
{
    let parts = match parse_url(t) {
        Some(p) => p,
        None => return None,
    };
    let query = match parts.query {
        Some(q) => q,
        None => String::new(),
    };
    match extract_param(query.as_str(), "code") {
        Some(code) => {
            let state = match extract_param(query.as_str(), "state") {
                Some(st) => st,
                None => expected_state.to_owned(),
            };
            Some((code, state))
        },
        None => None,
    }
}

/// Reads a pasted redirect (a line of input) into `(code, state)`; see `manual_params`.
pub fn parse_manual_input(raw: &str, expected_state: &str) -> (r: Option<(String, String)>)
    ensures
        pair_view(r) == manual_params(raw@, expected_state@),
{
    let t = crate::text::trim(raw);
    if t.as_str().is_empty() {
        return None;
    }
    if crate::text::contains_str(t.as_str(), "?") || crate::text::starts_with_str(
        t.as_str(),
        "http",
    ) {
        if let Some(p) = params_from_url(t.as_str(), expected_state) {
            return Some(p);
        }
    }
    if let Some((c, st)) = crate::text::split_once_on_char(t.as_str(), '#') {
        let c = crate::text::trim(c.as_str());
        let st = crate::text::trim(st.as_str());
        if !c.as_str().is_empty() && !st.as_str().is_empty() {
            return Some((c, st));
        }
    }
    Some((t, expected_state.to_owned()))
}

/// The form fields of the authorization-code grant.
pub open spec fn exchange_form_spec(
    code: Seq<char>,
    client_id: Seq<char>,
    code_verifier: Seq<char>,
    redirect_uri: Seq<char>,
) -> Seq<(Seq<char>, Seq<char>)> {
    seq![
        ("grant_type"@, "authorization_code"@),
        ("code"@, code),
        ("client_id"@, client_id),
        ("code_verifier"@, code_verifier),
        ("redirect_uri"@, redirect_uri),
    ]
}

pub fn exchange_form(code: &str, client_id: &str, code_verifier: &str, redirect_uri: &str) -> (form:
    Vec<(String, String)>)
    ensures
        pairs_view(form@) == exchange_form_spec(code@, client_id@, code_verifier@, redirect_uri@),
{
    let mut form: Vec<(String, String)> = Vec::new();
    form.push(("grant_type".to_owned(), "authorization_code".to_owned()));
    form.push(("code".to_owned(), code.to_owned()));
    form.push(("client_id".to_owned(), client_id.to_owned()));
    form.push(("code_verifier".to_owned(), code_verifier.to_owned()));
    form.push(("redirect_uri".to_owned(), redirect_uri.to_owned()));
    assert(pairs_view(form@) =~= exchange_form_spec(
        code@,
        client_id@,
        code_verifier@,
        redirect_uri@,
    ));
    form
}

pub const HINT_PROXY_SET: &'static str =
    "\n  (HTTPS_PROXY is set - try OPENAI_OAUTH_NO_PROXY=1 if proxy breaks this)";

pub const HINT_NO_PROXY: &'static str =
    "\n  (auth.openai.com may be unreachable - try HTTPS_PROXY if in blocked region)";

/// The message for a token request that could not be sent.
pub open spec fn transport_message(
    token_url: Seq<char>,
    error: Seq<char>,
    source: Option<Seq<char>>,
    https_proxy_set: bool,
) -> Seq<char> {
    "request to "@ + token_url + " failed: "@ + error + match source {
        Some(c) => "\n  cause: "@ + c,
        None => seq![],
    } + if https_proxy_set {
        HINT_PROXY_SET@
    } else {
        HINT_NO_PROXY@
    }
}

pub fn transport_error_message(
    token_url: &str,
    error: &str,
    source: Option<&str>,
    https_proxy_set: bool,
) -> (m: String)
    ensures
        m@ == transport_message(token_url@, error@, opt_str_view(source), https_proxy_set),
{
    let mut m = crate::text::concat3("request to ", token_url, " failed: ");
    m.append(error);
    match source {
        Some(c) => {
            m.append("\n  cause: ");
            m.append(c);
        },
        None => {},
    }
    if https_proxy_set {
        m.append(HINT_PROXY_SET);
    } else {
        m.append(HINT_NO_PROXY);
    }
    m
}

/// At most the first 500 bytes of a reply body, marked with `...` when cut.
pub open spec fn body_excerpt(text: Seq<char>) -> Seq<char> {
    let bytes = vstd::utf8::encode_utf8(text);
    if bytes.len() > 500 {
        vstd::utf8::decode_utf8(bytes.take(500)) + "..."@
    } else {
        text
    }
}

/// Whether cutting the body at 500 bytes is possible (slicing a string panics inside a
/// character).
pub open spec fn excerpt_cut_ok(text: Seq<char>) -> bool {
    vstd::utf8::encode_utf8(text).len() > 500 ==> vstd::utf8::is_char_boundary(
        vstd::utf8::encode_utf8(text),
        500,
    )
}

fn excerpt(text: &str) -> (r: String)
    requires
        excerpt_cut_ok(text@),
    ensures
        r@ == body_excerpt(text@),
{
    if text.as_bytes().len() > 500 {
        let (head, _) = text.split_at(500);
        proof {
            broadcast use vstd::utf8::encode_utf8_decode_utf8;
            assert(head.spec_bytes() == text.spec_bytes().subrange(0, 500));
            assert(text.spec_bytes().subrange(0, 500) == text.spec_bytes().take(500));
            assert(vstd::utf8::decode_utf8(vstd::utf8::encode_utf8(head@)) == head@);
            assert(vstd::utf8::decode_utf8(text.spec_bytes().take(500)) == head@);
        }
        crate::text::concat2(head, "...")
    } else {
        text.to_owned()
    }
}

/// What the token endpoint answered to the code exchange.
pub enum ExchangeReply {
    /// The HTTP client could not be built.
    ClientUnavailable(String),
    /// The request could not be sent.
    SendFailed { error: String, source: Option<String>, https_proxy_set: bool },
    /// The reply's body could not be read.
    BodyUnreadable(String),
    /// A reply: whether its status is a success, the status as text, the body, the body read
    /// as JSON (or the parse error), and the time it arrived.
    Received { success: bool, status: String, body: String, parsed: Result<Json, String>, now: u64 },
}

/// Whether a reply is one that `exchange_outcome` may read (see `excerpt_cut_ok` and
/// `parse_token_payload`).
pub open spec fn reply_readable(reply: ExchangeReply) -> bool {
    match reply {
        ExchangeReply::Received { success, body, parsed, now, .. } => if success {
            parsed matches Ok(p) ==> now + expires_in(p) <= u64::MAX
        } else {
            excerpt_cut_ok(body@)
        },
        _ => true,
    }
}

/// The token a code-exchange reply yields, or the message of the failure.
pub open spec fn exchange_result(reply: ExchangeReply, token_url: Seq<char>) -> Result<
    (Seq<char>, Seq<char>, Option<Seq<char>>, int),
    Seq<char>,
> {
    match reply {
        ExchangeReply::ClientUnavailable(e) => Err(e@),
        ExchangeReply::SendFailed { error, source, https_proxy_set } => Err(
            transport_message(token_url, error@, opt_view(source), https_proxy_set),
        ),
        ExchangeReply::BodyUnreadable(e) => Err("failed to read response body: "@ + e@),
        ExchangeReply::Received { success, status, body, parsed, now } => if !success {
            Err("Token exchange HTTP "@ + status@ + ": "@ + body_excerpt(body@))
        } else {
            match parsed {
                Err(e) => Err("invalid JSON response: "@ + e@),
                Ok(p) => match payload_outcome(p, seq![], now) {
                    Ok(f) => Ok(f),
                    Err(e) => Err(e.text()),
                },
            }
        },
    }
}

/// Reads the token endpoint's reply to the code exchange.
pub fn exchange_outcome(reply: &ExchangeReply, token_url: &str) -> (r: Result<TokenFile, String>)
    requires
        reply_readable(*reply),
    ensures
        match (r, exchange_result(*reply, token_url@)) {
            (Ok(t), Ok(f)) => token_fields(t) == f,
            (Err(m), Err(f)) => m@ == f,
            _ => false,
        },
{
    match reply {
        ExchangeReply::ClientUnavailable(e) => Err(e.clone()),
        ExchangeReply::SendFailed { error, source, https_proxy_set } => {
            let src = match source {
                Some(c) => Some(c.as_str()),
                None => None,
            };
            Err(transport_error_message(token_url, error.as_str(), src, *https_proxy_set))
        },
        ExchangeReply::BodyUnreadable(e) => Err(
            crate::text::concat2("failed to read response body: ", e.as_str()),
        ),
        ExchangeReply::Received { success, status, body, parsed, now } => {
            if !*success {
                let mut m = crate::text::concat3("Token exchange HTTP ", status.as_str(), ": ");
                let ex = excerpt(body.as_str());
                m.append(ex.as_str());
                return Err(m);
            }
            match parsed {
                Err(e) => Err(crate::text::concat2("invalid JSON response: ", e.as_str())),
                Ok(p) => match {
                    proof {
                        reveal_strlit("");
                    }
                    crate::token::parse_token_payload(p, "", *now)
                } {
                    Ok(t) => Ok(t),
                    Err(e) => Err(e.message()),
                },
            }
        },
    }
}

pub const MSG_LOGIN_CANCELLED: &'static str = "Login cancelled or failed.";

pub const MSG_STATE_MISMATCH: &'static str = "OAuth state mismatch.";

pub const MSG_SAVE_FAILED: &'static str = "Failed to save token.";

pub const CONNECT_TIP: &'static str =
    "\n\nTip: auth.openai.com may be unreachable from your network.\n  - If in a blocked region: set HTTPS_PROXY to a working proxy\n  - If proxy causes issues: set OPENAI_OAUTH_NO_PROXY=1";

/// One browser login: its settings, PKCE pair and `state`.
pub struct LoginSession {
    pub settings: OAuthSettings,
    pub code_verifier: String,
    pub code_challenge: String,
    pub state: String,
}

/// A session whose challenge is the `S256` transform of its verifier.
pub open spec fn session_ok(s: LoginSession) -> bool {
    s.code_challenge@ == crate::pkce::s256_challenge(s.code_verifier@)
}

/// Starts a login: a fresh PKCE pair and `state`.
pub fn begin_login(settings: OAuthSettings) -> (s: LoginSession)
    ensures
        s.settings == settings,
        session_ok(s),
        s.code_verifier@.len() == 43,
        s.state@.len() == 24,
        forall|i: int|
            0 <= i < s.code_verifier@.len() ==> #[trigger] crate::pkce::is_b64url_char(
                s.code_verifier@[i],
            ),
        forall|i: int|
            0 <= i < s.state@.len() ==> #[trigger] crate::pkce::is_b64url_char(s.state@[i]),
{
    let (code_verifier, code_challenge) = crate::pkce::generate_pkce_pair();
    let state = crate::pkce::generate_state();
    LoginSession { settings, code_verifier, code_challenge, state }
}

/// What the login starts with: the URL to open, whether to open it in a browser, and where
/// to listen for the callback (nothing when the redirect URI does not parse).
pub struct LoginStart {
    pub authorize_url: String,
    pub open_browser: bool,
    pub callback: Option<(String, u16, String)>,
}

pub open spec fn session_authorize_url(s: LoginSession) -> Seq<char> {
    authorize_url(
        s.settings.auth_url@,
        s.settings.client_id@,
        s.settings.redirect_uri@,
        s.settings.scope@,
        s.code_challenge@,
        s.state@,
    )
}

/// The start of a login; the browser is not opened in a container or when
/// `OPENAI_OAUTH_NO_BROWSER` is on.
pub fn login_start(session: &LoginSession, in_container: bool, no_browser: Option<&str>) -> (r:
    LoginStart)
    ensures
        r.authorize_url@ == session_authorize_url(*session),
        r.open_browser == (!in_container && !is_truthy(opt_str_view(no_browser))),
        match r.callback {
            Some(t) => redirect_target(session.settings.redirect_uri@) == Some((t.0@, t.1, t.2@)),
            None => redirect_target(session.settings.redirect_uri@) is None,
        },
{
    let st = &session.settings;
    let url = build_authorize_url(
        st.client_id.as_str(),
        st.redirect_uri.as_str(),
        st.scope.as_str(),
        session.code_challenge.as_str(),
        session.state.as_str(),
        st.auth_url.as_str(),
    );
    let open_browser = !in_container && browser_open_enabled(no_browser);
    let callback = parse_redirect_uri(st.redirect_uri.as_str());
    LoginStart { authorize_url: url, open_browser, callback }
}

/// Where a login stands.
#[derive(PartialEq, Eq, Structural, Debug, Clone, Copy)]
pub enum LoginPhase {
    AwaitCallback,
    AwaitManualInput,
    AwaitTokenReply,
    AwaitTokenSaved,
    Finished,
}

/// What the outside world reports to the login.
pub enum LoginEvent {
    /// The callback listener's `(code, state)`, or nothing when none was captured.
    Callback(Option<(String, String)>),
    /// The line the user pasted, or nothing when input could not be read.
    ManualInput(Option<String>),
    /// The token endpoint's reply to the code exchange.
    TokenReply(ExchangeReply),
    /// Whether the token was saved.
    TokenSaved(bool),
}

/// What the login asks the outside world to do next.
pub enum LoginAction {
    PromptManualInput,
    /// Post this form to the token endpoint.
    ExchangeCode(Vec<(String, String)>),
    SaveToken(TokenFile),
    Succeeded,
    /// Report this message; the login failed.
    Failed(String),
}

pub enum LoginActionV {
    PromptManualInput,
    ExchangeCode(Seq<(Seq<char>, Seq<char>)>),
    SaveToken((Seq<char>, Seq<char>, Option<Seq<char>>, int)),
    Succeeded,
    Failed(Seq<char>),
}

pub open spec fn action_view(a: LoginAction) -> LoginActionV {
    match a {
        LoginAction::PromptManualInput => LoginActionV::PromptManualInput,
        LoginAction::ExchangeCode(f) => LoginActionV::ExchangeCode(pairs_view(f@)),
        LoginAction::SaveToken(t) => LoginActionV::SaveToken(token_fields(t)),
        LoginAction::Succeeded => LoginActionV::Succeeded,
        LoginAction::Failed(m) => LoginActionV::Failed(m@),
    }
}

/// The events each phase waits for.
pub open spec fn event_fits(phase: LoginPhase, event: LoginEvent) -> bool {
    match (phase, event) {
        (LoginPhase::AwaitCallback, LoginEvent::Callback(_)) => true,
        (LoginPhase::AwaitManualInput, LoginEvent::ManualInput(_)) => true,
        (LoginPhase::AwaitTokenReply, LoginEvent::TokenReply(r)) => reply_readable(r),
        (LoginPhase::AwaitTokenSaved, LoginEvent::TokenSaved(_)) => true,
        _ => false,
    }
}

/// The `(code, state)` an event delivers, if it delivers one.
pub open spec fn delivered_pair(s: LoginSession, event: LoginEvent) -> Option<(Seq<char>, Seq<char>)> {
    match event {
        LoginEvent::Callback(Some(p)) => Some((p.0@, p.1@)),
        LoginEvent::ManualInput(Some(line)) => manual_params(line@, s.state@),
        _ => None,
    }
}

/// Checking a delivered `(code, state)` against the session.
pub open spec fn check_pair(s: LoginSession, p: (Seq<char>, Seq<char>)) -> (LoginPhase, LoginActionV) {
    if p.1 != s.state@ {
        (LoginPhase::Finished, LoginActionV::Failed(MSG_STATE_MISMATCH@))
    } else {
        (
            LoginPhase::AwaitTokenReply,
            LoginActionV::ExchangeCode(
                exchange_form_spec(
                    p.0,
                    s.settings.client_id@,
                    s.code_verifier@,
                    s.settings.redirect_uri@,
                ),
            ),
        )
    }
}

/// The message reported for a failed code exchange.
pub open spec fn exchange_failure(reply: ExchangeReply, m: Seq<char>) -> Seq<char> {
    if reply is ClientUnavailable || !contains(m, "Connect"@) {
        "Token exchange failed: "@ + m
    } else {
        "Token exchange failed: "@ + m + CONNECT_TIP@
    }
}

/// The login's next phase and action.
pub open spec fn login_next(s: LoginSession, phase: LoginPhase, event: LoginEvent) -> (
    LoginPhase,
    LoginActionV,
) {
    match event {
        LoginEvent::Callback(None) => (LoginPhase::AwaitManualInput, LoginActionV::PromptManualInput),
        LoginEvent::Callback(Some(_)) => check_pair(s, delivered_pair(s, event)->0),
        LoginEvent::ManualInput(_) => match delivered_pair(s, event) {
            Some(p) => check_pair(s, p),
            None => (LoginPhase::Finished, LoginActionV::Failed(MSG_LOGIN_CANCELLED@)),
        },
        LoginEvent::TokenReply(r) => match exchange_result(r, s.settings.token_url@) {
            Ok(f) => (LoginPhase::AwaitTokenSaved, LoginActionV::SaveToken(f)),
            Err(m) => (LoginPhase::Finished, LoginActionV::Failed(exchange_failure(r, m))),
        },
        LoginEvent::TokenSaved(ok) => if ok {
            (LoginPhase::Finished, LoginActionV::Succeeded)
        } else {
            (LoginPhase::Finished, LoginActionV::Failed(MSG_SAVE_FAILED@))
        },
    }
}

fn check_received(s: &LoginSession, code: String, state: String) -> (r: (LoginPhase, LoginAction))
    ensures
        (r.0, action_view(r.1)) == check_pair(*s, (code@, state@)),
{
    if !str_eq(state.as_str(), s.state.as_str()) {
        return (LoginPhase::Finished, LoginAction::Failed(MSG_STATE_MISMATCH.to_owned()));
    }
    let form = exchange_form(
        code.as_str(),
        s.settings.client_id.as_str(),
        s.code_verifier.as_str(),
        s.settings.redirect_uri.as_str(),
    );
    (LoginPhase::AwaitTokenReply, LoginAction::ExchangeCode(form))
}

/// Advances the login by one event.
pub fn login_step(s: &LoginSession, phase: LoginPhase, event: LoginEvent) -> (r: (
    LoginPhase,
    LoginAction,
))
    requires
        event_fits(phase, event),
    ensures
        (r.0, action_view(r.1)) == login_next(*s, phase, event),
{
    match event {
        LoginEvent::Callback(None) => (LoginPhase::AwaitManualInput, LoginAction::PromptManualInput),
        LoginEvent::Callback(Some((code, state))) => check_received(s, code, state),
        LoginEvent::ManualInput(line) => {
            let parsed = match &line {
                Some(l) => parse_manual_input(l.as_str(), s.state.as_str()),
                None => None,
            };
            match parsed {
                Some((code, state)) => check_received(s, code, state),
                None => (LoginPhase::Finished, LoginAction::Failed(MSG_LOGIN_CANCELLED.to_owned())),
            }
        },
        LoginEvent::TokenReply(reply) => match exchange_outcome(&reply, s.settings.token_url.as_str()) {
            Ok(t) => (LoginPhase::AwaitTokenSaved, LoginAction::SaveToken(t)),
            Err(m) => {
                let mut msg = crate::text::concat2("Token exchange failed: ", m.as_str());
                let is_client = match &reply {
                    ExchangeReply::ClientUnavailable(_) => true,
                    _ => false,
                };
                if !is_client && crate::text::contains_str(m.as_str(), "Connect") {
                    msg.append(CONNECT_TIP);
                }
                (LoginPhase::Finished, LoginAction::Failed(msg))
            },
        },
        LoginEvent::TokenSaved(ok) => if ok {
            (LoginPhase::Finished, LoginAction::Succeeded)
        } else {
            (LoginPhase::Finished, LoginAction::Failed(MSG_SAVE_FAILED.to_owned()))
        },
    }
}

/// The code is exchanged only when the `state` that came back is the session's own: a
/// callback carrying another `state` ends the login.
pub proof fn code_exchanged_only_for_own_state(s: LoginSession, phase: LoginPhase, event: LoginEvent)
    requires
        login_next(s, phase, event).1 is ExchangeCode,
    ensures
        delivered_pair(s, event) matches Some(p) && p.1 == s.state@,
{
}

/// The code exchange sends the session's verifier, whose `S256` transform is the challenge
/// that the authorize URL carried.
pub proof fn exchange_proves_authorize_challenge(s: LoginSession, phase: LoginPhase, event: LoginEvent)
    requires
        session_ok(s),
        login_next(s, phase, event).1 is ExchangeCode,
    ensures
        ({
            let form = login_next(s, phase, event).1->ExchangeCode_0;
            let params = authorize_params(
                s.settings.client_id@,
                s.settings.redirect_uri@,
                s.settings.scope@,
                s.code_challenge@,
                s.state@,
            );
            &&& form[3] == ("code_verifier"@, s.code_verifier@)
            &&& params[4] == ("code_challenge"@, crate::pkce::s256_challenge(form[3].1))
            &&& params[5] == ("code_challenge_method"@, "S256"@)
        }),
{
}

/// A login succeeds only once its token has been saved.
pub proof fn success_only_after_save(s: LoginSession, phase: LoginPhase, event: LoginEvent)
    requires
        event_fits(phase, event),
        login_next(s, phase, event).1 is Succeeded,
    ensures
        phase == LoginPhase::AwaitTokenSaved,
        event matches LoginEvent::TokenSaved(ok) && ok,
{
}

/// The code exchange sends the delivered code with the session's own client id and redirect
/// URI: the very client id and redirect URI that its authorize URL carried.
pub proof fn exchange_uses_authorized_client(s: LoginSession, phase: LoginPhase, event: LoginEvent)
    requires
        login_next(s, phase, event).1 is ExchangeCode,
    ensures
        ({
            let form = login_next(s, phase, event).1->ExchangeCode_0;
            let q = query_string(
                authorize_params(
                    s.settings.client_id@,
                    s.settings.redirect_uri@,
                    s.settings.scope@,
                    s.code_challenge@,
                    s.state@,
                ),
            );
            &&& delivered_pair(s, event) matches Some(p) && form[1] == ("code"@, p.0)
            &&& form[2] == ("client_id"@, s.settings.client_id@)
            &&& form[4] == ("redirect_uri"@, s.settings.redirect_uri@)
            &&& query_param(q, "client_id"@) == Some(form[2].1)
            &&& query_param(q, "redirect_uri"@) == Some(form[4].1)
        }),
{
    authorize_query_reads_back(
        s.settings.auth_url@,
        s.settings.client_id@,
        s.settings.redirect_uri@,
        s.settings.scope@,
        s.code_challenge@,
        s.state@,
    );
}

} // verus!
