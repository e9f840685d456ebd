use openai_oauth_proxy::auth::{
    begin_login, browser_open_enabled, build_authorize_url, callback_http_response,
    exchange_form, exchange_outcome, extract_param, flag_enabled, list_models, login_start,
    login_step, oauth_settings, parse_callback_request, parse_manual_input, parse_redirect_uri,
    transport_error_message, ExchangeReply, LoginAction, LoginEvent, LoginPhase,
    MSG_LOGIN_CANCELLED, MSG_SAVE_FAILED, MSG_STATE_MISMATCH, OPENAI_AUTHORIZE_URL,
    OPENAI_REDIRECT_URI, OPENAI_SCOPE,
};
use openai_oauth_proxy::json::{Json, JsonNumber};
use openai_oauth_proxy::pkce::sha256_b64url;
use openai_oauth_proxy::token::{OPENAI_CLIENT_ID, OPENAI_TOKEN_URL};

fn token_payload() -> Json {
    Json::Object(vec![
        ("access_token".to_string(), Json::Str("A".to_string())),
        ("refresh_token".to_string(), Json::Str("R".to_string())),
        ("expires_in".to_string(), Json::Number(JsonNumber::PosInt(10))),
    ])
}

fn received(success: bool, body: &str, parsed: Result<Json, String>) -> ExchangeReply {
    ExchangeReply::Received {
        success,
        status: if success { "200 OK".to_string() } else { "400 Bad Request".to_string() },
        body: body.to_string(),
        parsed,
        now: 100,
    }
}

#[test]
fn models_list() {
    assert_eq!(
        list_models(),
        vec!["gpt-4o-mini", "gpt-5.1-codex", "gpt-5.2-codex", "gpt-5.3-codex"]
    );
}

#[test]
fn truthy_flags() {
    for v in ["1", "true", "TRUE", "yes", "YES", "on", "ON"] {
        assert!(flag_enabled(Some(v)));
        assert!(!browser_open_enabled(Some(v)));
    }
    assert!(!flag_enabled(Some("True")));
    assert!(!flag_enabled(Some("0")));
    assert!(browser_open_enabled(None));
}

#[test]
fn settings_defaults() {
    let s = oauth_settings(None, None, None, None, Some("openid"));
    assert_eq!(s.redirect_uri, OPENAI_REDIRECT_URI);
    assert_eq!(s.auth_url, OPENAI_AUTHORIZE_URL);
    assert_eq!(s.token_url, OPENAI_TOKEN_URL);
    assert_eq!(s.client_id, OPENAI_CLIENT_ID);
    assert_eq!(s.scope, "openid");
    assert_ne!(s.scope, OPENAI_SCOPE);
}

#[test]
fn authorize_url_exact() {
    let url = build_authorize_url(
        "cid",
        "http://localhost:1455/auth/callback",
        "openid profile",
        "ch_AL-1",
        "st~.x",
        "https://auth.example/authorize//",
    );
    assert_eq!(
        url,
        "https://auth.example/authorize?response_type=code&client_id=cid\
&redirect_uri=http%3A%2F%2Flocalhost%3A1455%2Fauth%2Fcallback&scope=openid%20profile\
&code_challenge=ch_AL-1&code_challenge_method=S256&state=st~.x\
&id_token_add_organizations=true&codex_cli_simplified_flow=true&originator=codex_cli_rs"
    );
    let url = build_authorize_url("é", "r", "s", "c", "t", "u");
    assert!(url.contains("client_id=%C3%A9"));
}

#[test]
fn redirect_uri_parts() {
    assert_eq!(
        parse_redirect_uri("http://localhost:1455/auth/callback"),
        Some(("localhost".to_string(), 1455, "/auth/callback".to_string()))
    );
    assert_eq!(
        parse_redirect_uri("http://example.com"),
        Some(("example.com".to_string(), 1455, "/".to_string()))
    );
    assert_eq!(parse_redirect_uri("not a url"), None);
}

#[test]
fn query_params() {
    assert_eq!(extract_param("code=a%20b&state=s", "code"), Some("a b".to_string()));
    assert_eq!(extract_param("code=a&state=s", "state"), Some("s".to_string()));
    assert_eq!(extract_param("x=1&code=c", "code"), Some("c".to_string()));
    assert_eq!(extract_param("flag&code=c", "code"), None);
    assert_eq!(extract_param("code=%FF", "code"), None);
    assert_eq!(extract_param("", "code"), None);
    assert_eq!(extract_param("code=1+2", "code"), Some("1+2".to_string()));
}

#[test]
fn percent_decoding_edges() {
    assert_eq!(extract_param("code=%41%42", "code"), Some("AB".to_string()));
    assert_eq!(extract_param("code=%c3%A9", "code"), Some("é".to_string()));
    assert_eq!(extract_param("code=%4", "code"), Some("%4".to_string()));
    assert_eq!(extract_param("code=%zz", "code"), Some("%zz".to_string()));
    assert_eq!(extract_param("code=%4g", "code"), Some("%4g".to_string()));
    assert_eq!(extract_param("code=%%41", "code"), Some("%A".to_string()));
    assert_eq!(extract_param("code=%C3", "code"), None);
}

#[test]
fn authorize_query_reads_back() {
    let (cid, ru, sc, ch, st) = (
        "c&id=1",
        "http://127.0.0.1:9/cb?x=1&y=%",
        "openid profile é",
        "ch%41+",
        "st ate&code=z",
    );
    let url = build_authorize_url(cid, ru, sc, ch, st, "https://auth.example/authorize/");
    let (base, q) = url.split_once('?').unwrap();
    assert_eq!(base, "https://auth.example/authorize");
    assert_eq!(extract_param(q, "client_id"), Some(cid.to_string()));
    assert_eq!(extract_param(q, "redirect_uri"), Some(ru.to_string()));
    assert_eq!(extract_param(q, "scope"), Some(sc.to_string()));
    assert_eq!(extract_param(q, "code_challenge"), Some(ch.to_string()));
    assert_eq!(extract_param(q, "state"), Some(st.to_string()));
    assert_eq!(extract_param(q, "code"), None);
}

#[test]
fn callback_request_parsing() {
    let req = "GET /auth/callback?code=abc&state=xyz HTTP/1.1\r\nHost: localhost\r\n\r\n";
    assert_eq!(
        parse_callback_request(req, "/auth/callback"),
        Some(("abc".to_string(), "xyz".to_string()))
    );
    assert_eq!(parse_callback_request(req, "/other"), None);
    assert_eq!(parse_callback_request("GET /auth/callback?code=abc HTTP/1.1\r\n", "/auth/callback"), None);
    assert_eq!(parse_callback_request("GET\r\n", "/auth/callback"), None);
    assert_eq!(parse_callback_request("", "/auth/callback"), None);
}

#[test]
fn callback_page() {
    assert_eq!(
        callback_http_response(),
        "HTTP/1.1 200 OK\r\nContent-Type: text/plain\r\nContent-Length: 48\r\n\r\nAuthentication complete. You can close this tab."
    );
}

#[test]
fn manual_input_forms() {
    assert_eq!(
        parse_manual_input(" http://localhost:1455/auth/callback?code=c1&state=s1 \n", "exp"),
        Some(("c1".to_string(), "s1".to_string()))
    );
    assert_eq!(
        parse_manual_input("http://localhost:1455/auth/callback?code=c1", "exp"),
        Some(("c1".to_string(), "exp".to_string()))
    );
    assert_eq!(
        parse_manual_input(" c2 # s2 ", "exp"),
        Some(("c2".to_string(), "s2".to_string()))
    );
    assert_eq!(
        parse_manual_input("c3#", "exp"),
        Some(("c3#".to_string(), "exp".to_string()))
    );
    assert_eq!(
        parse_manual_input("justcode", "exp"),
        Some(("justcode".to_string(), "exp".to_string()))
    );
    assert_eq!(parse_manual_input("   \n", "exp"), None);
}

#[test]
fn exchange_form_fields() {
    let f = exchange_form("code", "cid", "ver", "http://r");
    assert_eq!(f[0], ("grant_type".to_string(), "authorization_code".to_string()));
    assert_eq!(f[3], ("code_verifier".to_string(), "ver".to_string()));
    assert_eq!(f[4], ("redirect_uri".to_string(), "http://r".to_string()));
}

#[test]
fn transport_messages() {
    assert_eq!(
        transport_error_message("https://t", "boom", Some("dns"), true),
        "request to https://t failed: boom\n  cause: dns\n  (HTTPS_PROXY is set - try OPENAI_OAUTH_NO_PROXY=1 if proxy breaks this)"
    );
    assert_eq!(
        transport_error_message("https://t", "boom", None, false),
        "request to https://t failed: boom\n  (auth.openai.com may be unreachable - try HTTPS_PROXY if in blocked region)"
    );
}

#[test]
fn exchange_outcomes() {
    let t = exchange_outcome(&received(true, "", Ok(token_payload())), "u").ok().unwrap();
    assert_eq!(t.access_token, "A");
    assert_eq!(t.expires_at_unix, 110);
    assert_eq!(
        exchange_outcome(&received(false, "nope", Err("x".to_string())), "u").err().unwrap(),
        "Token exchange HTTP 400 Bad Request: nope"
    );
    let long = "y".repeat(600);
    assert_eq!(
        exchange_outcome(&received(false, &long, Err("x".to_string())), "u").err().unwrap(),
        format!("Token exchange HTTP 400 Bad Request: {}...", "y".repeat(500))
    );
    assert_eq!(
        exchange_outcome(&received(true, "<html>", Err("expected value".to_string())), "u")
            .err()
            .unwrap(),
        "invalid JSON response: expected value"
    );
    assert_eq!(
        exchange_outcome(&received(true, "{}", Ok(Json::Object(vec![]))), "u").err().unwrap(),
        "token response missing access_token"
    );
    assert_eq!(
        exchange_outcome(&ExchangeReply::BodyUnreadable("eof".to_string()), "u").err().unwrap(),
        "failed to read response body: eof"
    );
    assert_eq!(
        exchange_outcome(&ExchangeReply::ClientUnavailable("tls".to_string()), "u").err().unwrap(),
        "tls"
    );
}

fn session() -> openai_oauth_proxy::auth::LoginSession {
    begin_login(oauth_settings(None, None, None, None, None))
}

#[test]
fn login_session_pkce_binding() {
    let s = session();
    assert_eq!(s.code_challenge, sha256_b64url(&s.code_verifier));
    let start = login_start(&s, false, None);
    assert!(start.open_browser);
    assert!(start
        .authorize_url
        .contains(&format!("code_challenge={}", s.code_challenge)));
    assert!(start.authorize_url.contains(&format!("state={}", s.state)));
    assert_eq!(
        start.callback,
        Some(("localhost".to_string(), 1455, "/auth/callback".to_string()))
    );
    assert!(!login_start(&s, true, None).open_browser);
    assert!(!login_start(&s, false, Some("1")).open_browser);
}

#[test]
fn login_happy_path() {
    let s = session();
    let (phase, action) = login_step(
        &s,
        LoginPhase::AwaitCallback,
        LoginEvent::Callback(Some(("code-1".to_string(), s.state.clone()))),
    );
    assert_eq!(phase, LoginPhase::AwaitTokenReply);
    match action {
        LoginAction::ExchangeCode(form) => {
            assert_eq!(form[1], ("code".to_string(), "code-1".to_string()));
            assert_eq!(form[3], ("code_verifier".to_string(), s.code_verifier.clone()));
        }
        _ => panic!("expected exchange"),
    }
    let (phase, action) = login_step(
        &s,
        phase,
        LoginEvent::TokenReply(received(true, "", Ok(token_payload()))),
    );
    assert_eq!(phase, LoginPhase::AwaitTokenSaved);
    assert!(matches!(action, LoginAction::SaveToken(_)));
    let (phase, action) = login_step(&s, phase, LoginEvent::TokenSaved(true));
    assert_eq!(phase, LoginPhase::Finished);
    assert!(matches!(action, LoginAction::Succeeded));
}

#[test]
fn login_state_mismatch_fails() {
    let s = session();
    let (phase, action) = login_step(
        &s,
        LoginPhase::AwaitCallback,
        LoginEvent::Callback(Some(("c".to_string(), "forged".to_string()))),
    );
    assert_eq!(phase, LoginPhase::Finished);
    match action {
        LoginAction::Failed(m) => assert_eq!(m, MSG_STATE_MISMATCH),
        _ => panic!(),
    }
}

#[test]
fn login_manual_path_and_failures() {
    let s = session();
    let (phase, action) = login_step(&s, LoginPhase::AwaitCallback, LoginEvent::Callback(None));
    assert_eq!(phase, LoginPhase::AwaitManualInput);
    assert!(matches!(action, LoginAction::PromptManualInput));
    let (_, action) = login_step(&s, phase, LoginEvent::ManualInput(Some("   ".to_string())));
    match action {
        LoginAction::Failed(m) => assert_eq!(m, MSG_LOGIN_CANCELLED),
        _ => panic!(),
    }
    let (phase2, action) = login_step(&s, phase, LoginEvent::ManualInput(Some("thecode\n".to_string())));
    assert_eq!(phase2, LoginPhase::AwaitTokenReply);
    assert!(matches!(action, LoginAction::ExchangeCode(_)));
    let (_, action) = login_step(&s, LoginPhase::AwaitTokenSaved, LoginEvent::TokenSaved(false));
    match action {
        LoginAction::Failed(m) => assert_eq!(m, MSG_SAVE_FAILED),
        _ => panic!(),
    }
}

#[test]
fn login_exchange_failure_messages() {
    let s = session();
    let reply = ExchangeReply::SendFailed {
        error: "Connect error".to_string(),
        source: None,
        https_proxy_set: false,
    };
    let (_, action) = login_step(&s, LoginPhase::AwaitTokenReply, LoginEvent::TokenReply(reply));
    match action {
        LoginAction::Failed(m) => {
            assert!(m.starts_with("Token exchange failed: request to https://auth.openai.com/oauth/token failed: Connect error"));
            assert!(m.contains("\n\nTip: auth.openai.com may be unreachable"));
        }
        _ => panic!(),
    }
    let (_, action) = login_step(
        &s,
        LoginPhase::AwaitTokenReply,
        LoginEvent::TokenReply(ExchangeReply::ClientUnavailable("Connect".to_string())),
    );
    match action {
        LoginAction::Failed(m) => assert_eq!(m, "Token exchange failed: Connect"),
        _ => panic!(),
    }
}
