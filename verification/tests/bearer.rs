use openai_oauth_proxy::bearer::{
    bearer_token_step, bearer_token_with_browser, chatgpt_account_id, is_expired_exp,
    is_oauth_upstream, is_proxy_placeholder, jwt_exp, jwt_payload_segment, read_env_token,
    BearerStep, TokenEnv, MSG_MISSING, MSG_MISSING_BROWSER, MSG_OAUTH_EXPIRED,
};
use openai_oauth_proxy::json::{Json, JsonNumber};

fn env(
    proxy_bearer: Option<&str>,
    oauth: Option<&str>,
    exp: Option<u64>,
    api_key: Option<&str>,
) -> TokenEnv {
    TokenEnv {
        proxy_bearer: proxy_bearer.map(String::from),
        oauth_token: oauth.map(String::from),
        oauth_token_exp: exp,
        api_key: api_key.map(String::from),
        now: 1000,
    }
}

const CHATGPT: &str = "https://chatgpt.com/backend-api";
const OTHER: &str = "https://api.openai.com";

#[test]
fn env_tokens_are_trimmed() {
    assert_eq!(read_env_token(Some("  tok \n")), Some("tok".to_string()));
    assert_eq!(read_env_token(Some(" \t ")), None);
    assert_eq!(read_env_token(None), None);
}

#[test]
fn placeholders() {
    assert!(is_proxy_placeholder("proxy"));
    assert!(is_proxy_placeholder(" PROXY "));
    assert!(is_proxy_placeholder(""));
    assert!(!is_proxy_placeholder("sk-123"));
}

#[test]
fn oauth_upstream_detection() {
    assert!(is_oauth_upstream(CHATGPT));
    assert!(!is_oauth_upstream(OTHER));
}

#[test]
fn expiry_with_skew() {
    assert!(is_expired_exp(Some(1060), 1000));
    assert!(!is_expired_exp(Some(1061), 1000));
    assert!(!is_expired_exp(None, 1000));
    assert!(is_expired_exp(Some(5), u64::MAX));
}

#[test]
fn jwt_segment_and_claims() {
    assert_eq!(jwt_payload_segment("a.b.c"), Some("b".to_string()));
    assert_eq!(jwt_payload_segment("abc"), None);
    let claims = Json::Object(vec![
        ("exp".to_string(), Json::Number(JsonNumber::PosInt(42))),
        (
            "https://api.openai.com/auth".to_string(),
            Json::Object(vec![(
                "chatgpt_account_id".to_string(),
                Json::Str("acct-1".to_string()),
            )]),
        ),
    ]);
    assert_eq!(jwt_exp(&claims), Some(42));
    assert_eq!(chatgpt_account_id(&claims), Some("acct-1".to_string()));
    assert_eq!(chatgpt_account_id(&Json::Null), None);
}

#[test]
fn explicit_bearer_wins_everywhere() {
    for base in [CHATGPT, OTHER] {
        match bearer_token_step(&env(Some("B"), Some("O"), None, Some("K")), base) {
            BearerStep::Done(r) => assert_eq!(r, Ok("B".to_string())),
            BearerStep::NeedBrowserToken => panic!("explicit token must win"),
        }
    }
}

#[test]
fn oauth_upstream_prefers_unexpired_oauth_token() {
    match bearer_token_step(&env(None, Some("O"), Some(5000), Some("K")), CHATGPT) {
        BearerStep::Done(r) => assert_eq!(r, Ok("O".to_string())),
        BearerStep::NeedBrowserToken => panic!(),
    }
}

#[test]
fn oauth_upstream_expired_token_uses_api_key_then_browser_token() {
    match bearer_token_step(&env(None, Some("O"), Some(10), Some("K")), CHATGPT) {
        BearerStep::Done(r) => assert_eq!(r, Ok("K".to_string())),
        BearerStep::NeedBrowserToken => panic!("api key comes before the auth file"),
    }
    let e = env(None, Some("O"), Some(10), None);
    assert!(matches!(bearer_token_step(&e, CHATGPT), BearerStep::NeedBrowserToken));
    assert_eq!(
        bearer_token_with_browser(&e, CHATGPT, Some("F".to_string())),
        Ok("F".to_string())
    );
    assert_eq!(
        bearer_token_with_browser(&e, CHATGPT, None),
        Err(MSG_OAUTH_EXPIRED.to_string())
    );
}

#[test]
fn oauth_upstream_api_key_before_auth_file() {
    let e = env(None, None, None, Some("sk-x"));
    match bearer_token_step(&e, CHATGPT) {
        BearerStep::Done(r) => assert_eq!(r, Ok("sk-x".to_string())),
        BearerStep::NeedBrowserToken => panic!("api key comes before the auth file"),
    }
    assert_eq!(
        bearer_token_with_browser(&e, CHATGPT, Some("a".to_string())),
        Ok("sk-x".to_string())
    );
}

#[test]
fn oauth_upstream_falls_back_to_api_key() {
    let e = env(None, None, None, Some("sk-1"));
    assert_eq!(bearer_token_with_browser(&e, CHATGPT, None), Ok("sk-1".to_string()));
    let e = env(None, None, None, Some("proxy"));
    assert_eq!(
        bearer_token_with_browser(&e, CHATGPT, None),
        Err(MSG_MISSING_BROWSER.to_string())
    );
}

#[test]
fn other_upstream_order() {
    match bearer_token_step(&env(None, Some("O"), Some(1), Some("sk-1")), OTHER) {
        BearerStep::Done(r) => assert_eq!(r, Ok("sk-1".to_string())),
        BearerStep::NeedBrowserToken => panic!(),
    }
    match bearer_token_step(&env(None, Some("O"), Some(1), Some("proxy")), OTHER) {
        BearerStep::Done(r) => assert_eq!(r, Ok("O".to_string())),
        BearerStep::NeedBrowserToken => panic!(),
    }
    let e = env(None, None, None, Some("proxy"));
    assert!(matches!(bearer_token_step(&e, OTHER), BearerStep::NeedBrowserToken));
    assert_eq!(bearer_token_with_browser(&e, OTHER, Some("F".to_string())), Ok("F".to_string()));
    assert_eq!(bearer_token_with_browser(&e, OTHER, None), Err(MSG_MISSING.to_string()));
}
