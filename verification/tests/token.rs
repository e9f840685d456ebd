use openai_oauth_proxy::json::{Json, JsonNumber};
use openai_oauth_proxy::token::{
    auth_file_setting, needs_refresh, parse_token_payload, plan_access_token, refresh_form,
    refreshed_token, AccessTokenPlan, TokenFile, TokenPayloadError, DEFAULT_AUTH_FILE,
};
use serde_json::Value;

fn to_json(v: &Value) -> Json {
    match v {
        Value::Null => Json::Null,
        Value::Bool(b) => Json::Bool(*b),
        Value::Number(n) => match (n.as_u64(), n.as_i64()) {
            (Some(u), _) => Json::Number(JsonNumber::PosInt(u)),
            (None, Some(i)) => Json::Number(JsonNumber::NegInt(i)),
            _ => Json::Number(JsonNumber::Float(n.to_string())),
        },
        Value::String(s) => Json::Str(s.clone()),
        Value::Array(a) => Json::Array(a.iter().map(to_json).collect()),
        Value::Object(m) => Json::Object(m.iter().map(|(k, v)| (k.clone(), to_json(v))).collect()),
    }
}

fn json(text: &str) -> Json {
    to_json(&serde_json::from_str::<Value>(text).unwrap())
}

fn stored(expires_at_unix: u64) -> TokenFile {
    TokenFile {
        access_token: "acc".to_string(),
        refresh_token: "ref".to_string(),
        token_type: None,
        expires_at_unix,
    }
}

#[test]
fn payload_full_reply() {
    let p = json(r#"{"access_token":"A","refresh_token":"R","token_type":"Bearer","expires_in":100}"#);
    let t = parse_token_payload(&p, "old", 1000).unwrap();
    assert_eq!(t.access_token, "A");
    assert_eq!(t.refresh_token, "R");
    assert_eq!(t.token_type.as_deref(), Some("Bearer"));
    assert_eq!(t.expires_at_unix, 1100);
}

#[test]
fn payload_defaults_lifetime_and_refresh() {
    let p = json(r#"{"access_token":"A","refresh_token":""}"#);
    let t = parse_token_payload(&p, "old", 5).unwrap();
    assert_eq!(t.refresh_token, "old");
    assert_eq!(t.token_type, None);
    assert_eq!(t.expires_at_unix, 3605);
}

#[test]
fn payload_missing_access_token() {
    let p = json(r#"{"refresh_token":"R"}"#);
    let e = parse_token_payload(&p, "", 0).err().unwrap();
    assert_eq!(e, TokenPayloadError::MissingAccessToken);
    assert_eq!(e.message(), "token response missing access_token");
}

#[test]
fn payload_missing_refresh_token() {
    let p = json(r#"{"access_token":"A"}"#);
    let e = parse_token_payload(&p, "", 0).err().unwrap();
    assert_eq!(e, TokenPayloadError::MissingRefreshToken);
    assert_eq!(e.message(), "token response missing refresh_token");
}

#[test]
fn payload_non_string_access_token() {
    let p = json(r#"{"access_token":7,"refresh_token":"R"}"#);
    assert!(parse_token_payload(&p, "", 0).is_err());
}

#[test]
fn refresh_window_is_sixty_seconds() {
    assert!(needs_refresh(&stored(1060), 1000));
    assert!(!needs_refresh(&stored(1061), 1000));
    assert!(needs_refresh(&stored(0), u64::MAX));
}

#[test]
fn refresh_form_fields() {
    let f = refresh_form("R", "cid");
    assert_eq!(
        f,
        vec![
            ("grant_type".to_string(), "refresh_token".to_string()),
            ("refresh_token".to_string(), "R".to_string()),
            ("client_id".to_string(), "cid".to_string()),
        ]
    );
}

#[test]
fn plan_uses_fresh_token() {
    match plan_access_token(&stored(10_000), 1000, "cid") {
        AccessTokenPlan::Use(a) => assert_eq!(a, "acc"),
        AccessTokenPlan::Refresh { .. } => panic!("expected use"),
    }
}

#[test]
fn plan_refreshes_expiring_token() {
    match plan_access_token(&stored(1000), 1000, "cid") {
        AccessTokenPlan::Refresh { refresh_token, form } => {
            assert_eq!(refresh_token, "ref");
            assert_eq!(form[2].1, "cid");
        }
        AccessTokenPlan::Use(_) => panic!("expected refresh"),
    }
}

#[test]
fn refreshed_token_outcomes() {
    let p = json(r#"{"access_token":"N"}"#);
    let t = refreshed_token(true, Some(&p), "ref", 10).unwrap();
    assert_eq!(t.access_token, "N");
    assert_eq!(t.refresh_token, "ref");
    assert!(refreshed_token(false, Some(&p), "ref", 10).is_none());
    assert!(refreshed_token(true, None, "ref", 10).is_none());
    assert!(refreshed_token(true, Some(&json("{}")), "ref", 10).is_none());
}

#[test]
fn auth_file_setting_default_and_override() {
    assert_eq!(auth_file_setting(None), DEFAULT_AUTH_FILE);
    assert_eq!(auth_file_setting(Some("/tmp/t.json")), "/tmp/t.json");
}
