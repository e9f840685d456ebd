use openai_oauth_proxy::json::{Json, JsonNumber};
use openai_oauth_proxy::proxy::{
    failure_reply, ProxyFailure, forward_request_header, forward_response_header, normalize_request_path,
    oauth_responses_path, plan_proxy_request, plan_response, route_request, upstream_base_setting,
    upstream_headers, upstream_target, ReplyContentType, ResponseBodyMode, Route, UpstreamBody,
    OPENAI_PROXY_UPSTREAM,
};

fn chat_request() -> Json {
    Json::Object(vec![
        ("model".to_string(), Json::Str("gpt-5.2-codex".to_string())),
        ("stream".to_string(), Json::Bool(true)),
        (
            "messages".to_string(),
            Json::Array(vec![Json::Object(vec![
                ("role".to_string(), Json::Str("user".to_string())),
                ("content".to_string(), Json::Str("hi".to_string())),
            ])]),
        ),
        ("n".to_string(), Json::Number(JsonNumber::PosInt(1))),
    ])
}

#[test]
fn routes() {
    assert_eq!(route_request("/healthz", "GET"), Route::Health);
    assert_eq!(route_request("/healthz", "POST"), Route::NotFound);
    assert_eq!(route_request("/v2/x", "GET"), Route::NotFound);
    assert_eq!(route_request("/v1/models", "GET"), Route::Proxy);
    assert_eq!(route_request("/chat/completions", "POST"), Route::Proxy);
}

#[test]
fn paths_and_targets() {
    assert_eq!(normalize_request_path("/chat/completions"), "/v1/chat/completions");
    assert_eq!(normalize_request_path("/v1/models"), "/v1/models");
    assert_eq!(oauth_responses_path("https://chatgpt.com/backend-api/"), "/codex/responses");
    assert_eq!(oauth_responses_path("https://chatgpt.com"), "/backend-api/codex/responses");
    assert_eq!(upstream_target("https://x.test//", "/v1/a", Some("q=1")), "https://x.test/v1/a?q=1");
    assert_eq!(upstream_target("https://x.test", "/v1/a", Some("")), "https://x.test/v1/a");
    assert_eq!(upstream_target("https://x.test", "/v1/a", None), "https://x.test/v1/a");
    assert_eq!(upstream_base_setting(None), OPENAI_PROXY_UPSTREAM);
    assert_eq!(upstream_base_setting(Some("http://h")), "http://h");
}

#[test]
fn plan_codex_request() {
    let plan = plan_proxy_request(
        "/v1/chat/completions",
        Some("a=b"),
        "https://chatgpt.com/backend-api",
        &Ok(chat_request()),
    )
    .ok()
    .unwrap();
    assert_eq!(plan.upstream_url, "https://chatgpt.com/backend-api/codex/responses?a=b");
    assert!(plan.is_oauth && plan.is_chat_completions && plan.client_stream);
    assert_eq!(plan.requested_model, "gpt-5.2-codex");
    assert!(matches!(plan.body, UpstreamBody::Codex(_)));
}

#[test]
fn plan_passthrough_request() {
    let plan = plan_proxy_request("/v1/models", None, "https://api.openai.com", &Err("x".to_string()))
        .ok()
        .unwrap();
    assert_eq!(plan.upstream_url, "https://api.openai.com/v1/models");
    assert!(!plan.is_oauth && !plan.client_stream);
    assert!(matches!(plan.body, UpstreamBody::ClientBody));
}

#[test]
fn plan_rejects_bad_chat_body() {
    let e = plan_proxy_request(
        "/v1/chat/completions",
        None,
        "https://chatgpt.com/backend-api",
        &Err("trailing characters".to_string()),
    )
    .err()
    .unwrap();
    assert_eq!(e, "invalid json: trailing characters");
}

#[test]
fn header_filters() {
    assert!(!forward_request_header("Authorization"));
    assert!(!forward_request_header("HOST"));
    assert!(!forward_request_header("content-length"));
    assert!(forward_request_header("content-type"));
    assert!(!forward_response_header("Content-Encoding"));
    assert!(!forward_response_header("transfer-encoding"));
    assert!(forward_response_header("x-request-id"));
}

#[test]
fn upstream_header_list() {
    let incoming = vec![
        ("authorization".to_string(), Some("Bearer proxy".to_string())),
        ("content-type".to_string(), Some("application/json".to_string())),
        ("x-bin".to_string(), None),
    ];
    assert_eq!(
        upstream_headers(&incoming, false, None),
        vec![("content-type".to_string(), "application/json".to_string())]
    );
    let h = upstream_headers(&incoming, true, Some("acct".to_string()));
    assert_eq!(h.len(), 5);
    assert_eq!(h[1], ("OpenAI-Beta".to_string(), "responses=experimental".to_string()));
    assert_eq!(h[4], ("chatgpt-account-id".to_string(), "acct".to_string()));
}

#[test]
fn response_plans() {
    let stream = plan_proxy_request(
        "/v1/chat/completions",
        None,
        "https://chatgpt.com/backend-api",
        &Ok(chat_request()),
    )
    .ok()
    .unwrap();
    let r = plan_response(200, &stream);
    assert_eq!(r.body, ResponseBodyMode::StreamToOpenAi);
    assert_eq!(r.content_type, Some(ReplyContentType::EventStream));
    assert!(!r.copy_upstream_headers);
    let r = plan_response(429, &stream);
    assert_eq!(r.body, ResponseBodyMode::ErrorEnvelope);
    assert_eq!(r.content_type, Some(ReplyContentType::Json));
    let plain = plan_proxy_request("/v1/models", None, "https://api.openai.com", &Err(String::new()))
        .ok()
        .unwrap();
    let r = plan_response(204, &plain);
    assert_eq!(r.body, ResponseBodyMode::PassThrough);
    assert_eq!(r.content_type, None);
    assert!(r.copy_upstream_headers);
    let models = plan_proxy_request("/v1/models", None, "https://chatgpt.com/backend-api", &Err(String::new()))
        .ok()
        .unwrap();
    let r = plan_response(200, &models);
    assert_eq!(r.body, ResponseBodyMode::PassThrough);
    assert_eq!(r.content_type, Some(ReplyContentType::Json));
}

#[test]
fn failure_replies() {
    let (status, body) = failure_reply(&ProxyFailure::UpstreamSendFailed("timeout".to_string()));
    assert_eq!(status, 502);
    match body {
        Json::Object(members) => match &members[0].1 {
            Json::Object(inner) => match &inner[0].1 {
                Json::Str(m) => assert_eq!(m, "upstream request failed: timeout"),
                _ => panic!(),
            },
            _ => panic!(),
        },
        _ => panic!(),
    }
    assert_eq!(failure_reply(&ProxyFailure::BodyUnreadable).0, 400);
    assert_eq!(failure_reply(&ProxyFailure::MissingToken("m".to_string())).0, 401);
    assert_eq!(failure_reply(&ProxyFailure::UnsupportedMethod).0, 405);
    assert_eq!(failure_reply(&ProxyFailure::UpstreamReadFailed("x".to_string())).0, 502);
    assert_eq!(failure_reply(&ProxyFailure::SerializeFailed("x".to_string())).0, 400);
}
