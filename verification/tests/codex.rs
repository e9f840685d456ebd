use openai_oauth_proxy::codex::{
    codex_event_chunks, codex_json_to_openai_chat, codex_request_body, extract_browser_text,
    frame_sse, openai_error_value, openai_messages_to_input_text, openai_stream_chunks,
    openai_to_codex_request, sse_data_payloads, upstream_error_to_openai,
};
use openai_oauth_proxy::json::{Json, JsonNumber};
use serde_json::Value;

fn to_json(v: &Value) -> Json {
    match v {
        Value::Null => Json::Null,
        Value::Bool(b) => Json::Bool(*b),
        Value::Number(n) => match (n.as_u64(), n.as_i64()) {
            (Some(u), _) => Json::Number(JsonNumber::PosInt(u)),
            (None, Some(i)) => Json::Number(JsonNumber::NegInt(i)),
            _ => Json::Number(JsonNumber::Float(n.to_string())),
        },
        Value::String(s) => Json::Str(s.clone()),
        Value::Array(a) => Json::Array(a.iter().map(to_json).collect()),
        Value::Object(m) => Json::Object(m.iter().map(|(k, v)| (k.clone(), to_json(v))).collect()),
    }
}

fn to_value(j: &Json) -> Value {
    match j {
        Json::Null => Value::Null,
        Json::Bool(b) => Value::Bool(*b),
        Json::Number(JsonNumber::PosInt(u)) => Value::from(*u),
        Json::Number(JsonNumber::NegInt(i)) => Value::from(*i),
        Json::Number(JsonNumber::Float(t)) => Value::Number(t.parse().unwrap()),
        Json::Str(s) => Value::String(s.clone()),
        Json::Array(a) => Value::Array(a.iter().map(to_value).collect()),
        Json::Object(m) => {
            let mut map = serde_json::Map::new();
            for (k, v) in m {
                map.insert(k.clone(), to_value(v));
            }
            Value::Object(map)
        }
    }
}

fn json(text: &str) -> Json {
    to_json(&serde_json::from_str::<Value>(text).unwrap())
}

fn value(text: &str) -> Value {
    serde_json::from_str::<Value>(text).unwrap()
}

fn messages(text: &str) -> Vec<Json> {
    match json(text) {
        Json::Array(items) => items,
        _ => panic!("not an array"),
    }
}

#[test]
fn input_text_from_messages() {
    let ms = messages(
        r#"[{"role":"system","content":"be brief"},
            {"role":"user","content":[{"type":"text","text":"a"},{"type":"image"},{"text":"b"}]},
            {"content":"no role"},
            {"role":"assistant","content":5}]"#,
    );
    assert_eq!(
        openai_messages_to_input_text(&ms),
        "[system] be brief\n[user] ab\n[assistant] "
    );
    assert_eq!(openai_messages_to_input_text(&Vec::new()), "");
}

#[test]
fn codex_request_from_chat_request() {
    let req = Ok(json(
        r#"{"model":"gpt-5.1-CODEX","stream":true,"messages":[{"role":"user","content":"hi"}]}"#,
    ));
    let t = openai_to_codex_request(&req).ok().unwrap();
    assert!(t.client_stream);
    assert_eq!(t.requested_model, "gpt-5.1-CODEX");
    assert_eq!(
        to_value(&t.body),
        value(
            r#"{"model":"gpt-5.1-CODEX","input":[{"role":"user","content":[{"type":"input_text","text":"[user] hi"}]}],
                "stream":true,"store":false,
                "instructions":"You are a helpful coding assistant. Answer directly and clearly."}"#
        )
    );
}

#[test]
fn codex_request_model_fallback() {
    let t = openai_to_codex_request(&Ok(json(r#"{"model":"gpt-4o","messages":[]}"#)))
        .ok()
        .unwrap();
    assert_eq!(t.requested_model, "gpt-5.2-codex");
    assert!(!t.client_stream);
    let t = openai_to_codex_request(&Ok(json(r#"{"messages":[]}"#))).ok().unwrap();
    assert_eq!(t.requested_model, "gpt-5.2-codex");
}

#[test]
fn codex_request_errors() {
    let e = openai_to_codex_request(&Err("EOF while parsing".to_string()))
        .err()
        .unwrap();
    assert_eq!(e, "invalid json: EOF while parsing");
    let e = openai_to_codex_request(&Ok(json(r#"{"messages":"x"}"#))).err().unwrap();
    assert_eq!(e, "missing messages");
}

#[test]
fn codex_body_shape() {
    let b = codex_request_body("m", "t");
    assert_eq!(to_value(&b)["input"][0]["content"][0]["text"], "t");
}

#[test]
fn browser_text_variants() {
    assert_eq!(
        extract_browser_text(&json(r#"{"output_text":"x","output":[]}"#)),
        Some("x".to_string())
    );
    assert_eq!(
        extract_browser_text(&json(
            r#"{"output":[{"content":[{"text":"a"},{"text":1}]},{"content":"no"},{"content":[{"text":"b"}]}]}"#
        )),
        Some("a\nb".to_string())
    );
    assert_eq!(extract_browser_text(&json(r#"{"output":[]}"#)), None);
    assert_eq!(extract_browser_text(&json(r#"{}"#)), None);
}

#[test]
fn sse_payload_lines() {
    let raw = "event: x\r\ndata: {\"delta\":\"a\"}\r\n\r\n  data:data: [DONE]\ndata:\ndata:   b  \n";
    assert_eq!(
        sse_data_payloads(raw),
        vec!["{\"delta\":\"a\"}".to_string(), "b".to_string()]
    );
}

#[test]
fn event_texts() {
    let events = vec![
        Some(json(r#"{"delta":"a"}"#)),
        None,
        Some(json(r#"{"delta":""}"#)),
        Some(json(r#"{"output_text":""}"#)),
        Some(json(r#"{"output":[{"content":[{"text":"z"}]}]}"#)),
        Some(json(r#"{"type":"done"}"#)),
    ];
    assert_eq!(
        codex_event_chunks(&events),
        vec!["a".to_string(), "".to_string(), "z".to_string()]
    );
}

#[test]
fn sse_payloads_of_joined_texts() {
    let a = "event: x\r\ndata: {\"delta\":\"a\"}\r\n\r\n  data:";
    let b = "data:   b  \ndata: [DONE]\ndata:c";
    let joined = format!("{}\n{}", a, b);
    let mut both = sse_data_payloads(a);
    both.extend(sse_data_payloads(b));
    assert_eq!(sse_data_payloads(&joined), both);
    assert_eq!(
        both,
        vec!["{\"delta\":\"a\"}".to_string(), "b".to_string(), "c".to_string()]
    );
}

#[test]
fn event_texts_of_joined_events() {
    let first = || vec![Some(json(r#"{"delta":"a"}"#)), None];
    let second = || vec![Some(json(r#"{"output_text":"b"}"#)), Some(json(r#"{"type":"done"}"#))];
    let mut all = first();
    all.extend(second());
    let mut both = codex_event_chunks(&first());
    both.extend(codex_event_chunks(&second()));
    assert_eq!(codex_event_chunks(&all), both);
    assert_eq!(both, vec!["a".to_string(), "b".to_string()]);
}

#[test]
fn stream_chunks_numbered_by_position() {
    let chunks = vec!["a".to_string(), "".to_string(), "c".to_string()];
    let out = openai_stream_chunks(&chunks);
    assert_eq!(out.len(), 2);
    assert_eq!(
        to_value(&out[1]),
        value(r#"{"id":"chatcmpl-3","choices":[{"index":0,"delta":{"content":"c"},"finish_reason":null}]}"#)
    );
    assert_eq!(to_value(&out[0])["id"], "chatcmpl-1");
}

#[test]
fn sse_framing() {
    assert_eq!(frame_sse(&Vec::new()), "data: [DONE]\n\n");
    assert_eq!(
        frame_sse(&vec!["{}".to_string(), "[1]".to_string()]),
        "data: {}\n\ndata: [1]\n\ndata: [DONE]\n\n"
    );
}

#[test]
fn chat_reply_from_json() {
    let parsed = Some(json(r#"{"id":"resp_1","model":"gpt-5.3-codex","output_text":"hello"}"#));
    let r = codex_json_to_openai_chat(&parsed, &Vec::new(), "req-model", 77);
    assert_eq!(
        to_value(&r),
        value(
            r#"{"id":"resp_1","object":"chat.completion","created":77,"model":"gpt-5.3-codex",
                "choices":[{"index":0,"message":{"role":"assistant","content":"hello"},"finish_reason":"stop"}]}"#
        )
    );
}

#[test]
fn chat_reply_from_stream_texts() {
    let r = codex_json_to_openai_chat(&None, &vec!["a".to_string(), "b".to_string()], "m", 1);
    let v = to_value(&r);
    assert_eq!(v["id"], "chatcmpl-proxy");
    assert_eq!(v["model"], "m");
    assert_eq!(v["choices"][0]["message"]["content"], "ab");
    let r = codex_json_to_openai_chat(&Some(json("{}")), &Vec::new(), "m", 1);
    assert_eq!(to_value(&r)["choices"][0]["message"]["content"], "");
}

#[test]
fn error_envelope_shape() {
    assert_eq!(
        to_value(&openai_error_value("boom")),
        value(r#"{"error":{"message":"boom","type":"invalid_request_error","code":null}}"#)
    );
}

#[test]
fn upstream_error_messages() {
    let msg = |status: u16, raw: &str| {
        let parsed = serde_json::from_str::<Value>(raw).ok().map(|v| to_json(&v));
        to_value(&upstream_error_to_openai(status, raw, &parsed))["error"]["message"]
            .as_str()
            .unwrap()
            .to_string()
    };
    assert_eq!(msg(400, r#"{"error":{"message":"bad"}}"#), "bad");
    assert_eq!(msg(400, r#"{"message":"top"}"#), "top");
    assert_eq!(msg(400, r#"{"detail":1}"#), r#"{"detail":1}"#);
    assert_eq!(msg(503, "gateway down"), "upstream 503: gateway down");
    assert_eq!(msg(500, ""), "upstream error 500");
    assert_eq!(msg(502, &"x".repeat(600)).len(), "upstream 502: ".len() + 500);
}
