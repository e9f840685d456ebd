//! Routing of incoming requests, the upstream request they become, and how the upstream reply
//! is returned.
use vstd::prelude::*;
use crate::bearer::is_oauth_base;
use crate::codex::{codex_transform, lowercase, transform_view};
use crate::json::{Json, JsonV, get_bool};
use crate::text::{ends_with, eq_ignore_ascii_case, starts_with, trim_end_char};

verus! {

/// The upstream used unless `OPENAI_PROXY_UPSTREAM` says otherwise.
pub const OPENAI_PROXY_UPSTREAM: &'static str = "https://chatgpt.com/backend-api";

/// The upstream base URL: the `OPENAI_PROXY_UPSTREAM` value when set, else the default.
pub fn upstream_base_setting(env_value: Option<&str>) -> (base: String)
    ensures
        base@ == match env_value {
            Some(v) => v@,
            None => OPENAI_PROXY_UPSTREAM@,
        },
{
    match env_value {
        Some(v) => v.to_owned(),
        None => OPENAI_PROXY_UPSTREAM.to_owned(),
    }
}

/// How the proxy answers a request.
#[derive(PartialEq, Eq, Structural, Debug, Clone, Copy)]
pub enum Route {
    /// `200 ok` for `GET /healthz`.
    Health,
    /// `404` with the error envelope for `only /v1/* proxied`.
    NotFound,
    /// Forwarded upstream.
    Proxy,
}

pub open spec fn route_of(path: Seq<char>, method: Seq<char>) -> Route {
    if path == "/healthz"@ && method == "GET"@ {
        Route::Health
    } else if !starts_with(path, "/v1/"@) && path != "/chat/completions"@ {
        Route::NotFound
    } else {
        Route::Proxy
    }
}

/// Routes a request by its path and method.
pub fn route_request(path: &str, method: &str) -> (r: Route)
    ensures
        r == route_of(path@, method@),
{
    if crate::text::str_eq(path, "/healthz") && crate::text::str_eq(method, "GET") {
        return Route::Health;
    }
    if !crate::text::starts_with_str(path, "/v1/") && !crate::text::str_eq(
        path,
        "/chat/completions",
    ) {
        return Route::NotFound;
    }
    Route::Proxy
}

/// The message of the 404 reply.
pub const NOT_FOUND_MESSAGE: &'static str = "only /v1/* proxied";

/// The body of the 404 reply.
pub fn not_found_body() -> (j: Json)
    ensures
        j@ == crate::codex::error_envelope(NOT_FOUND_MESSAGE@),
{
    crate::codex::openai_error_value(NOT_FOUND_MESSAGE)
}

/// The path a proxied request stands for: `/chat/completions` is taken as
/// `/v1/chat/completions`.
pub open spec fn normalized_path(raw: Seq<char>) -> Seq<char> {
    if raw == "/chat/completions"@ {
        "/v1/chat/completions"@
    } else {
        raw
    }
}

pub fn normalize_request_path(raw: &str) -> (p: String)
    ensures
        p@ == normalized_path(raw@),
{
    if crate::text::str_eq(raw, "/chat/completions") {
        "/v1/chat/completions".to_owned()
    } else {
        raw.to_owned()
    }
}

/// The Codex responses path under an upstream base.
pub open spec fn responses_path(base: Seq<char>) -> Seq<char> {
    if ends_with(trim_end_char(base, '/'), "/backend-api"@) {
        "/codex/responses"@
    } else {
        "/backend-api/codex/responses"@
    }
}

pub fn oauth_responses_path(upstream_base: &str) -> (p: &'static str)
    ensures
        p@ == responses_path(upstream_base@),
{
    let trimmed = crate::text::trim_end_matches_char(upstream_base, '/');
    if crate::text::ends_with_str(trimmed.as_str(), "/backend-api") {
        "/codex/responses"
    } else {
        "/backend-api/codex/responses"
    }
}

/// The upstream URL: the base without trailing `/`, the path, and `?query` when the query is
/// non-empty.
pub open spec fn target_url(base: Seq<char>, path: Seq<char>, query: Option<Seq<char>>) -> Seq<
    char,
> {
    let head = trim_end_char(base, '/') + path;
    match query {
        Some(q) => if q.len() > 0 {
            head + "?"@ + q
        } else {
            head
        },
        None => head,
    }
}

pub fn upstream_target(base: &str, path: &str, query: Option<&str>) -> (url: String)
    ensures
        url@ == target_url(
            base@,
            path@,
            match query {
                Some(q) => Some(q@),
                None => None,
            },
        ),
{
    let mut url = crate::text::trim_end_matches_char(base, '/');
    url.append(path);
    match query {
        Some(q) => {
            if !q.is_empty() {
                url.append("?");
                url.append(q);
            }
        },
        None => {},
    }
    url
}

/// The body sent upstream: the client's own, or a Codex request built from it.
pub enum UpstreamBody {
    ClientBody,
    Codex(Json),
}

/// The upstream request a proxied request becomes.
pub struct ProxyPlan {
    pub upstream_url: String,
    pub body: UpstreamBody,
    pub is_oauth: bool,
    pub is_chat_completions: bool,
    pub client_stream: bool,
    pub requested_model: String,
}

/// Whether a request to `path` on `base` is rewritten into a Codex request.
pub open spec fn is_codex_route(base: Seq<char>, path: Seq<char>) -> bool {
    is_oauth_base(base) && path == "/v1/chat/completions"@
}

/// What a proxied request (its path already normalized) becomes upstream, given its body
/// parsed as JSON (or the parse error): the plan, or the message of a 400 reply.
pub open spec fn plan_ok(
    plan: ProxyPlan,
    path: Seq<char>,
    query: Option<Seq<char>>,
    base: Seq<char>,
    parsed: Result<Json, String>,
) -> bool {
    &&& plan.is_oauth == is_oauth_base(base)
    &&& plan.is_chat_completions == (path == "/v1/chat/completions"@)
    &&& if is_codex_route(base, path) {
        &&& codex_transform(parsed) matches Ok(t)
        &&& plan.body matches UpstreamBody::Codex(b) && b@ == t.0
        &&& plan.client_stream == t.1
        &&& plan.requested_model@ == t.2
        &&& plan.upstream_url@ == target_url(base, responses_path(base), query)
    } else {
        &&& plan.body is ClientBody
        &&& !plan.client_stream
        &&& plan.requested_model@ == Seq::<char>::empty()
        &&& plan.upstream_url@ == target_url(base, path, query)
    }
}

/// Plans the upstream request for a proxied request whose path is already normalized.
pub fn plan_proxy_request(
    path: &str,
    query: Option<&str>,
    upstream_base: &str,
    parsed_body: &Result<Json, String>,
) -> (r: Result<ProxyPlan, String>)
    ensures
        match r {
            Ok(plan) => plan_ok(
                plan,
                path@,
                match query {
                    Some(q) => Some(q@),
                    None => None,
                },
                upstream_base@,
                *parsed_body,
            ),
            Err(m) => is_codex_route(upstream_base@, path@) && codex_transform(*parsed_body)
                == Err::<(JsonV, bool, Seq<char>), Seq<char>>(m@),
        },
{
    let is_oauth = crate::bearer::is_oauth_upstream(upstream_base);
    let is_chat = crate::text::str_eq(path, "/v1/chat/completions");
    if is_oauth && is_chat {
        let t = match crate::codex::openai_to_codex_request(parsed_body) {
            Ok(t) => t,
            Err(m) => return Err(m),
        };
        let url = upstream_target(upstream_base, oauth_responses_path(upstream_base), query);
        Ok(
            ProxyPlan {
                upstream_url: url,
                body: UpstreamBody::Codex(t.body),
                is_oauth,
                is_chat_completions: is_chat,
                client_stream: t.client_stream,
                requested_model: t.requested_model,
            },
        )
    } else {
        let url = upstream_target(upstream_base, path, query);
        Ok(
            ProxyPlan {
                upstream_url: url,
                body: UpstreamBody::ClientBody,
                is_oauth,
                is_chat_completions: is_chat,
                client_stream: false,
                requested_model: String::new(),
            },
        )
    }
}

/// Client headers that are not forwarded: credentials and framing set by the proxy itself.
pub open spec fn forwarded_request_header(name: Seq<char>) -> bool {
    !eq_ignore_ascii_case(name, "authorization"@) && !eq_ignore_ascii_case(name, "host"@)
        && !eq_ignore_ascii_case(name, "content-length"@)
}

pub fn forward_request_header(name: &str) -> (b: bool)
    ensures
        b == forwarded_request_header(name@),
{
    !crate::text::eq_ignore_ascii_case_str(name, "authorization")
        && !crate::text::eq_ignore_ascii_case_str(name, "host")
        && !crate::text::eq_ignore_ascii_case_str(name, "content-length")
}

/// The client headers passed on: those forwarded whose value is text (`None` otherwise).
pub open spec fn passed_headers(incoming: Seq<(String, Option<String>)>) -> Seq<
    (Seq<char>, Seq<char>),
>
    decreases incoming.len(),
{
    if incoming.len() == 0 {
        seq![]
    } else {
        let prev = passed_headers(incoming.drop_last());
        let h = incoming.last();
        match h.1 {
            Some(v) => if forwarded_request_header(h.0@) {
                prev.push((h.0@, v@))
            } else {
                prev
            },
            None => prev,
        }
    }
}

/// The headers that mark a request to the ChatGPT upstream, then the account id when the
/// token names one.
pub open spec fn oauth_headers(account_id: Option<Seq<char>>) -> Seq<(Seq<char>, Seq<char>)> {
    let base = seq![
        ("OpenAI-Beta"@, "responses=experimental"@),
        ("originator"@, "codex_cli_rs"@),
        ("accept"@, "text/event-stream"@),
    ];
    match account_id {
        Some(id) => base.push(("chatgpt-account-id"@, id)),
        None => base,
    }
}

/// All headers of the upstream request after the bearer token, in order.
pub open spec fn upstream_header_list(
    incoming: Seq<(String, Option<String>)>,
    is_oauth: bool,
    account_id: Option<Seq<char>>,
) -> Seq<(Seq<char>, Seq<char>)> {
    if is_oauth {
        passed_headers(incoming) + oauth_headers(account_id)
    } else {
        passed_headers(incoming)
    }
}

/// The headers of the upstream request after the bearer token: the client's forwardable
/// ones, then (for the ChatGPT upstream) the Codex markers and account id.
pub fn upstream_headers(
    incoming: &Vec<(String, Option<String>)>,
    is_oauth: bool,
    account_id: Option<String>,
) -> (out: Vec<(String, String)>)
    ensures
        crate::token::pairs_view(out@) == upstream_header_list(
            incoming@,
            is_oauth,
            crate::token::opt_view(account_id),
        ),
{
    let mut out: Vec<(String, String)> = Vec::new();
    let mut i: usize = 0;
    while i < incoming.len()
        invariant
            i <= incoming@.len(),
            crate::token::pairs_view(out@) == passed_headers(incoming@.take(i as int)),
        decreases incoming.len() - i,
    {
        assert(incoming@.take(i + 1).drop_last() == incoming@.take(i as int));
        assert(incoming@.take(i + 1).last() == incoming@[i as int]);
        let ghost before = crate::token::pairs_view(out@);
        let (name, value) = &incoming[i];
        match value {
            Some(v) => {
                if forward_request_header(name.as_str()) {
                    out.push((name.clone(), v.clone()));
                    assert(crate::token::pairs_view(out@) == before.push((name@, v@)));
                }
            },
            None => {},
        }
        i += 1;
    }
    assert(incoming@.take(incoming@.len() as int) == incoming@);
    if is_oauth {
        let ghost before = crate::token::pairs_view(out@);
        out.push(("OpenAI-Beta".to_owned(), "responses=experimental".to_owned()));
        out.push(("originator".to_owned(), "codex_cli_rs".to_owned()));
        out.push(("accept".to_owned(), "text/event-stream".to_owned()));
        match account_id {
            Some(id) => {
                out.push(("chatgpt-account-id".to_owned(), id));
            },
            None => {},
        }
        assert(crate::token::pairs_view(out@) =~= before + oauth_headers(
            crate::token::opt_view(account_id),
        ));
    }
    out
}

/// A `2xx` status.
pub open spec fn status_success(status: u16) -> bool {
    200 <= status <= 299
}

/// How the upstream reply's body is returned.
#[derive(PartialEq, Eq, Structural, Debug, Clone, Copy)]
pub enum ResponseBodyMode {
    /// The Codex event stream rewritten as chat-completions stream chunks.
    StreamToOpenAi,
    /// The Codex reply rewritten as one chat-completions reply.
    ChatToOpenAi,
    /// The upstream body as it is.
    PassThrough,
    /// The upstream error rewritten as an OpenAI error envelope.
    ErrorEnvelope,
}

/// The `Content-Type` the proxy sets on its reply, if any.
#[derive(PartialEq, Eq, Structural, Debug, Clone, Copy)]
pub enum ReplyContentType {
    EventStream,
    Json,
}

/// How the upstream reply is turned into the client's reply.
pub struct ResponsePlan {
    pub body: ResponseBodyMode,
    /// Whether the upstream headers (less the framing ones) are copied.
    pub copy_upstream_headers: bool,
    pub content_type: Option<ReplyContentType>,
}

pub open spec fn body_mode(status: u16, plan: ProxyPlan) -> ResponseBodyMode {
    if status_success(status) {
        if plan.is_oauth && plan.client_stream {
            ResponseBodyMode::StreamToOpenAi
        } else if plan.is_oauth && plan.is_chat_completions {
            ResponseBodyMode::ChatToOpenAi
        } else {
            ResponseBodyMode::PassThrough
        }
    } else {
        ResponseBodyMode::ErrorEnvelope
    }
}

pub open spec fn reply_content_type(status: u16, plan: ProxyPlan) -> Option<ReplyContentType> {
    if status_success(status) && plan.is_oauth && plan.client_stream {
        Some(ReplyContentType::EventStream)
    } else if (status_success(status) && plan.is_oauth) || !status_success(status) {
        Some(ReplyContentType::Json)
    } else {
        None
    }
}

/// Plans the client's reply for an upstream reply with status `status`.
pub fn plan_response(status: u16, plan: &ProxyPlan) -> (r: ResponsePlan)
    ensures
        r.body == body_mode(status, *plan),
        r.copy_upstream_headers == (!plan.is_oauth && status_success(status)),
        r.content_type == reply_content_type(status, *plan),
{
    let success = 200 <= status && status <= 299;
    let body = if success {
        if plan.is_oauth && plan.client_stream {
            ResponseBodyMode::StreamToOpenAi
        } else if plan.is_oauth && plan.is_chat_completions {
            ResponseBodyMode::ChatToOpenAi
        } else {
            ResponseBodyMode::PassThrough
        }
    } else {
        ResponseBodyMode::ErrorEnvelope
    };
    let content_type = if success && plan.is_oauth && plan.client_stream {
        Some(ReplyContentType::EventStream)
    } else if (success && plan.is_oauth) || !success {
        Some(ReplyContentType::Json)
    } else {
        None
    };
    ResponsePlan { body, copy_upstream_headers: !plan.is_oauth && success, content_type }
}

/// Upstream headers that are never copied: the proxy frames its own reply.
pub open spec fn skipped_response_header(lower: Seq<char>) -> bool {
    lower == "content-length"@ || lower == "transfer-encoding"@ || lower == "connection"@ || lower
        == "content-encoding"@
}

pub fn forward_response_header(name: &str) -> (b: bool)
    ensures
        b == !skipped_response_header(lowercase(name@)),
{
    let lower = crate::codex::to_lowercase(name);
    let l = lower.as_str();
    !(crate::text::str_eq(l, "content-length") || crate::text::str_eq(l, "transfer-encoding")
        || crate::text::str_eq(l, "connection") || crate::text::str_eq(l, "content-encoding"))
}

/// Why a proxied request fails before an upstream reply is relayed.
pub enum ProxyFailure {
    /// The client's body could not be read.
    BodyUnreadable,
    /// No bearer token could be found; the message says what to do.
    MissingToken(String),
    /// The chat request could not be rewritten for the Codex upstream.
    BadRequest(String),
    /// The rewritten request could not be serialized.
    SerializeFailed(String),
    /// The request's method is not one the upstream client accepts.
    UnsupportedMethod,
    /// The upstream request could not be sent.
    UpstreamSendFailed(String),
    /// The upstream reply's body could not be read.
    UpstreamReadFailed(String),
}

/// The status and message of the reply to a failed request.
pub open spec fn failure_status_message(f: ProxyFailure) -> (u16, Seq<char>) {
    match f {
        ProxyFailure::BodyUnreadable => (400, "failed to read body"@),
        ProxyFailure::MissingToken(m) => (401, m@),
        ProxyFailure::BadRequest(m) => (400, m@),
        ProxyFailure::SerializeFailed(e) => (400, "serialize: "@ + e@),
        ProxyFailure::UnsupportedMethod => (405, "unsupported HTTP method"@),
        ProxyFailure::UpstreamSendFailed(e) => (502, "upstream request failed: "@ + e@),
        ProxyFailure::UpstreamReadFailed(e) => (502, "failed to read upstream response: "@ + e@),
    }
}

/// The status and OpenAI error envelope the client gets for a failed request.
pub fn failure_reply(f: &ProxyFailure) -> (r: (u16, Json))
    ensures
        r.0 == failure_status_message(*f).0,
        r.1@ == crate::codex::error_envelope(failure_status_message(*f).1),
{
    let (status, message) = match f {
        ProxyFailure::BodyUnreadable => (400, "failed to read body".to_owned()),
        ProxyFailure::MissingToken(m) => (401, m.clone()),
        ProxyFailure::BadRequest(m) => (400, m.clone()),
        ProxyFailure::SerializeFailed(e) => (400, crate::text::concat2("serialize: ", e.as_str())),
        ProxyFailure::UnsupportedMethod => (405, "unsupported HTTP method".to_owned()),
        ProxyFailure::UpstreamSendFailed(e) => (
            502,
            crate::text::concat2("upstream request failed: ", e.as_str()),
        ),
        ProxyFailure::UpstreamReadFailed(e) => (
            502,
            crate::text::concat2("failed to read upstream response: ", e.as_str()),
        ),
    };
    (status, crate::codex::openai_error_value(message.as_str()))
}

/// A client of the ChatGPT upstream always gets an OpenAI-style reply to a chat request: the
/// Codex reply is rewritten (as stream chunks when the client asked for a stream), and an
/// upstream error becomes an OpenAI error envelope with a JSON content type.
pub proof fn oauth_chat_replies_are_openai_style(status: u16, plan: ProxyPlan)
    requires
        plan.is_oauth,
        plan.is_chat_completions,
    ensures
        body_mode(status, plan) != ResponseBodyMode::PassThrough,
        status_success(status) && plan.client_stream ==> body_mode(status, plan)
            == ResponseBodyMode::StreamToOpenAi && reply_content_type(status, plan) == Some(
            ReplyContentType::EventStream,
        ),
        !plan.client_stream ==> reply_content_type(status, plan) == Some(ReplyContentType::Json),
{
}

/// Every upstream error reply reaches the client as an OpenAI error envelope, marked JSON,
/// with the upstream status and none of the upstream headers.
pub proof fn upstream_errors_become_envelopes(status: u16, plan: ProxyPlan)
    requires
        !status_success(status),
    ensures
        body_mode(status, plan) == ResponseBodyMode::ErrorEnvelope,
        reply_content_type(status, plan) == Some(ReplyContentType::Json),
{
}

/// The client's bearer header is never passed upstream: the proxy's own token replaces it.
pub proof fn client_authorization_never_forwarded(
    incoming: Seq<(String, Option<String>)>,
    is_oauth: bool,
    account_id: Option<Seq<char>>,
    i: int,
)
    requires
        0 <= i < upstream_header_list(incoming, is_oauth, account_id).len(),
    ensures
        !eq_ignore_ascii_case(upstream_header_list(incoming, is_oauth, account_id)[i].0, "authorization"@),
{
    lemma_passed_headers_forwarded(incoming);
    let p = passed_headers(incoming);
    if is_oauth && i >= p.len() {
        let o = oauth_headers(account_id);
        assert(upstream_header_list(incoming, is_oauth, account_id)[i] == o[i - p.len()]);
        reveal_strlit("authorization");
        reveal_strlit("OpenAI-Beta");
        reveal_strlit("originator");
        reveal_strlit("accept");
        reveal_strlit("chatgpt-account-id");
    }
}

proof fn lemma_passed_headers_forwarded(incoming: Seq<(String, Option<String>)>)
    ensures
        forall|i: int|
            0 <= i < passed_headers(incoming).len() ==> forwarded_request_header(
                #[trigger] passed_headers(incoming)[i].0,
            ),
    decreases incoming.len(),
{
    if incoming.len() > 0 {
        lemma_passed_headers_forwarded(incoming.drop_last());
        let prev = passed_headers(incoming.drop_last());
        assert forall|i: int|
            0 <= i < passed_headers(incoming).len() implies forwarded_request_header(
            #[trigger] passed_headers(incoming)[i].0,
        ) by {
            if i < prev.len() {
                assert(passed_headers(incoming)[i] == prev[i]);
            }
        }
    }
}

/// A successful reply is rewritten into stream chunks exactly when the client asked the
/// ChatGPT upstream for a stream; a non-streaming chat request there gets one chat completion.
pub proof fn stream_rewrite_only_for_streaming_clients(status: u16, plan: ProxyPlan)
    ensures
        (body_mode(status, plan) == ResponseBodyMode::StreamToOpenAi) <==> (200 <= status <= 299
            && plan.is_oauth && plan.client_stream),
        200 <= status <= 299 && plan.is_oauth && plan.is_chat_completions && !plan.client_stream
            ==> body_mode(status, plan) == ResponseBodyMode::ChatToOpenAi,
{
}

/// A chat request to the ChatGPT upstream that does not set `"stream": true` is planned as a
/// non-streaming one, so its successful reply is one chat completion.
pub proof fn unstreamed_chat_gets_one_completion(
    plan: ProxyPlan,
    query: Option<Seq<char>>,
    base: Seq<char>,
    req: Json,
    status: u16,
)
    requires
        plan_ok(plan, "/v1/chat/completions"@, query, base, Ok(req)),
        is_oauth_base(base),
        get_bool(req, "stream"@) != Some(true),
        200 <= status <= 299,
    ensures
        !plan.client_stream,
        body_mode(status, plan) == ResponseBodyMode::ChatToOpenAi,
{
}

} // verus!
