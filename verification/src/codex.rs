//! Conversions between OpenAI chat-completions messages and the Codex responses protocol.
use vstd::prelude::*;
use crate::json::{
    Json, JsonNumberV, JsonV, get_array, get_bool, get_str, json_get, json_list, json_record,
    json_str_value, json_uint, items_view, members_view,
};
use crate::text::{
    contains, decimal, find_char, join, lines, starts_with, take_chars, trim_start_seq, trim_ws,
};

verus! {

/// Model used when a request names none, or one that is not a Codex model.
pub const DEFAULT_CODEX_MODEL: &'static str = "gpt-5.2-codex";

pub const CODEX_INSTRUCTIONS: &'static str =
    "You are a helpful coding assistant. Answer directly and clearly.";

/// The lowercase form of a string, as `str::to_lowercase` gives it.
pub uninterp spec fn lowercase(s: Seq<char>) -> Seq<char>;

/// Calls `str::to_lowercase`; the result is named `lowercase` of the input. Its documented
/// Unicode lowercase mapping takes the ASCII letters `A`-`Z` to `a`-`z` and keeps every other
/// ASCII character, which is all this states of it; nothing is stated of other characters.
#[verifier::external_body]
pub(crate) fn to_lowercase(s: &str) -> (r: String)
    ensures
        r@ == lowercase(s@),
        vstd::utf8::is_ascii_chars(s@) ==> r@ == s@.map_values(|c: char| crate::text::ascii_lower(c)),
{
    s.to_lowercase()
}

/// The concatenated `text` members of the content blocks that have a string `text`.
pub open spec fn block_texts(blocks: Seq<Json>) -> Seq<char>
    decreases blocks.len(),
{
    if blocks.len() == 0 {
        seq![]
    } else {
        block_texts(blocks.drop_last()) + match get_str(blocks.last(), "text"@) {
            Some(t) => t,
            None => seq![],
        }
    }
}

/// The text of a chat message's `content`: a string as it is, an array as its blocks' texts.
pub open spec fn content_text(m: Json) -> Seq<char> {
    match json_get(m, "content"@) {
        Some(Json::Str(s)) => s@,
        Some(Json::Array(blocks)) => block_texts(blocks@),
        _ => seq![],
    }
}

/// `[role] content` for a message with a string `role`.
pub open spec fn message_line(m: Json) -> Option<Seq<char>> {
    match get_str(m, "role"@) {
        Some(role) => Some("["@ + role + "] "@ + content_text(m)),
        None => None,
    }
}

pub open spec fn message_lines(ms: Seq<Json>) -> Seq<Seq<char>>
    decreases ms.len(),
{
    if ms.len() == 0 {
        seq![]
    } else {
        match message_line(ms.last()) {
            Some(l) => message_lines(ms.drop_last()).push(l),
            None => message_lines(ms.drop_last()),
        }
    }
}

/// The single input text that stands for a chat: one `[role] content` line per message.
pub open spec fn input_text(ms: Seq<Json>) -> Seq<char> {
    join(message_lines(ms), "\n"@)
}

fn content_text_of(m: &Json) -> (r: String)
    ensures
        r@ == content_text(*m),
{
    match m.get("content") {
        Some(Json::Str(s)) => s.clone(),
        Some(Json::Array(blocks)) => {
            let mut r = String::new();
            let mut i: usize = 0;
            while i < blocks.len()
                invariant
                    i <= blocks@.len(),
                    r@ == block_texts(blocks@.take(i as int)),
                decreases blocks.len() - i,
            {
                assert(blocks@.take(i + 1).drop_last() == blocks@.take(i as int));
                assert(blocks@.take(i + 1).last() == blocks@[i as int]);
                match blocks[i].get_str("text") {
                    Some(t) => r.append(t.as_str()),
                    None => {},
                }
                i += 1;
            }
            assert(blocks@.take(blocks@.len() as int) == blocks@);
            r
        },
        _ => String::new(),
    }
}

/// Flattens chat messages into one text, `[role] content` per message with a string role,
/// lines joined by `\n`.
pub fn openai_messages_to_input_text(messages: &Vec<Json>) -> (text: String)
    ensures
        text@ == input_text(messages@),
{
    let mut lines: Vec<String> = Vec::new();
    let mut i: usize = 0;
    while i < messages.len()
        invariant
            i <= messages@.len(),
            lines@.map_values(|p: String| p@) == message_lines(messages@.take(i as int)),
        decreases messages.len() - i,
    {
        let m = &messages[i];
        assert(messages@.take(i + 1).drop_last() == messages@.take(i as int));
        assert(messages@.take(i + 1).last() == messages@[i as int]);
        let ghost before = lines@.map_values(|p: String| p@);
        match m.get_str("role") {
            Some(role) => {
                let content = content_text_of(m);
                let mut line = "[".to_owned();
                line.append(role.as_str());
                line.append("] ");
                line.append(content.as_str());
                lines.push(line);
                assert(lines@.map_values(|p: String| p@) == before.push(line@));
            },
            None => {},
        }
        i += 1;
    }
    assert(messages@.take(messages@.len() as int) == messages@);
    crate::text::join_strings(&lines, "\n")
}

/// The model a Codex request uses: the requested one if its lowercase form names `codex`,
/// else the default.
pub open spec fn codex_model(req: Json) -> Seq<char> {
    let m = match get_str(req, "model"@) {
        Some(m) => m,
        None => DEFAULT_CODEX_MODEL@,
    };
    if contains(lowercase(m), "codex"@) {
        m
    } else {
        DEFAULT_CODEX_MODEL@
    }
}

/// The body of a Codex responses request for `model` with one user input text.
pub open spec fn codex_body(model: Seq<char>, text: Seq<char>) -> JsonV {
    JsonV::Object(
        seq![
            ("model"@, JsonV::Str(model)),
            (
                "input"@,
                JsonV::Array(
                    seq![
                        JsonV::Object(
                            seq![
                                ("role"@, JsonV::Str("user"@)),
                                (
                                    "content"@,
                                    JsonV::Array(
                                        seq![
                                            JsonV::Object(
                                                seq![
                                                    ("type"@, JsonV::Str("input_text"@)),
                                                    ("text"@, JsonV::Str(text)),
                                                ],
                                            ),
                                        ],
                                    ),
                                ),
                            ],
                        ),
                    ],
                ),
            ),
            ("stream"@, JsonV::Bool(true)),
            ("store"@, JsonV::Bool(false)),
            ("instructions"@, JsonV::Str(CODEX_INSTRUCTIONS@)),
        ],
    )
}

/// A chat-completions request rewritten for the Codex responses endpoint.
pub struct CodexTransformResult {
    pub body: Json,
    pub client_stream: bool,
    pub requested_model: String,
}

fn member(key: &str, value: Json) -> (m: (String, Json))
    ensures
        m.0@ == key@,
        m.1 == value,
{
    (key.to_owned(), value)
}

/// Builds the Codex body for `model` and `text`.
pub fn codex_request_body(model: &str, text: &str) -> (body: Json)
    ensures
        body@ == codex_body(model@, text@),
{
    let mut block: Vec<(String, Json)> = Vec::new();
    block.push(member("type", json_str_value("input_text")));
    block.push(member("text", json_str_value(text)));
    let ghost block_v = seq![("type"@, JsonV::Str("input_text"@)), ("text"@, JsonV::Str(text@))];
    assert(members_view(block@) =~= block_v);
    let block = json_record(block);
    let mut blocks: Vec<Json> = Vec::new();
    blocks.push(block);
    assert(items_view(blocks@) =~= seq![JsonV::Object(block_v)]);
    let blocks = json_list(blocks);
    let ghost blocks_v = JsonV::Array(seq![JsonV::Object(block_v)]);
    let mut input_item: Vec<(String, Json)> = Vec::new();
    input_item.push(member("role", json_str_value("user")));
    input_item.push(member("content", blocks));
    let ghost item_v = seq![("role"@, JsonV::Str("user"@)), ("content"@, blocks_v)];
    assert(members_view(input_item@) =~= item_v);
    let input_item = json_record(input_item);
    let mut input: Vec<Json> = Vec::new();
    input.push(input_item);
    assert(items_view(input@) =~= seq![JsonV::Object(item_v)]);
    let input = json_list(input);
    let mut top: Vec<(String, Json)> = Vec::new();
    top.push(member("model", json_str_value(model)));
    top.push(member("input", input));
    top.push(member("stream", Json::Bool(true)));
    top.push(member("store", Json::Bool(false)));
    top.push(member("instructions", json_str_value(CODEX_INSTRUCTIONS)));
    assert(members_view(top@) =~= seq![
        ("model"@, JsonV::Str(model@)),
        ("input"@, JsonV::Array(seq![JsonV::Object(item_v)])),
        ("stream"@, JsonV::Bool(true)),
        ("store"@, JsonV::Bool(false)),
        ("instructions"@, JsonV::Str(CODEX_INSTRUCTIONS@)),
    ]);
    json_record(top)
}

/// The Codex request that a parsed chat-completions request becomes: body, whether the
/// client asked for a stream, and the model used; or the message of a 400 reply.
pub open spec fn codex_transform(parsed: Result<Json, String>) -> Result<
    (JsonV, bool, Seq<char>),
    Seq<char>,
> {
    match parsed {
        Err(e) => Err("invalid json: "@ + e@),
        Ok(req) => match get_array(req, "messages"@) {
            None => Err("missing messages"@),
            Some(ms) => Ok(
                (
                    codex_body(codex_model(req), input_text(ms)),
                    match get_bool(req, "stream"@) {
                        Some(b) => b,
                        None => false,
                    },
                    codex_model(req),
                ),
            ),
        },
    }
}

pub open spec fn transform_view(r: Result<CodexTransformResult, String>) -> Result<
    (JsonV, bool, Seq<char>),
    Seq<char>,
> {
    match r {
        Ok(t) => Ok((t.body@, t.client_stream, t.requested_model@)),
        Err(e) => Err(e@),
    }
}

/// Rewrites a chat-completions request (already parsed as JSON, or the parse error) into a
/// Codex responses request.
pub fn openai_to_codex_request(parsed: &Result<Json, String>) -> (r: Result<
    CodexTransformResult,
    String,
>)
    ensures
        transform_view(r) == codex_transform(*parsed),
{
    let req = match parsed {
        Err(e) => {
            let mut m = "invalid json: ".to_owned();
            m.append(e.as_str());
            return Err(m);
        },
        Ok(req) => req,
    };
    let messages = match req.get_array("messages") {
        Some(ms) => ms,
        None => return Err("missing messages".to_owned()),
    };
    let text = openai_messages_to_input_text(messages);
    let requested = match req.get_str("model") {
        Some(m) => m,
        None => DEFAULT_CODEX_MODEL.to_owned(),
    };
    let lower = to_lowercase(requested.as_str());
    let model = if crate::text::contains_str(lower.as_str(), "codex") {
        requested
    } else {
        DEFAULT_CODEX_MODEL.to_owned()
    };
    let client_stream = match req.get_bool("stream") {
        Some(b) => b,
        None => false,
    };
    let body = codex_request_body(model.as_str(), text.as_str());
    Ok(CodexTransformResult { body, client_stream, requested_model: model })
}

/// The string `text` members of content blocks, in order.
pub open spec fn block_strings(blocks: Seq<Json>) -> Seq<Seq<char>>
    decreases blocks.len(),
{
    if blocks.len() == 0 {
        seq![]
    } else {
        match get_str(blocks.last(), "text"@) {
            Some(t) => block_strings(blocks.drop_last()).push(t),
            None => block_strings(blocks.drop_last()),
        }
    }
}

/// The block texts of every output item whose `content` is an array.
pub open spec fn output_chunks(items: Seq<Json>) -> Seq<Seq<char>>
    decreases items.len(),
{
    if items.len() == 0 {
        seq![]
    } else {
        output_chunks(items.drop_last()) + match get_array(items.last(), "content"@) {
            Some(blocks) => block_strings(blocks),
            None => seq![],
        }
    }
}

/// The assistant text of a Codex response object: its `output_text`, else the block texts
/// of its `output` items joined by `\n` (nothing when there are none).
pub open spec fn browser_text(payload: Json) -> Option<Seq<char>> {
    match get_str(payload, "output_text"@) {
        Some(t) => Some(t),
        None => match get_array(payload, "output"@) {
            None => None,
            Some(items) => if output_chunks(items).len() == 0 {
                None
            } else {
                Some(join(output_chunks(items), "\n"@))
            },
        },
    }
}

fn push_block_strings(chunks: &mut Vec<String>, blocks: &Vec<Json>)
    ensures
        final(chunks)@.map_values(|p: String| p@) == old(chunks)@.map_values(|p: String| p@)
            + block_strings(blocks@),
{
    let ghost start = chunks@.map_values(|p: String| p@);
    let mut i: usize = 0;
    while i < blocks.len()
        invariant
            i <= blocks@.len(),
            chunks@.map_values(|p: String| p@) == start + block_strings(blocks@.take(i as int)),
        decreases blocks.len() - i,
    {
        assert(blocks@.take(i + 1).drop_last() == blocks@.take(i as int));
        assert(blocks@.take(i + 1).last() == blocks@[i as int]);
        let ghost before = chunks@.map_values(|p: String| p@);
        match blocks[i].get_str("text") {
            Some(t) => {
                chunks.push(t);
                assert(chunks@.map_values(|p: String| p@) == before.push(t@));
            },
            None => {},
        }
        i += 1;
    }
    assert(blocks@.take(blocks@.len() as int) == blocks@);
}

/// The assistant text of a Codex response object (see `browser_text`).
pub fn extract_browser_text(payload: &Json) -> (r: Option<String>)
    ensures
        crate::token::opt_view(r) == browser_text(*payload),
{
    if let Some(t) = payload.get_str("output_text") {
        return Some(t);
    }
    let items = match payload.get_array("output") {
        Some(items) => items,
        None => return None,
    };
    let mut chunks: Vec<String> = Vec::new();
    let mut i: usize = 0;
    while i < items.len()
        invariant
            i <= items@.len(),
            chunks@.map_values(|p: String| p@) == output_chunks(items@.take(i as int)),
        decreases items.len() - i,
    {
        assert(items@.take(i + 1).drop_last() == items@.take(i as int));
        assert(items@.take(i + 1).last() == items@[i as int]);
        match items[i].get_array("content") {
            Some(blocks) => push_block_strings(&mut chunks, blocks),
            None => {
                assert(output_chunks(items@.take(i as int)) + Seq::<Seq<char>>::empty()
                    == output_chunks(items@.take(i as int)));
            },
        }
        i += 1;
    }
    assert(items@.take(items@.len() as int) == items@);
    if chunks.len() == 0 {
        None
    } else {
        Some(crate::text::join_strings(&chunks, "\n"))
    }
}

/// The data of an SSE line that carries an event: after `data:` (all leading copies of it
/// removed) and trimming, a non-empty payload other than `[DONE]`.
pub open spec fn sse_data(line: Seq<char>) -> Option<Seq<char>> {
    let t = trim_ws(line);
    if !starts_with(t, "data:"@) {
        None
    } else {
        let d = trim_ws(trim_start_seq(t, "data:"@));
        if d.len() == 0 || d == "[DONE]"@ {
            None
        } else {
            Some(d)
        }
    }
}

pub open spec fn sse_payload_list(ls: Seq<Seq<char>>) -> Seq<Seq<char>>
    decreases ls.len(),
{
    if ls.len() == 0 {
        seq![]
    } else {
        match sse_data(ls.last()) {
            Some(d) => sse_payload_list(ls.drop_last()).push(d),
            None => sse_payload_list(ls.drop_last()),
        }
    }
}

/// The event payloads of an SSE text, in order.
pub open spec fn sse_payloads(raw: Seq<char>) -> Seq<Seq<char>> {
    sse_payload_list(lines(raw))
}

fn sse_line_data(line: &str) -> (r: Option<String>)
    ensures
        crate::token::opt_view(r) == sse_data(line@),
{
    let t = crate::text::trim(line);
    if !crate::text::starts_with_str(t.as_str(), "data:") {
        return None;
    }
    let rest = crate::text::trim_start_matches_str(t.as_str(), "data:");
    let d = crate::text::trim(rest.as_str());
    if d.as_str().is_empty() || crate::text::str_eq(d.as_str(), "[DONE]") {
        None
    } else {
        Some(d)
    }
}

/// The payloads of the `data:` lines of an SSE text, skipping empty ones and `[DONE]`.
pub fn sse_data_payloads(raw: &str) -> (r: Vec<String>)
    ensures
        r@.map_values(|p: String| p@) == sse_payloads(raw@),
{
    let ls = crate::text::lines_of(raw);
    let ghost lv = ls@.map_values(|p: String| p@);
    let mut out: Vec<String> = Vec::new();
    let mut i: usize = 0;
    while i < ls.len()
        invariant
            i <= ls@.len(),
            lv == ls@.map_values(|p: String| p@),
            lv == lines(raw@),
            out@.map_values(|p: String| p@) == sse_payload_list(lv.take(i as int)),
        decreases ls.len() - i,
    {
        assert(lv.take(i + 1).drop_last() == lv.take(i as int));
        assert(lv.take(i + 1).last() == ls@[i as int]@);
        let ghost before = out@.map_values(|p: String| p@);
        match sse_line_data(ls[i].as_str()) {
            Some(d) => {
                out.push(d);
                assert(out@.map_values(|p: String| p@) == before.push(d@));
            },
            None => {},
        }
        i += 1;
    }
    assert(lv.take(ls@.len() as int) == lv);
    out
}

/// The text an SSE event contributes: `output_text` (even empty), else a non-empty `delta`,
/// else a non-empty `browser_text`.
pub open spec fn event_chunk(ev: Json) -> Option<Seq<char>> {
    match get_str(ev, "output_text"@) {
        Some(t) => Some(t),
        None => match get_str(ev, "delta"@) {
            Some(d) => if d.len() > 0 {
                Some(d)
            } else {
                None
            },
            None => match browser_text(ev) {
                Some(t) => if t.len() > 0 {
                    Some(t)
                } else {
                    None
                },
                None => None,
            },
        },
    }
}

/// The texts of a sequence of events; an event that is not JSON (`None`) contributes nothing.
pub open spec fn event_chunks(evs: Seq<Option<Json>>) -> Seq<Seq<char>>
    decreases evs.len(),
{
    if evs.len() == 0 {
        seq![]
    } else {
        let prev = event_chunks(evs.drop_last());
        match evs.last() {
            Some(ev) => match event_chunk(ev) {
                Some(t) => prev.push(t),
                None => prev,
            },
            None => prev,
        }
    }
}

fn event_text(ev: &Json) -> (r: Option<String>)
    ensures
        crate::token::opt_view(r) == event_chunk(*ev),
{
    if let Some(t) = ev.get_str("output_text") {
        return Some(t);
    }
    if let Some(d) = ev.get_str("delta") {
        if d.as_str().is_empty() {
            return None;
        }
        return Some(d);
    }
    match extract_browser_text(ev) {
        Some(t) => if t.as_str().is_empty() {
            None
        } else {
            Some(t)
        },
        None => None,
    }
}

/// The texts of the parsed SSE events of a Codex stream (`None` for a payload that is not
/// JSON).
pub fn codex_event_chunks(events: &Vec<Option<Json>>) -> (r: Vec<String>)
    ensures
        r@.map_values(|p: String| p@) == event_chunks(events@),
{
    let mut out: Vec<String> = Vec::new();
    let mut i: usize = 0;
    while i < events.len()
        invariant
            i <= events@.len(),
            out@.map_values(|p: String| p@) == event_chunks(events@.take(i as int)),
        decreases events.len() - i,
    {
        assert(events@.take(i + 1).drop_last() == events@.take(i as int));
        assert(events@.take(i + 1).last() == events@[i as int]);
        let ghost before = out@.map_values(|p: String| p@);
        match &events[i] {
            Some(ev) => match event_text(ev) {
                Some(t) => {
                    out.push(t);
                    assert(out@.map_values(|p: String| p@) == before.push(t@));
                },
                None => {},
            },
            None => {},
        }
        i += 1;
    }
    assert(events@.take(events@.len() as int) == events@);
    out
}

proof fn lemma_payload_list_concat(x: Seq<Seq<char>>, y: Seq<Seq<char>>)
    ensures
        sse_payload_list(x + y) == sse_payload_list(x) + sse_payload_list(y),
    decreases y.len(),
{
    if y.len() == 0 {
        assert(x + y =~= x);
        assert(sse_payload_list(x) + sse_payload_list(y) =~= sse_payload_list(x));
    } else {
        lemma_payload_list_concat(x, y.drop_last());
        assert((x + y).drop_last() =~= x + y.drop_last());
        assert((x + y).last() == y.last());
        match sse_data(y.last()) {
            Some(d) => {
                assert(sse_payload_list(x) + sse_payload_list(y) =~= (sse_payload_list(x)
                    + sse_payload_list(y.drop_last())).push(d));
            },
            None => {},
        }
    }
}

/// The texts of a sequence of events followed by another are the texts of each, in order.
pub proof fn event_chunks_distribute(x: Seq<Option<Json>>, y: Seq<Option<Json>>)
    ensures
        event_chunks(x + y) == event_chunks(x) + event_chunks(y),
    decreases y.len(),
{
    if y.len() == 0 {
        assert(x + y =~= x);
        assert(event_chunks(x) + event_chunks(y) =~= event_chunks(x));
    } else {
        event_chunks_distribute(x, y.drop_last());
        assert((x + y).drop_last() =~= x + y.drop_last());
        assert((x + y).last() == y.last());
        match y.last() {
            Some(ev) => match event_chunk(ev) {
                Some(t) => {
                    assert(event_chunks(x) + event_chunks(y) =~= (event_chunks(x) + event_chunks(
                        y.drop_last(),
                    )).push(t));
                },
                None => {},
            },
            None => {},
        }
    }
}

proof fn lemma_trim_start_push_ws(s: Seq<char>, c: char)
    requires
        crate::text::is_ws(c),
    ensures
        crate::text::trim_start_ws(s.push(c)) == if crate::text::trim_start_ws(s).len() == 0 {
            Seq::<char>::empty()
        } else {
            crate::text::trim_start_ws(s).push(c)
        },
    decreases s.len(),
{
    if s.len() == 0 {
        assert(s.push(c).drop_first() =~= Seq::<char>::empty());
        assert(s.push(c)[0] == c);
        assert(crate::text::trim_start_ws(Seq::<char>::empty()) == Seq::<char>::empty());
        assert(crate::text::trim_start_ws(s.push(c)) == crate::text::trim_start_ws(
            s.push(c).drop_first(),
        ));
    } else {
        assert(s.push(c)[0] == s[0]);
        if crate::text::is_ws(s[0]) {
            assert(s.push(c).drop_first() =~= s.drop_first().push(c));
            lemma_trim_start_push_ws(s.drop_first(), c);
        } else {
            assert(crate::text::trim_start_ws(s) == s);
            assert(crate::text::trim_start_ws(s.push(c)) == s.push(c));
        }
    }
}

proof fn lemma_trim_ws_push_ws(s: Seq<char>, c: char)
    requires
        crate::text::is_ws(c),
    ensures
        trim_ws(s.push(c)) == trim_ws(s),
{
    lemma_trim_start_push_ws(s, c);
    let t = crate::text::trim_start_ws(s);
    if t.len() > 0 {
        assert(t.push(c).drop_last() =~= t);
    }
}

/// An SSE text made of two texts joined by a line break carries the payloads of the first
/// and then those of the second.
pub proof fn sse_payloads_distribute(a: Seq<char>, b: Seq<char>)
    ensures
        sse_payloads(a + seq!['\n'] + b) == sse_payloads(a) + sse_payloads(b),
    decreases a.len(),
{
    let s = a + seq!['\n'] + b;
    crate::text::lemma_find_char(a, '\n');
    reveal_strlit("data:");
    match find_char(a, '\n') {
        Some(i) => {
            crate::text::lemma_find_char_at(s, '\n', i);
            assert(s.take(i) =~= a.take(i));
            assert(s.skip(i + 1) =~= a.skip(i + 1) + seq!['\n'] + b);
            sse_payloads_distribute(a.skip(i + 1), b);
            let line = if a.take(i).len() > 0 && a.take(i).last() == '\r' {
                a.take(i).drop_last()
            } else {
                a.take(i)
            };
            assert(lines(s) == seq![line] + lines(s.skip(i + 1)));
            assert(lines(a) == seq![line] + lines(a.skip(i + 1)));
            lemma_payload_list_concat(seq![line], lines(s.skip(i + 1)));
            lemma_payload_list_concat(seq![line], lines(a.skip(i + 1)));
            assert(sse_payloads(s) =~= sse_payloads(a) + sse_payloads(b));
        },
        None => {
            crate::text::lemma_find_char_at(s, '\n', a.len() as int);
            assert(s.take(a.len() as int) =~= a);
            assert(s.skip(a.len() as int + 1) =~= b);
            let line = if a.len() > 0 && a.last() == '\r' {
                a.drop_last()
            } else {
                a
            };
            assert(lines(s) == seq![line] + lines(b));
            lemma_payload_list_concat(seq![line], lines(b));
            assert(seq![line].drop_last() =~= Seq::<Seq<char>>::empty());
            if a.len() == 0 {
                assert(trim_ws(line) =~= Seq::<char>::empty()) by {
                    assert(line =~= Seq::<char>::empty());
                }
                assert(sse_data(line) is None);
                assert(seq![line].last() == line);
                assert(sse_payload_list(seq![line]) == sse_payload_list(seq![line].drop_last()));
                assert(sse_payload_list(seq![line]) =~= Seq::<Seq<char>>::empty());
                assert(lines(a) =~= Seq::<Seq<char>>::empty());
            } else {
                assert(lines(a) == seq![a]);
                if a.last() == '\r' {
                    assert(line.push('\r') =~= a);
                    lemma_trim_ws_push_ws(line, '\r');
                }
                assert(sse_data(line) == sse_data(a));
                assert(seq![line].last() == line);
                assert(seq![a].last() == a);
                assert(seq![a].drop_last() =~= Seq::<Seq<char>>::empty());
                assert(sse_payload_list(seq![line]) == sse_payload_list(seq![a]));
            }
            assert(sse_payloads(s) =~= sse_payloads(a) + sse_payloads(b));
        },
    }
}

/// One chat-completions stream chunk carrying `text`, numbered `n`.
pub open spec fn stream_chunk(n: nat, text: Seq<char>) -> JsonV {
    JsonV::Object(
        seq![
            ("id"@, JsonV::Str("chatcmpl-"@ + decimal(n))),
            (
                "choices"@,
                JsonV::Array(
                    seq![
                        JsonV::Object(
                            seq![
                                ("index"@, JsonV::Number(JsonNumberV::PosInt(0))),
                                ("delta"@, JsonV::Object(seq![("content"@, JsonV::Str(text))])),
                                ("finish_reason"@, JsonV::Null),
                            ],
                        ),
                    ],
                ),
            ),
        ],
    )
}

/// The stream chunks for texts `chunks`: one per non-empty text, numbered by the text's
/// position counted from 1.
pub open spec fn stream_chunks(chunks: Seq<Seq<char>>) -> Seq<JsonV>
    decreases chunks.len(),
{
    if chunks.len() == 0 {
        seq![]
    } else {
        let prev = stream_chunks(chunks.drop_last());
        if chunks.last().len() == 0 {
            prev
        } else {
            prev.push(stream_chunk(chunks.len(), chunks.last()))
        }
    }
}

fn stream_chunk_value(n: u64, text: &str) -> (j: Json)
    ensures
        j@ == stream_chunk(n as nat, text@),
{
    let mut id = "chatcmpl-".to_owned();
    let num = crate::text::decimal_string(n);
    id.append(num.as_str());
    let mut delta: Vec<(String, Json)> = Vec::new();
    delta.push(member("content", json_str_value(text)));
    let ghost delta_v = seq![("content"@, JsonV::Str(text@))];
    assert(members_view(delta@) =~= delta_v);
    let delta = json_record(delta);
    let mut choice: Vec<(String, Json)> = Vec::new();
    choice.push(member("index", json_uint(0)));
    choice.push(member("delta", delta));
    choice.push(member("finish_reason", Json::Null));
    let ghost choice_v = seq![
        ("index"@, JsonV::Number(JsonNumberV::PosInt(0))),
        ("delta"@, JsonV::Object(delta_v)),
        ("finish_reason"@, JsonV::Null),
    ];
    assert(members_view(choice@) =~= choice_v);
    let choice = json_record(choice);
    let mut choices: Vec<Json> = Vec::new();
    choices.push(choice);
    assert(items_view(choices@) =~= seq![JsonV::Object(choice_v)]);
    let choices = json_list(choices);
    let mut top: Vec<(String, Json)> = Vec::new();
    top.push(member("id", json_str_value(id.as_str())));
    top.push(member("choices", choices));
    assert(members_view(top@) =~= seq![
        ("id"@, JsonV::Str("chatcmpl-"@ + decimal(n as nat))),
        ("choices"@, JsonV::Array(seq![JsonV::Object(choice_v)])),
    ]);
    json_record(top)
}

/// The chat-completions stream chunks for the texts of a Codex stream.
pub fn openai_stream_chunks(chunks: &Vec<String>) -> (r: Vec<Json>)
    requires
        chunks@.len() < u64::MAX,
    ensures
        items_view(r@) == stream_chunks(chunks@.map_values(|p: String| p@)),
{
    let ghost cv = chunks@.map_values(|p: String| p@);
    let mut out: Vec<Json> = Vec::new();
    let mut i: usize = 0;
    while i < chunks.len()
        invariant
            i <= chunks@.len() < u64::MAX,
            cv == chunks@.map_values(|p: String| p@),
            items_view(out@) == stream_chunks(cv.take(i as int)),
        decreases chunks.len() - i,
    {
        assert(cv.take(i + 1).drop_last() == cv.take(i as int));
        assert(cv.take(i + 1).last() == chunks@[i as int]@);
        let ghost before = items_view(out@);
        if !chunks[i].as_str().is_empty() {
            let j = stream_chunk_value((i + 1) as u64, chunks[i].as_str());
            out.push(j);
            assert(items_view(out@) == before.push(j@));
        }
        i += 1;
    }
    assert(cv.take(chunks@.len() as int) == cv);
    out
}

/// An SSE text from serialized events: `data: <event>` blocks, then `data: [DONE]`.
pub open spec fn sse_frames(events: Seq<Seq<char>>) -> Seq<char>
    decreases events.len(),
{
    if events.len() == 0 {
        "data: [DONE]\n\n"@
    } else {
        "data: "@ + events[0] + "\n\n"@ + sse_frames(events.drop_first())
    }
}

/// An SSE text built by `frame_sse` always ends with the `data: [DONE]` terminator.
pub proof fn sse_frames_end_with_done(events: Seq<Seq<char>>)
    ensures
        crate::text::ends_with(sse_frames(events), "data: [DONE]\n\n"@),
    decreases events.len(),
{
    if events.len() > 0 {
        sse_frames_end_with_done(events.drop_first());
        let tail = sse_frames(events.drop_first());
        let head = "data: "@ + events[0] + "\n\n"@;
        let d = "data: [DONE]\n\n"@;
        assert((head + tail).skip((head + tail).len() - d.len()) =~= tail.skip(tail.len() - d.len()));
    } else {
        let d = "data: [DONE]\n\n"@;
        assert(d.skip(0) =~= d);
    }
}

/// Frames serialized events as an SSE stream ending in `data: [DONE]`.
pub fn frame_sse(events: &Vec<String>) -> (r: String)
    ensures
        r@ == sse_frames(events@.map_values(|p: String| p@)),
{
    let ghost ev = events@.map_values(|p: String| p@);
    let mut out = String::new();
    let mut i: usize = 0;
    assert(ev.skip(0) == ev);
    assert(out@ + sse_frames(ev.skip(0)) == sse_frames(ev));
    while i < events.len()
        invariant
            i <= events@.len(),
            ev == events@.map_values(|p: String| p@),
            out@ + sse_frames(ev.skip(i as int)) == sse_frames(ev),
        decreases events.len() - i,
    {
        assert(ev.skip(i as int).drop_first() == ev.skip(i + 1));
        assert(ev.skip(i as int)[0] == events@[i as int]@);
        out.append("data: ");
        out.append(events[i].as_str());
        out.append("\n\n");
        i += 1;
    }
    assert(ev.skip(events@.len() as int).len() == 0);
    out.append("data: [DONE]\n\n");
    out
}

/// The chat-completions reply for a non-streaming client.
pub open spec fn chat_completion(
    id: Seq<char>,
    created: u64,
    model: Seq<char>,
    text: Seq<char>,
) -> JsonV {
    JsonV::Object(
        seq![
            ("id"@, JsonV::Str(id)),
            ("object"@, JsonV::Str("chat.completion"@)),
            ("created"@, JsonV::Number(JsonNumberV::PosInt(created))),
            ("model"@, JsonV::Str(model)),
            (
                "choices"@,
                JsonV::Array(
                    seq![
                        JsonV::Object(
                            seq![
                                ("index"@, JsonV::Number(JsonNumberV::PosInt(0))),
                                (
                                    "message"@,
                                    JsonV::Object(
                                        seq![
                                            ("role"@, JsonV::Str("assistant"@)),
                                            ("content"@, JsonV::Str(text)),
                                        ],
                                    ),
                                ),
                                ("finish_reason"@, JsonV::Str("stop"@)),
                            ],
                        ),
                    ],
                ),
            ),
        ],
    )
}

pub open spec fn or_default(o: Option<Seq<char>>, d: Seq<char>) -> Seq<char> {
    match o {
        Some(v) => v,
        None => d,
    }
}

/// The reply to a non-streaming chat request from the Codex upstream's body: read as a JSON
/// response object when it is one (`parsed`), else as the texts of its SSE events
/// (`stream_texts`) run together.
pub open spec fn codex_chat_reply(
    parsed: Option<Json>,
    stream_texts: Seq<Seq<char>>,
    requested_model: Seq<char>,
    created: u64,
) -> JsonV {
    match parsed {
        Some(v) => chat_completion(
            or_default(get_str(v, "id"@), "chatcmpl-proxy"@),
            created,
            or_default(get_str(v, "model"@), requested_model),
            or_default(browser_text(v), seq![]),
        ),
        None => chat_completion("chatcmpl-proxy"@, created, requested_model, join(stream_texts, ""@)),
    }
}

/// Builds the chat-completions reply (see `codex_chat_reply`); `created` is the current time.
pub fn codex_json_to_openai_chat(
    parsed: &Option<Json>,
    stream_texts: &Vec<String>,
    requested_model: &str,
    created: u64,
) -> (r: Json)
    ensures
        r@ == codex_chat_reply(
            *parsed,
            stream_texts@.map_values(|p: String| p@),
            requested_model@,
            created,
        ),
{
    let (id, model, text) = match parsed {
        Some(v) => {
            let id = match v.get_str("id") {
                Some(s) => s,
                None => "chatcmpl-proxy".to_owned(),
            };
            let model = match v.get_str("model") {
                Some(s) => s,
                None => requested_model.to_owned(),
            };
            let text = match extract_browser_text(v) {
                Some(t) => t,
                None => String::new(),
            };
            (id, model, text)
        },
        None => (
            "chatcmpl-proxy".to_owned(),
            requested_model.to_owned(),
            crate::text::join_strings(stream_texts, ""),
        ),
    };
    let mut message: Vec<(String, Json)> = Vec::new();
    message.push(member("role", json_str_value("assistant")));
    message.push(member("content", json_str_value(text.as_str())));
    let ghost message_v = seq![("role"@, JsonV::Str("assistant"@)), ("content"@, JsonV::Str(text@))];
    assert(members_view(message@) =~= message_v);
    let message = json_record(message);
    let mut choice: Vec<(String, Json)> = Vec::new();
    choice.push(member("index", json_uint(0)));
    choice.push(member("message", message));
    choice.push(member("finish_reason", json_str_value("stop")));
    let ghost choice_v = seq![
        ("index"@, JsonV::Number(JsonNumberV::PosInt(0))),
        ("message"@, JsonV::Object(message_v)),
        ("finish_reason"@, JsonV::Str("stop"@)),
    ];
    assert(members_view(choice@) =~= choice_v);
    let choice = json_record(choice);
    let mut choices: Vec<Json> = Vec::new();
    choices.push(choice);
    assert(items_view(choices@) =~= seq![JsonV::Object(choice_v)]);
    let choices = json_list(choices);
    let mut top: Vec<(String, Json)> = Vec::new();
    top.push(member("id", json_str_value(id.as_str())));
    top.push(member("object", json_str_value("chat.completion")));
    top.push(member("created", json_uint(created)));
    top.push(member("model", json_str_value(model.as_str())));
    top.push(member("choices", choices));
    assert(members_view(top@) =~= chat_completion(id@, created, model@, text@)->Object_0);
    json_record(top)
}

/// The OpenAI error envelope for `message`.
pub open spec fn error_envelope(message: Seq<char>) -> JsonV {
    JsonV::Object(
        seq![
            (
                "error"@,
                JsonV::Object(
                    seq![
                        ("message"@, JsonV::Str(message)),
                        ("type"@, JsonV::Str("invalid_request_error"@)),
                        ("code"@, JsonV::Null),
                    ],
                ),
            ),
        ],
    )
}

/// The OpenAI error envelope for `message`.
pub fn openai_error_value(message: &str) -> (j: Json)
    ensures
        j@ == error_envelope(message@),
{
    let mut inner: Vec<(String, Json)> = Vec::new();
    inner.push(member("message", json_str_value(message)));
    inner.push(member("type", json_str_value("invalid_request_error")));
    inner.push(member("code", Json::Null));
    let ghost inner_v = seq![
        ("message"@, JsonV::Str(message@)),
        ("type"@, JsonV::Str("invalid_request_error"@)),
        ("code"@, JsonV::Null),
    ];
    assert(members_view(inner@) =~= inner_v);
    let inner = json_record(inner);
    let mut top: Vec<(String, Json)> = Vec::new();
    top.push(member("error", inner));
    assert(members_view(top@) =~= seq![("error"@, JsonV::Object(inner_v))]);
    json_record(top)
}

/// The message an upstream error reply becomes: the JSON `error.message` or `message` when
/// the body is JSON holding one, else up to 500 characters of the body (prefixed by the
/// status when the body is not JSON), else `upstream error <status>`.
pub open spec fn upstream_error_message(status: u16, raw: Seq<char>, parsed: Option<Json>) -> Seq<
    char,
> {
    let head = take_chars(raw, 500);
    let fallback = "upstream error "@ + decimal(status as nat);
    match parsed {
        Some(v) => {
            let from_error = match json_get(v, "error"@) {
                Some(e) => get_str(e, "message"@),
                None => None,
            };
            match from_error {
                Some(m) => m,
                None => match get_str(v, "message"@) {
                    Some(m) => m,
                    None => if head.len() == 0 {
                        fallback
                    } else {
                        head
                    },
                },
            }
        },
        None => if head.len() == 0 {
            fallback
        } else {
            "upstream "@ + decimal(status as nat) + ": "@ + head
        },
    }
}

/// The OpenAI error envelope for an upstream error reply with status `status`, whose body
/// reads as `raw` and, when it is JSON, as `parsed`.
pub fn upstream_error_to_openai(status: u16, raw: &str, parsed: &Option<Json>) -> (j: Json)
    ensures
        j@ == error_envelope(upstream_error_message(status, raw@, *parsed)),
{
    let head = crate::text::take_chars_str(raw, 500);
    let code = crate::text::decimal_string(status as u64);
    let msg = match parsed {
        Some(v) => {
            let from_error = match v.get("error") {
                Some(e) => e.get_str("message"),
                None => None,
            };
            match from_error {
                Some(m) => m,
                None => match v.get_str("message") {
                    Some(m) => m,
                    None => if head.as_str().is_empty() {
                        crate::text::concat2("upstream error ", code.as_str())
                    } else {
                        head
                    },
                },
            }
        },
        None => if head.as_str().is_empty() {
            crate::text::concat2("upstream error ", code.as_str())
        } else {
            let mut m = crate::text::concat3("upstream ", code.as_str(), ": ");
            m.append(head.as_str());
            m
        },
    };
    openai_error_value(msg.as_str())
}

/// A requested model whose lowercase form contains `codex` anywhere is used as it is, in the
/// Codex body and as the requested model; any other model is replaced by the default.
pub proof fn codex_model_choice(req: Json, m: Seq<char>)
    requires
        get_array(req, "messages"@) is Some,
        get_str(req, "model"@) == Some(m),
    ensures
        codex_transform(Ok(req)) is Ok,
        ({
            let (body, _, used) = codex_transform(Ok(req))->Ok_0;
            &&& contains(lowercase(m), "codex"@) ==> used == m
            &&& !contains(lowercase(m), "codex"@) ==> used == DEFAULT_CODEX_MODEL@
            &&& body matches JsonV::Object(members) && members.len() > 0 && members[0] == (
                "model"@,
                JsonV::Str(used),
            )
        }),
{
}

/// An event without `output_text` whose `delta` is a non-empty string contributes exactly that
/// delta, whitespace included, after the texts of the events before it.
pub proof fn nonempty_deltas_pass_through(ev: Json, d: Seq<char>, evs: Seq<Option<Json>>)
    requires
        get_str(ev, "output_text"@) is None,
        get_str(ev, "delta"@) == Some(d),
        d.len() > 0,
    ensures
        event_chunk(ev) == Some(d),
        event_chunks(evs.push(Some(ev))) == event_chunks(evs).push(d),
{
    assert(evs.push(Some(ev)).drop_last() =~= evs);
}

/// An event with a string `output_text` contributes exactly that text, even an empty one; an
/// event whose only text is an empty `delta` contributes nothing.
pub proof fn output_text_and_empty_delta(ev: Json, t: Seq<char>)
    ensures
        get_str(ev, "output_text"@) == Some(t) ==> event_chunk(ev) == Some(t),
        get_str(ev, "output_text"@) is None && get_str(ev, "delta"@) == Some(Seq::<char>::empty())
            ==> event_chunk(ev) is None,
{
}

/// A request that names no model uses the default Codex model.
pub proof fn codex_default_model(req: Json)
    requires
        get_array(req, "messages"@) is Some,
        get_str(req, "model"@) is None,
    ensures
        codex_transform(Ok(req)) matches Ok((_, _, used)) && used == DEFAULT_CODEX_MODEL@,
{
}

} // verus!
