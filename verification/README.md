# openai-oauth-proxy

A local proxy that lets API-key-only OpenAI clients use a ChatGPT OAuth login. The
decisions it makes are a Verus-verified library; the program around them does the I/O.

- `src/` — the verified library
  - `pkce` — PKCE verifier/challenge and `state` generation (unpadded base64url, SHA-256).
  - `auth` — authorize URL, redirect and callback parsing, code exchange, and the browser
    login as a state machine (`login_step`).
  - `percent` — percent-encoding and decoding of query components, and the proof that
    decoding gives back what was encoded.
  - `token` — the token file's contents, reading token endpoint replies, refresh decisions.
  - `bearer` — which bearer token is forwarded, and JWT claims (`exp`, account id).
  - `codex` — chat-completions ⇄ Codex responses conversions, SSE parsing and framing,
    OpenAI error envelopes.
  - `proxy` — routing, the upstream request plan, header filtering, the reply plan.
  - `cli` — command-line options, the environment overrides they set, start-up action.
  - `json`, `text` — a plain JSON value and string operations with their specifications.
- `app/` — the `openai-oauth-proxy` program: clap, serde, files, HTTP (reqwest, axum), the
  browser and the terminal.
- `tests/` — tests of the library.
