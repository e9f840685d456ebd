//! Verified core of an OpenAI-compatible OAuth proxy.
pub mod auth;
pub mod bearer;
pub mod cli;
pub mod codex;
pub mod json;
pub mod percent;
pub mod pkce;
pub mod proxy;
pub mod text;
pub mod token;
