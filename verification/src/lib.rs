//! A chat client core for local language-model servers: conversations and
//! their messages, the rows they are stored as, the requests sent to an
//! Ollama server and the replies read back, and the session logic that drives
//! a streamed chat.

pub mod config;
pub mod db;
pub mod ids;
pub mod models;
pub mod ndjson;
pub mod provider;
pub mod session;
pub mod stream;
pub mod text;
pub mod time;
