//! Settings of the client that the library holds.

use vstd::prelude::*;
use vstd::string::StringExecFns;
use crate::provider::OllamaConfig;

verus! {

/// The colour scheme of the window.
#[derive(Debug, Clone, Copy, PartialEq, Eq, Structural)]
pub enum Theme {
    Dark,
    Light,
    System,
}

/// The settings that the library decides: the server to talk to, the model
/// and system prompt a new conversation starts with, and the colour scheme.
/// (The font size and the data directory are kept by the program.)
#[derive(Debug, Clone)]
pub struct Settings {
    pub ollama: OllamaConfig,
    pub default_model: String,
    pub default_system_prompt: String,
    pub theme: Theme,
}

impl Default for Settings {
    fn default() -> (res: Self)
        ensures
            res.ollama.base_url@ == "http://localhost:11434"@,
            res.ollama.timeout == 30,
            res.default_model@ == "llama2"@,
            res.default_system_prompt@ == "You are a helpful assistant."@,
            res.theme == Theme::Dark,
    {
        Settings {
            ollama: OllamaConfig::default(),
            default_model: String::from_str("llama2"),
            default_system_prompt: String::from_str("You are a helpful assistant."),
            theme: Theme::Dark,
        }
    }
}

} // verus!
