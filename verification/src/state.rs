//! What a provider knows of its settings and of its key.

use vstd::prelude::*;

use crate::settings::OpenAiCompatibleSettings;

verus! {

/// The settings of a provider, and what the keeper of keys says of its key.
#[derive(Debug, PartialEq, Eq)]
pub struct State {
    pub settings: OpenAiCompatibleSettings,
    /// The key for the URL in the settings, if there is one.
    pub api_key: Option<String>,
    /// Whether any key is loaded.
    pub authenticated: bool,
    /// Whether the key comes from an environment variable.
    pub key_from_env_var: bool,
    /// The environment variable that can hold the key.
    pub env_var_name: String,
}

} // verus!
