//! The decisions of a language model provider for OpenAI-compatible services.

pub mod configuration;
pub mod discovery;
pub mod effort;
pub mod fetch;
pub mod fetch_state;
pub mod model;
pub mod models;
pub mod provider;
pub mod request;
pub mod settings;
pub mod state;
pub mod text;
