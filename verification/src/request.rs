//! What the provider reads of a completion request.

use vstd::prelude::*;

verus! {

/// How fast a completion is asked to be served.
#[derive(Clone, Copy, Debug, PartialEq, Eq, Structural)]
pub enum Speed {
    Standard,
    Fast,
}

/// The part of a completion request that the provider decides on.
#[derive(Debug, PartialEq, Eq)]
pub struct LanguageModelRequest {
    pub thinking_allowed: bool,
    pub thinking_effort: Option<String>,
    pub speed: Option<Speed>,
}

impl Clone for LanguageModelRequest {
    fn clone(&self) -> (res: LanguageModelRequest)
        ensures
            res == *self,
    {
        LanguageModelRequest {
            thinking_allowed: self.thinking_allowed,
            thinking_effort: self.thinking_effort.clone(),
            speed: self.speed,
        }
    }
}

impl Default for LanguageModelRequest {
    fn default() -> (res: LanguageModelRequest)
        ensures
            res == (LanguageModelRequest {
                thinking_allowed: false,
                thinking_effort: None,
                speed: None,
            }),
    {
        LanguageModelRequest { thinking_allowed: false, thinking_effort: None, speed: None }
    }
}

} // verus!
