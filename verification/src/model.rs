//! A model of a provider: what it can do, and the calls that a completion makes.

use vstd::prelude::*;

use crate::effort::{
    chat_completion_reasoning_effort, chat_effort, default_thinking_reasoning_effort,
    disable_response_thinking_for_none_effort, law_allowed_effort_is_the_selected_one,
    offers_effort_levels,
    supported_thinking_effort_levels, supports_none_reasoning_effort, thinking_effort,
    without_disabled_thinking, LanguageModelEffortLevel, ReasoningEffort,
};
use crate::request::LanguageModelRequest;
use crate::settings::{AvailableModel, CustomHeaders};
use crate::state::State;
use crate::text::join;

verus! {

/// How many requests to one model run at a time.
pub const MAX_CONCURRENT_REQUESTS: usize = 4;

/// How a request may choose tools.
#[derive(Clone, Copy, Debug, PartialEq, Eq, Structural)]
pub enum LanguageModelToolChoice {
    /// The model decides.
    Auto,
    /// Some tool has to be used.
    Any,
    /// No tool may be used.
    Forbidden,
}

/// The parameter of a chat completion that limits its length.
#[derive(Clone, Copy, Debug, PartialEq, Eq, Structural)]
pub enum ChatCompletionMaxTokensParameter {
    MaxTokens,
    MaxCompletionTokens,
}

/// The parameter that limits the length of chat completions of `model`.
pub open spec fn max_tokens_parameter(model: AvailableModel) -> ChatCompletionMaxTokensParameter {
    if model.capabilities.max_tokens_parameter {
        ChatCompletionMaxTokensParameter::MaxTokens
    } else {
        ChatCompletionMaxTokensParameter::MaxCompletionTokens
    }
}

/// The parameter that limits the length of chat completions of `model`.
pub fn chat_completion_max_tokens_parameter(model: &AvailableModel) -> (res:
    ChatCompletionMaxTokensParameter)
    ensures
        res == max_tokens_parameter(*model),
{
    if model.capabilities.max_tokens_parameter {
        ChatCompletionMaxTokensParameter::MaxTokens
    } else {
        ChatCompletionMaxTokensParameter::MaxCompletionTokens
    }
}

/// What a request to the chat completions endpoint is made of.
#[derive(Debug, PartialEq, Eq)]
pub struct ChatCompletionCall {
    pub request: LanguageModelRequest,
    pub model: String,
    pub parallel_tool_calls: bool,
    pub prompt_cache_key: bool,
    pub max_output_tokens: Option<u64>,
    pub max_tokens_parameter: ChatCompletionMaxTokensParameter,
    pub reasoning_effort: Option<ReasoningEffort>,
    pub interleaved_reasoning: bool,
}

/// What a request to the responses endpoint is made of.
#[derive(Debug, PartialEq, Eq)]
pub struct ResponseCall {
    pub request: LanguageModelRequest,
    pub model: String,
    pub parallel_tool_calls: bool,
    pub prompt_cache_key: bool,
    pub max_output_tokens: Option<u64>,
    pub default_reasoning_effort: Option<ReasoningEffort>,
    pub supports_none_reasoning_effort: bool,
    pub provider_id: String,
}

/// The call that a completion makes.
#[derive(Debug, PartialEq, Eq)]
pub enum CompletionCall {
    ChatCompletion(ChatCompletionCall),
    Response(ResponseCall),
}

/// Why a completion is not even asked for.
#[derive(Debug, PartialEq, Eq)]
pub enum LanguageModelCompletionError {
    /// There is no key for the service; the name of the provider.
    NoApiKey(String),
}

/// Where a call goes, and in whose name.
#[derive(Debug, PartialEq, Eq)]
pub struct ServiceAccess {
    pub provider_name: String,
    pub api_url: String,
    pub api_key: String,
    pub extra_headers: CustomHeaders,
}

/// A model of a provider.
#[derive(Debug, PartialEq, Eq)]
pub struct OpenAiCompatibleLanguageModel {
    pub id: String,
    pub provider_id: String,
    pub provider_name: String,
    pub model: AvailableModel,
    pub request_limit: usize,
}

impl OpenAiCompatibleLanguageModel {
    /// The identifier of the model.
    pub fn id(&self) -> (res: String)
        ensures
            res == self.id,
    {
        self.id.clone()
    }

    /// The name that the model is shown under: the one the user gave it, or its own.
    pub fn name(&self) -> (res: String)
        ensures
            res == (match self.model.display_name {
                Some(display_name) => display_name,
                None => self.model.name,
            }),
    {
        match &self.model.display_name {
            Some(display_name) => display_name.clone(),
            None => self.model.name.clone(),
        }
    }

    /// The identifier of the provider.
    pub fn provider_id(&self) -> (res: String)
        ensures
            res == self.provider_id,
    {
        self.provider_id.clone()
    }

    /// The name of the provider.
    pub fn provider_name(&self) -> (res: String)
        ensures
            res == self.provider_name,
    {
        self.provider_name.clone()
    }

    /// Whether the model can use tools.
    pub fn supports_tools(&self) -> (res: bool)
        ensures
            res == self.model.capabilities.tools,
    {
        self.model.capabilities.tools
    }

    /// Whether the model takes images.
    pub fn supports_images(&self) -> (res: bool)
        ensures
            res == self.model.capabilities.images,
    {
        self.model.capabilities.images
    }

    /// Whether a request may choose tools like this. To forbid them is always possible.
    pub fn supports_tool_choice(&self, choice: LanguageModelToolChoice) -> (res: bool)
        ensures
            res == (choice == LanguageModelToolChoice::Forbidden || self.model.capabilities.tools),
    {
        match choice {
            LanguageModelToolChoice::Auto => self.model.capabilities.tools,
            LanguageModelToolChoice::Any => self.model.capabilities.tools,
            LanguageModelToolChoice::Forbidden => true,
        }
    }

    /// Tool calls are streamed.
    pub fn supports_streaming_tools(&self) -> (res: bool)
        ensures
            res,
    {
        true
    }

    /// Whether the model thinks.
    pub fn supports_thinking(&self) -> (res: bool)
        ensures
            res == (thinking_effort(self.model.reasoning_effort) is Some),
    {
        default_thinking_reasoning_effort(&self.model).is_some()
    }

    /// The levels of effort that the user can choose from.
    pub fn supported_effort_levels(&self) -> (res: Vec<LanguageModelEffortLevel>)
        ensures
            offers_effort_levels(self.model, res@),
    {
        supported_thinking_effort_levels(&self.model)
    }

    /// Tokens that went in and tokens that came out are shown apart.
    pub fn supports_split_token_display(&self) -> (res: bool)
        ensures
            res,
    {
        true
    }

    /// No model of this kind of provider has a fast mode.
    pub fn supports_fast_mode(&self) -> (res: bool)
        ensures
            !res,
    {
        false
    }

    /// The name that the model is counted under.
    pub fn telemetry_id(&self) -> (res: String)
        ensures
            res@ == "openai/"@ + self.model.name@,
    {
        join("openai/", self.model.name.as_str())
    }

    /// The size of the context window.
    pub fn max_token_count(&self) -> (res: u64)
        ensures
            res == self.model.max_tokens,
    {
        self.model.max_tokens
    }

    /// How many tokens a completion may have.
    pub fn max_output_tokens(&self) -> (res: Option<u64>)
        ensures
            res == self.model.max_output_tokens,
    {
        self.model.max_output_tokens
    }

    /// `request` as this kind of provider sends it: arbitrary services refuse a speed.
    pub open spec fn sent(request: LanguageModelRequest) -> LanguageModelRequest {
        LanguageModelRequest { speed: None, ..request }
    }

    /// The call that `request` makes.
    pub open spec fn call(self, request: LanguageModelRequest) -> CompletionCall {
        let capabilities = self.model.capabilities;
        if capabilities.chat_completions {
            CompletionCall::ChatCompletion(
                ChatCompletionCall {
                    request: Self::sent(request),
                    model: self.model.name,
                    parallel_tool_calls: capabilities.parallel_tool_calls,
                    prompt_cache_key: capabilities.prompt_cache_key,
                    max_output_tokens: self.model.max_output_tokens,
                    max_tokens_parameter: max_tokens_parameter(self.model),
                    reasoning_effort: chat_effort(request, self.model),
                    interleaved_reasoning: capabilities.interleaved_reasoning,
                },
            )
        } else {
            CompletionCall::Response(
                ResponseCall {
                    request: without_disabled_thinking(Self::sent(request), self.model),
                    model: self.model.name,
                    parallel_tool_calls: capabilities.parallel_tool_calls,
                    prompt_cache_key: capabilities.prompt_cache_key,
                    max_output_tokens: self.model.max_output_tokens,
                    default_reasoning_effort: thinking_effort(self.model.reasoning_effort),
                    supports_none_reasoning_effort: self.model.reasoning_effort is Some,
                    provider_id: self.provider_id,
                },
            )
        }
    }

    /// The call that `request` makes.
    pub fn stream_completion(&self, request: LanguageModelRequest) -> (res: CompletionCall)
        ensures
            res == self.call(request),
    {
        let mut request = request;
        if !self.supports_fast_mode() {
            request.speed = None;
        }
        let capabilities = self.model.capabilities;
        if capabilities.chat_completions {
            let reasoning_effort = chat_completion_reasoning_effort(&request, &self.model);
            CompletionCall::ChatCompletion(
                ChatCompletionCall {
                    request,
                    model: self.model.name.clone(),
                    parallel_tool_calls: capabilities.parallel_tool_calls,
                    prompt_cache_key: capabilities.prompt_cache_key,
                    max_output_tokens: self.max_output_tokens(),
                    max_tokens_parameter: chat_completion_max_tokens_parameter(&self.model),
                    reasoning_effort,
                    interleaved_reasoning: capabilities.interleaved_reasoning,
                },
            )
        } else {
            disable_response_thinking_for_none_effort(&mut request, &self.model);
            CompletionCall::Response(
                ResponseCall {
                    request,
                    model: self.model.name.clone(),
                    parallel_tool_calls: capabilities.parallel_tool_calls,
                    prompt_cache_key: capabilities.prompt_cache_key,
                    max_output_tokens: self.max_output_tokens(),
                    default_reasoning_effort: default_thinking_reasoning_effort(&self.model),
                    supports_none_reasoning_effort: supports_none_reasoning_effort(&self.model),
                    provider_id: self.provider_id.clone(),
                },
            )
        }
    }

    /// Where a call goes, and in whose name. Without a key there is no call.
    pub fn service_access(&self, state: &State) -> (res: Result<
        ServiceAccess,
        LanguageModelCompletionError,
    >)
        ensures
            match state.api_key {
                Some(api_key) => res matches Ok(access) && access.provider_name
                    == self.provider_name && access.api_url == state.settings.api_url
                    && access.api_key == api_key && access.extra_headers.pairs()
                    == state.settings.custom_headers.pairs(),
                None => res == Err::<ServiceAccess, LanguageModelCompletionError>(
                    LanguageModelCompletionError::NoApiKey(self.provider_name),
                ),
            },
    {
        match &state.api_key {
            Some(api_key) => Ok(
                ServiceAccess {
                    provider_name: self.provider_name.clone(),
                    api_url: state.settings.api_url.clone(),
                    api_key: api_key.clone(),
                    extra_headers: state.settings.custom_headers.clone(),
                },
            ),
            None => Err(LanguageModelCompletionError::NoApiKey(self.provider_name.clone())),
        }
    }
}

/// The request that a call carries.
pub open spec fn carried_request(call: CompletionCall) -> LanguageModelRequest {
    match call {
        CompletionCall::ChatCompletion(call) => call.request,
        CompletionCall::Response(call) => call.request,
    }
}

/// No call asks for a speed, whatever the request asked for.
pub proof fn law_speed_is_never_sent(
    model: OpenAiCompatibleLanguageModel,
    request: LanguageModelRequest,
)
    ensures
        carried_request(model.call(request)).speed is None,
{
}

/// Of two requests that differ in speed alone, one makes the same call as the other.
pub proof fn law_speed_has_no_effect(
    model: OpenAiCompatibleLanguageModel,
    a: LanguageModelRequest,
    b: LanguageModelRequest,
)
    requires
        a.thinking_allowed == b.thinking_allowed,
        a.thinking_effort == b.thinking_effort,
    ensures
        model.call(a) == model.call(b),
{
}

/// A model configured without reasoning is never asked to think, at either endpoint.
pub proof fn law_disabled_model_never_thinks(
    model: OpenAiCompatibleLanguageModel,
    request: LanguageModelRequest,
)
    requires
        model.model.reasoning_effort == Some(ReasoningEffort::Disabled),
    ensures
        match model.call(request) {
            CompletionCall::ChatCompletion(call) => call.reasoning_effort == Some(
                ReasoningEffort::Disabled,
            ),
            CompletionCall::Response(call) => !call.request.thinking_allowed
                && call.request.thinking_effort is None && call.default_reasoning_effort is None,
        },
{
}

/// A model thinks exactly where it offers levels of effort.
pub proof fn law_thinking_models_offer_levels(
    model: AvailableModel,
    levels: Seq<LanguageModelEffortLevel>,
)
    requires
        offers_effort_levels(model, levels),
    ensures
        thinking_effort(model.reasoning_effort) is Some <==> levels.len() > 0,
{
}

/// The request that a call carries allows thinking exactly where the given one does, and selects
/// the same effort, except at the responses endpoint for a model configured without reasoning.
pub proof fn law_call_carries_the_given_request(
    model: OpenAiCompatibleLanguageModel,
    request: LanguageModelRequest,
)
    ensures
        match model.call(request) {
            CompletionCall::ChatCompletion(call) => call.request.thinking_allowed
                == request.thinking_allowed && call.request.thinking_effort
                == request.thinking_effort && call.request.speed is None,
            CompletionCall::Response(call) => call.request.speed is None && (
            model.model.reasoning_effort != Some(ReasoningEffort::Disabled) ==> (
            call.request.thinking_allowed == request.thinking_allowed
                && call.request.thinking_effort == request.thinking_effort)) && (
            model.model.reasoning_effort == Some(ReasoningEffort::Disabled) ==> (
            !call.request.thinking_allowed && call.request.thinking_effort is None)),
        },
{
}

/// A request that does not allow thinking makes no call that does: the request it carries does not
/// allow it, and a chat completion asks for no reasoning, in so many words where the model is
/// configured with an effort, and by leaving it out where it is not.
pub proof fn law_forbidden_thinking_is_never_asked_for(
    model: OpenAiCompatibleLanguageModel,
    request: LanguageModelRequest,
)
    requires
        !request.thinking_allowed,
    ensures
        match model.call(request) {
            CompletionCall::ChatCompletion(call) => !call.request.thinking_allowed && (
            model.model.reasoning_effort is Some ==> call.reasoning_effort == Some(
                ReasoningEffort::Disabled,
            )) && (model.model.reasoning_effort is None ==> call.reasoning_effort is None),
            CompletionCall::Response(call) => !call.request.thinking_allowed,
        },
{
}

/// Where thinking is allowed and the model is not configured without reasoning, a chat completion
/// asks for the effort whose value the request selects; where it selects none, or something that
/// is the value of no effort, for the configured one.
pub proof fn law_allowed_thinking_is_asked_for(
    model: OpenAiCompatibleLanguageModel,
    request: LanguageModelRequest,
    effort: ReasoningEffort,
)
    requires
        request.thinking_allowed,
        model.model.capabilities.chat_completions,
        model.model.reasoning_effort != Some(ReasoningEffort::Disabled),
    ensures
        request.thinking_effort is Some && request.thinking_effort->0@ == effort.spec_value()
            && effort != ReasoningEffort::Disabled ==> model.call(
            request,
        )->ChatCompletion_0.reasoning_effort == Some(effort),
        request.thinking_effort is None || (forall|known: ReasoningEffort|
            known == ReasoningEffort::Disabled || #[trigger] known.spec_value()
                != request.thinking_effort->0@) ==> model.call(
            request,
        )->ChatCompletion_0.reasoning_effort == model.model.reasoning_effort,
{
    law_allowed_effort_is_the_selected_one(request, model.model, effort);
}

/// A model is called at the chat completions endpoint where it has that capability, and else at
/// the responses endpoint. Either call names the model and carries its limit and its capabilities
/// unchanged.
pub proof fn law_call_describes_the_model(
    model: OpenAiCompatibleLanguageModel,
    request: LanguageModelRequest,
)
    ensures
        model.call(request) is ChatCompletion <==> model.model.capabilities.chat_completions,
        match model.call(request) {
            CompletionCall::ChatCompletion(call) => {
                &&& call.model == model.model.name
                &&& call.max_output_tokens == model.model.max_output_tokens
                &&& call.parallel_tool_calls == model.model.capabilities.parallel_tool_calls
                &&& call.prompt_cache_key == model.model.capabilities.prompt_cache_key
                &&& call.interleaved_reasoning == model.model.capabilities.interleaved_reasoning
                &&& call.max_tokens_parameter is MaxTokens
                    <==> model.model.capabilities.max_tokens_parameter
            },
            CompletionCall::Response(call) => {
                &&& call.model == model.model.name
                &&& call.max_output_tokens == model.model.max_output_tokens
                &&& call.parallel_tool_calls == model.model.capabilities.parallel_tool_calls
                &&& call.prompt_cache_key == model.model.capabilities.prompt_cache_key
                &&& call.provider_id == model.provider_id
                &&& call.supports_none_reasoning_effort <==> model.model.reasoning_effort is Some
                &&& model.model.reasoning_effort != Some(ReasoningEffort::Disabled)
                    ==> call.default_reasoning_effort == model.model.reasoning_effort
                &&& model.model.reasoning_effort == Some(ReasoningEffort::Disabled)
                    ==> call.default_reasoning_effort is None
            },
        },
{
}

/// Chat completions of a model are limited by `max_tokens` exactly where the model asks for that
/// parameter.
pub proof fn law_max_tokens_only_where_asked_for(model: AvailableModel)
    ensures
        max_tokens_parameter(model) is MaxTokens <==> model.capabilities.max_tokens_parameter,
{
}

/// A model thinks exactly where it is configured with an effort, and not with the one that turns
/// reasoning off.
pub proof fn law_configured_models_think(effort: Option<ReasoningEffort>)
    ensures
        thinking_effort(effort) is Some <==> effort is Some && effort
            != Some(ReasoningEffort::Disabled),
        thinking_effort(effort) is Some ==> thinking_effort(effort) == effort,
{
}

} // verus!
