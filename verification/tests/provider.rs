use open_ai_compatible::effort::ReasoningEffort;
use open_ai_compatible::model::{
    ChatCompletionCall, ChatCompletionMaxTokensParameter, CompletionCall,
    LanguageModelCompletionError, LanguageModelToolChoice, OpenAiCompatibleLanguageModel,
    ResponseCall, ServiceAccess,
};
use open_ai_compatible::provider::OpenAiCompatibleLanguageModelProvider;
use open_ai_compatible::request::{LanguageModelRequest, Speed};
use open_ai_compatible::settings::{
    AutoDiscoverMode, AvailableModel, CustomHeaders, ModelCapabilities, OpenAiCompatibleSettings,
};
use open_ai_compatible::state::State;

fn model(name: &str) -> AvailableModel {
    AvailableModel {
        name: name.to_string(),
        display_name: None,
        max_tokens: 1000,
        max_output_tokens: Some(100),
        max_completion_tokens: None,
        reasoning_effort: None,
        capabilities: ModelCapabilities::default(),
    }
}

fn state(authenticated: bool, auto_discover: bool, available_models: Vec<AvailableModel>) -> State {
    State {
        settings: OpenAiCompatibleSettings {
            api_url: "https://host/v1".to_string(),
            auto_discover,
            auto_discover_mode: AutoDiscoverMode::default(),
            available_models,
            custom_headers: CustomHeaders {
                entries: vec![("X-Team".to_string(), "blue".to_string())],
            },
        },
        api_key: if authenticated {
            Some("secret".to_string())
        } else {
            None
        },
        authenticated,
        key_from_env_var: false,
        env_var_name: "HOST_API_KEY".to_string(),
    }
}

fn language_model(model: AvailableModel) -> OpenAiCompatibleLanguageModel {
    OpenAiCompatibleLanguageModel {
        id: model.name.clone(),
        provider_id: "host".to_string(),
        provider_name: "host".to_string(),
        model,
        request_limit: 4,
    }
}

#[test]
fn provider_is_named_after_its_id() {
    let provider = OpenAiCompatibleLanguageModelProvider::new("host", state(true, true, vec![]));
    assert_eq!(provider.id(), "host");
    assert_eq!(provider.name(), "host");
    assert!(provider.fetch_state.fetch_model_task().is_some());
    assert_eq!(provider.default_model(), None);
    assert_eq!(provider.default_fast_model(), None);
    assert!(provider.provided_models().is_empty());
}

#[test]
fn provider_offers_written_and_discovered_models() {
    let mut provider =
        OpenAiCompatibleLanguageModelProvider::new("host", state(true, true, vec![model("b")]));
    assert_eq!(provider.merged_models(), vec![model("b")]);

    let mut discovered = model("b");
    discovered.max_tokens = 7;
    let ticket = provider.fetch_state.fetch_model_task().unwrap().ticket;
    provider
        .fetch_state
        .finish_fetch(ticket, Ok(vec![discovered, model("a")]));
    assert_eq!(provider.merged_models(), vec![model("a"), model("b")]);
    assert_eq!(
        provider.provided_models(),
        vec![language_model(model("a")), language_model(model("b"))]
    );
    assert_eq!(provider.default_model(), Some(language_model(model("a"))));

    provider.state_changed(state(true, true, vec![model("z")]));
    assert_eq!(
        provider
            .merged_models()
            .iter()
            .map(|model| (model.name.as_str(), model.max_tokens))
            .collect::<Vec<_>>(),
        vec![("a", 1000), ("b", 7), ("z", 1000)]
    );

    provider.state_changed(state(true, false, vec![model("z"), model("y")]));
    assert_eq!(provider.merged_models(), vec![model("z"), model("y")]);
    assert_eq!(provider.default_model(), Some(language_model(model("z"))));
    assert_eq!(provider.fetch_state.fetch_model_task(), None);
}

#[test]
fn provider_needs_a_key_and_a_model() {
    let new = OpenAiCompatibleLanguageModelProvider::new;
    assert!(new("host", state(true, false, vec![model("a")])).is_authenticated());
    assert!(!new("host", state(true, false, vec![])).is_authenticated());
    assert!(!new("host", state(false, false, vec![model("a")])).is_authenticated());
    let mut discovering = new("host", state(true, true, vec![]));
    assert!(!discovering.is_authenticated());
    let ticket = discovering.fetch_state.fetch_model_task().unwrap().ticket;
    discovering
        .fetch_state
        .finish_fetch(ticket, Ok(vec![model("a")]));
    assert!(discovering.is_authenticated());
    assert!(!discovering.provided_models().is_empty());
}

#[test]
fn model_tells_what_it_can_do() {
    let mut described = model("m");
    described.display_name = Some("The M".to_string());
    described.capabilities.images = true;
    described.reasoning_effort = Some(ReasoningEffort::Low);
    let described = language_model(described);
    assert_eq!(described.id(), "m");
    assert_eq!(described.name(), "The M");
    assert_eq!(described.provider_id(), "host");
    assert_eq!(described.provider_name(), "host");
    assert_eq!(described.telemetry_id(), "openai/m");
    assert_eq!(described.max_token_count(), 1000);
    assert_eq!(described.max_output_tokens(), Some(100));
    assert!(described.supports_tools());
    assert!(described.supports_images());
    assert!(described.supports_thinking());
    assert_eq!(described.supported_effort_levels().len(), 6);
    assert!(described.supports_streaming_tools());
    assert!(described.supports_split_token_display());
    assert!(!described.supports_fast_mode());

    let mut bare = model("m");
    bare.capabilities.tools = false;
    let bare = language_model(bare);
    assert_eq!(bare.name(), "m");
    assert!(!bare.supports_tools());
    assert!(!bare.supports_images());
    assert!(!bare.supports_thinking());
    assert!(bare.supported_effort_levels().is_empty());
    assert!(!bare.supports_tool_choice(LanguageModelToolChoice::Auto));
    assert!(!bare.supports_tool_choice(LanguageModelToolChoice::Any));
    assert!(bare.supports_tool_choice(LanguageModelToolChoice::Forbidden));
    assert!(described.supports_tool_choice(LanguageModelToolChoice::Auto));
    assert!(described.supports_tool_choice(LanguageModelToolChoice::Any));
}

fn request() -> LanguageModelRequest {
    LanguageModelRequest {
        thinking_allowed: true,
        thinking_effort: Some("high".to_string()),
        speed: Some(Speed::Fast),
    }
}

#[test]
fn chat_completion_call_carries_selected_effort() {
    let mut chat = model("m");
    chat.reasoning_effort = Some(ReasoningEffort::Medium);
    chat.capabilities.parallel_tool_calls = true;
    chat.capabilities.interleaved_reasoning = true;
    chat.capabilities.max_tokens_parameter = true;
    assert_eq!(
        language_model(chat).stream_completion(request()),
        CompletionCall::ChatCompletion(ChatCompletionCall {
            request: LanguageModelRequest {
                speed: None,
                ..request()
            },
            model: "m".to_string(),
            parallel_tool_calls: true,
            prompt_cache_key: false,
            max_output_tokens: Some(100),
            max_tokens_parameter: ChatCompletionMaxTokensParameter::MaxTokens,
            reasoning_effort: Some(ReasoningEffort::High),
            interleaved_reasoning: true,
        })
    );
}

#[test]
fn response_call_carries_configured_effort() {
    let mut responses = model("m");
    responses.capabilities.chat_completions = false;
    responses.capabilities.prompt_cache_key = true;
    responses.reasoning_effort = Some(ReasoningEffort::High);
    assert_eq!(
        language_model(responses.clone()).stream_completion(request()),
        CompletionCall::Response(ResponseCall {
            request: LanguageModelRequest {
                speed: None,
                ..request()
            },
            model: "m".to_string(),
            parallel_tool_calls: false,
            prompt_cache_key: true,
            max_output_tokens: Some(100),
            default_reasoning_effort: Some(ReasoningEffort::High),
            supports_none_reasoning_effort: true,
            provider_id: "host".to_string(),
        })
    );

    responses.reasoning_effort = Some(ReasoningEffort::Disabled);
    let call = language_model(responses.clone()).stream_completion(request());
    assert!(matches!(
        call,
        CompletionCall::Response(ResponseCall {
            request: LanguageModelRequest {
                thinking_allowed: false,
                thinking_effort: None,
                speed: None,
            },
            default_reasoning_effort: None,
            supports_none_reasoning_effort: true,
            ..
        })
    ));

    responses.reasoning_effort = None;
    let call = language_model(responses).stream_completion(request());
    assert!(matches!(
        call,
        CompletionCall::Response(ResponseCall {
            default_reasoning_effort: None,
            supports_none_reasoning_effort: false,
            ..
        })
    ));
}

#[test]
fn call_needs_a_key() {
    let chat = language_model(model("m"));
    assert_eq!(
        chat.service_access(&state(true, false, vec![])),
        Ok(ServiceAccess {
            provider_name: "host".to_string(),
            api_url: "https://host/v1".to_string(),
            api_key: "secret".to_string(),
            extra_headers: CustomHeaders {
                entries: vec![("X-Team".to_string(), "blue".to_string())],
            },
        })
    );
    assert_eq!(
        chat.service_access(&state(false, false, vec![])),
        Err(LanguageModelCompletionError::NoApiKey("host".to_string()))
    );
}

#[test]
fn default_settings_discover_nothing() {
    let settings = OpenAiCompatibleSettings::default();
    assert_eq!(settings.api_url(), "");
    assert!(!settings.auto_discover);
    assert_eq!(settings.auto_discover_mode, AutoDiscoverMode::Standard);
    assert!(settings.available_models.is_empty());
    assert_eq!(settings.custom_headers, CustomHeaders::default());
    assert_eq!(settings.clone(), settings);
}
