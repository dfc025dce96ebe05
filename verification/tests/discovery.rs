use open_ai_compatible::discovery::{
    discover_models, enrich_models_lite_llm, parse_llamacpp_models, LiteLlmModelInfo,
    LiteLlmModelInfoEntry, LiteLlmModelInfoResponse, ListModelsResponse, LlamaCppArchitecture,
    LlamaCppModelEntry, LlamaCppModelMeta, LlamaCppModelsResponse, ModelEntry,
};
use open_ai_compatible::effort::ReasoningEffort;
use open_ai_compatible::fetch::FetchError;
use open_ai_compatible::settings::{AvailableModel, ModelCapabilities, DEFAULT_MAX_TOKENS};

fn default_discovered_model(name: &str) -> AvailableModel {
    AvailableModel {
        name: name.to_string(),
        display_name: None,
        max_tokens: DEFAULT_MAX_TOKENS,
        max_output_tokens: None,
        max_completion_tokens: None,
        reasoning_effort: None,
        capabilities: ModelCapabilities::default(),
    }
}

/// Decodes a description of models; `None` where the body is none.
fn decode_model_info(body: &str) -> Option<LiteLlmModelInfoResponse> {
    let value: serde_json::Value = serde_json::from_str(body).ok()?;
    let mut data = Vec::new();
    if let Some(entries) = value.as_object()?.get("data") {
        for entry in entries.as_array()? {
            let entry = entry.as_object()?;
            data.push(LiteLlmModelInfoEntry {
                model_name: entry.get("model_name")?.as_str()?.to_string(),
                model_info: match entry.get("model_info") {
                    Some(info) => decode_info(info)?,
                    None => LiteLlmModelInfo::default(),
                },
            });
        }
    }
    Some(LiteLlmModelInfoResponse { data })
}

/// Decodes what is told of one model; a field that is missing or null is told nothing of.
fn decode_info(info: &serde_json::Value) -> Option<LiteLlmModelInfo> {
    let info = info.as_object()?;
    let number = |field: &str| match info.get(field) {
        None | Some(serde_json::Value::Null) => Some(None),
        Some(value) => value.as_u64().map(Some),
    };
    let flag = |field: &str| match info.get(field) {
        None | Some(serde_json::Value::Null) => Some(None),
        Some(value) => value.as_bool().map(Some),
    };
    Some(LiteLlmModelInfo {
        max_tokens: number("max_tokens")?,
        max_input_tokens: number("max_input_tokens")?,
        max_output_tokens: number("max_output_tokens")?,
        supports_function_calling: flag("supports_function_calling")?,
        supports_vision: flag("supports_vision")?,
        supports_reasoning: flag("supports_reasoning")?,
        supports_prompt_caching: flag("supports_prompt_caching")?,
    })
}

fn enrich(models: &mut Vec<AvailableModel>, body: &str) {
    enrich_models_lite_llm(models, decode_model_info(body).as_ref());
}

#[test]
fn test_enrich_models_lite_llm_enriches_capabilities() {
    let mut models = vec![default_discovered_model("gpt-4")];
    let body = r#"{
        "data": [{
            "model_name": "gpt-4",
            "model_info": {
                "max_input_tokens": 200000,
                "max_output_tokens": 16384,
                "supports_function_calling": false,
                "supports_vision": true,
                "supports_prompt_caching": true,
                "supports_reasoning": true
            }
        }]
    }"#;

    enrich(&mut models, body);

    let model = &models[0];
    assert_eq!(model.max_tokens, 200_000);
    assert_eq!(model.max_output_tokens, Some(16_384));
    assert!(!model.capabilities.tools);
    assert!(model.capabilities.images);
    assert!(model.capabilities.prompt_cache_key);
    assert_eq!(model.reasoning_effort, Some(ReasoningEffort::Medium));
}

#[test]
fn test_enrich_models_lite_llm_falls_back_to_max_tokens() {
    let mut models = vec![default_discovered_model("mistral-3")];
    let body = r#"{
        "data": [{
            "model_name": "mistral-3",
            "model_info": {
                "max_tokens": 4096
            }
        }]
    }"#;

    enrich(&mut models, body);

    assert_eq!(models[0].max_tokens, 4096);
    assert_eq!(models[0].max_output_tokens, Some(4096));
}

#[test]
fn test_enrich_models_lite_llm_keeps_defaults_for_unmatched_models() {
    let mut models = vec![default_discovered_model("unknown-model")];
    let body = r#"{
        "data": [{
            "model_name": "different-model",
            "model_info": { "max_input_tokens": 999999 }
        }]
    }"#;

    enrich(&mut models, body);

    assert_eq!(models[0].max_tokens, DEFAULT_MAX_TOKENS);
    assert_eq!(models[0].max_output_tokens, None);
}

#[test]
fn test_enrich_models_lite_llm_handles_invalid_json() {
    let mut models = vec![default_discovered_model("gpt-4")];
    enrich(&mut models, "not valid json");
    assert_eq!(models[0].max_tokens, DEFAULT_MAX_TOKENS);
    assert_eq!(models, vec![default_discovered_model("gpt-4")]);
}

#[test]
fn missing_parts_of_a_description_are_told_nothing_of() {
    let mut models = vec![default_discovered_model("m")];
    models[0].max_tokens = 7;
    let before = models.clone();

    enrich(&mut models, "{}");
    assert_eq!(models, before);

    enrich(&mut models, r#"{"data": [{"model_name": "m", "model_info": {"max_tokens": "many"}}]}"#);
    assert_eq!(models, before);

    enrich(&mut models, r#"{"data": [{"model_name": "m"}]}"#);
    assert_eq!(models, vec![default_discovered_model("m")]);

    enrich(
        &mut models,
        r#"{"data": [{"model_name": "m", "model_info": {"max_tokens": null, "supports_vision": true}}]}"#,
    );
    assert_eq!(models[0].max_tokens, DEFAULT_MAX_TOKENS);
    assert!(models[0].capabilities.images);
}

fn told(name: &str, model_info: LiteLlmModelInfo) -> LiteLlmModelInfoEntry {
    LiteLlmModelInfoEntry {
        model_name: name.to_string(),
        model_info,
    }
}

#[test]
fn what_is_told_last_holds() {
    let response = LiteLlmModelInfoResponse {
        data: vec![
            told(
                "m",
                LiteLlmModelInfo {
                    max_tokens: Some(1),
                    supports_vision: Some(true),
                    ..Default::default()
                },
            ),
            told(
                "m",
                LiteLlmModelInfo {
                    max_tokens: Some(2),
                    ..Default::default()
                },
            ),
        ],
    };
    let mut models = vec![default_discovered_model("m")];
    enrich_models_lite_llm(&mut models, Some(&response));
    assert_eq!(models[0].max_tokens, 2);
    assert!(!models[0].capabilities.images);
}

#[test]
fn enriching_keeps_what_is_not_told() {
    let response = LiteLlmModelInfoResponse {
        data: vec![told("m", LiteLlmModelInfo::default())],
    };
    let mut model = default_discovered_model("m");
    model.display_name = Some("M".to_string());
    model.max_tokens = 7;
    model.max_output_tokens = Some(8);
    model.max_completion_tokens = Some(9);
    model.reasoning_effort = Some(ReasoningEffort::Low);
    model.capabilities = ModelCapabilities {
        tools: false,
        images: true,
        parallel_tool_calls: true,
        prompt_cache_key: true,
        chat_completions: false,
        interleaved_reasoning: true,
        max_tokens_parameter: true,
    };
    let mut models = vec![model];
    enrich_models_lite_llm(&mut models, Some(&response));
    let enriched = AvailableModel {
        name: "m".to_string(),
        display_name: Some("M".to_string()),
        max_tokens: 128_000,
        max_output_tokens: None,
        max_completion_tokens: Some(9),
        reasoning_effort: Some(ReasoningEffort::Low),
        capabilities: ModelCapabilities {
            tools: true,
            images: false,
            parallel_tool_calls: true,
            prompt_cache_key: false,
            chat_completions: false,
            interleaved_reasoning: true,
            max_tokens_parameter: true,
        },
    };
    assert_eq!(models, vec![enriched.clone()]);

    enrich_models_lite_llm(&mut models, Some(&response));
    assert_eq!(models, vec![enriched]);
}

#[test]
fn standard_list_gives_default_models() {
    let response = ListModelsResponse {
        data: vec![
            ModelEntry {
                id: "b".to_string(),
            },
            ModelEntry {
                id: "a".to_string(),
            },
        ],
    };
    assert_eq!(
        discover_models(&response),
        vec![default_discovered_model("b"), default_discovered_model("a")]
    );
}

#[test]
fn llamacpp_router_describes_models() {
    let response = LlamaCppModelsResponse {
        data: vec![
            LlamaCppModelEntry {
                id: "vision".to_string(),
                architecture: Some(LlamaCppArchitecture {
                    input_modalities: vec!["text".to_string(), "image".to_string()],
                }),
                meta: Some(LlamaCppModelMeta { n_ctx: Some(4096) }),
            },
            LlamaCppModelEntry {
                id: "text".to_string(),
                architecture: Some(LlamaCppArchitecture {
                    input_modalities: vec!["text".to_string(), "images".to_string()],
                }),
                meta: Some(LlamaCppModelMeta { n_ctx: None }),
            },
            LlamaCppModelEntry {
                id: "bare".to_string(),
                architecture: None,
                meta: None,
            },
        ],
    };
    let mut vision = default_discovered_model("vision");
    vision.max_tokens = 4096;
    vision.capabilities.images = true;
    assert_eq!(
        parse_llamacpp_models(Ok(response)),
        Ok(vec![
            vision,
            default_discovered_model("text"),
            default_discovered_model("bare"),
        ])
    );
}

#[test]
fn unreadable_llamacpp_list_is_an_error() {
    assert_eq!(
        parse_llamacpp_models(Err("expected value".to_string())),
        Err(FetchError::LlamaCppModelsUnreadable(
            "expected value".to_string()
        ))
    );
}
