use open_ai_compatible::effort::{
    chat_completion_reasoning_effort, default_thinking_reasoning_effort,
    disable_response_thinking_for_none_effort, selected_thinking_reasoning_effort,
    supported_thinking_effort_levels, supports_none_reasoning_effort, ReasoningEffort,
};
use open_ai_compatible::model::{
    chat_completion_max_tokens_parameter, ChatCompletionMaxTokensParameter,
};
use open_ai_compatible::request::{LanguageModelRequest, Speed};
use open_ai_compatible::settings::{AvailableModel, ModelCapabilities};

fn available_model(reasoning_effort: Option<ReasoningEffort>) -> AvailableModel {
    AvailableModel {
        name: "custom-model".to_string(),
        display_name: None,
        max_tokens: 128_000,
        max_output_tokens: None,
        max_completion_tokens: None,
        reasoning_effort,
        capabilities: ModelCapabilities {
            chat_completions: false,
            ..Default::default()
        },
    }
}

#[test]
fn configured_reasoning_effort_supports_thinking() {
    assert_eq!(
        default_thinking_reasoning_effort(&available_model(Some(ReasoningEffort::High))),
        Some(ReasoningEffort::High)
    );
}

#[test]
fn missing_or_none_reasoning_effort_does_not_support_thinking() {
    assert_eq!(
        default_thinking_reasoning_effort(&available_model(None)),
        None
    );
    assert_eq!(
        default_thinking_reasoning_effort(&available_model(Some(ReasoningEffort::Disabled))),
        None
    );
}

#[test]
fn supported_thinking_effort_levels_use_configured_effort_as_default() {
    let effort_levels =
        supported_thinking_effort_levels(&available_model(Some(ReasoningEffort::High)));
    let values = effort_levels
        .iter()
        .map(|level| level.value.as_ref())
        .collect::<Vec<&str>>();

    assert_eq!(values, ["minimal", "low", "medium", "high", "xhigh", "max"]);
    assert_eq!(
        effort_levels
            .iter()
            .find(|level| level.is_default)
            .map(|level| level.value.as_ref()),
        Some("high")
    );
}

#[test]
fn supported_thinking_effort_levels_hide_missing_or_none_effort() {
    assert!(supported_thinking_effort_levels(&available_model(None)).is_empty());
    assert!(
        supported_thinking_effort_levels(&available_model(Some(ReasoningEffort::Disabled)))
            .is_empty()
    );
}

#[test]
fn chat_completion_reasoning_effort_honors_request_and_configured_effort() {
    let model = available_model(Some(ReasoningEffort::Medium));
    let mut request = LanguageModelRequest {
        thinking_allowed: true,
        ..Default::default()
    };

    assert_eq!(
        chat_completion_reasoning_effort(&request, &model),
        Some(ReasoningEffort::Medium)
    );

    request.thinking_effort = Some("high".to_string());
    assert_eq!(
        chat_completion_reasoning_effort(&request, &model),
        Some(ReasoningEffort::High)
    );

    request.thinking_effort = Some("not-supported".to_string());
    assert_eq!(
        chat_completion_reasoning_effort(&request, &model),
        Some(ReasoningEffort::Medium)
    );

    request.thinking_allowed = false;
    assert_eq!(
        chat_completion_reasoning_effort(&request, &model),
        Some(ReasoningEffort::Disabled)
    );
}

#[test]
fn chat_completion_reasoning_effort_omits_missing_effort() {
    let model = available_model(None);
    let request = LanguageModelRequest {
        thinking_allowed: false,
        ..Default::default()
    };

    assert_eq!(chat_completion_reasoning_effort(&request, &model), None);
}

#[test]
fn chat_completion_reasoning_effort_preserves_explicit_none() {
    let model = available_model(Some(ReasoningEffort::Disabled));
    let request = LanguageModelRequest {
        thinking_allowed: true,
        thinking_effort: Some("high".to_string()),
        ..Default::default()
    };

    assert_eq!(
        chat_completion_reasoning_effort(&request, &model),
        Some(ReasoningEffort::Disabled)
    );
}

#[test]
fn chat_completion_max_tokens_parameter_defaults_to_max_completion_tokens() {
    let model = available_model(Some(ReasoningEffort::Medium));

    assert_eq!(
        chat_completion_max_tokens_parameter(&model),
        ChatCompletionMaxTokensParameter::MaxCompletionTokens
    );
}

#[test]
fn chat_completion_max_tokens_parameter_uses_max_tokens_when_configured() {
    let mut model = available_model(Some(ReasoningEffort::Medium));
    model.capabilities.max_tokens_parameter = true;

    assert_eq!(
        chat_completion_max_tokens_parameter(&model),
        ChatCompletionMaxTokensParameter::MaxTokens
    );
}

#[test]
fn configured_reasoning_effort_supports_none_reasoning_effort() {
    assert!(supports_none_reasoning_effort(&available_model(Some(
        ReasoningEffort::Medium
    ))));
    assert!(supports_none_reasoning_effort(&available_model(Some(
        ReasoningEffort::Disabled
    ))));
    assert!(!supports_none_reasoning_effort(&available_model(None)));
}

#[test]
fn response_thinking_effort_preserves_explicit_none() {
    let model = available_model(Some(ReasoningEffort::Disabled));
    let mut request = LanguageModelRequest {
        thinking_allowed: true,
        thinking_effort: Some("high".to_string()),
        ..Default::default()
    };

    disable_response_thinking_for_none_effort(&mut request, &model);
    assert!(!request.thinking_allowed);
    assert_eq!(request.thinking_effort, None);
}

#[test]
fn response_thinking_is_kept_for_other_efforts() {
    let mut request = LanguageModelRequest {
        thinking_allowed: true,
        thinking_effort: Some("low".to_string()),
        speed: Some(Speed::Fast),
    };
    let before = request.clone();
    disable_response_thinking_for_none_effort(
        &mut request,
        &available_model(Some(ReasoningEffort::High)),
    );
    assert_eq!(request, before);
    disable_response_thinking_for_none_effort(&mut request, &available_model(None));
    assert_eq!(request, before);
}

#[test]
fn disabling_thinking_twice_changes_nothing_more() {
    let model = available_model(Some(ReasoningEffort::Disabled));
    let mut request = LanguageModelRequest {
        thinking_allowed: true,
        thinking_effort: Some("high".to_string()),
        speed: Some(Speed::Standard),
    };
    disable_response_thinking_for_none_effort(&mut request, &model);
    let once = request.clone();
    disable_response_thinking_for_none_effort(&mut request, &model);
    assert_eq!(request, once);
    assert_eq!(request.speed, Some(Speed::Standard));
}

#[test]
fn effort_values_are_read_back() {
    let all = [
        (ReasoningEffort::Disabled, "none", "None"),
        (ReasoningEffort::Minimal, "minimal", "Minimal"),
        (ReasoningEffort::Low, "low", "Low"),
        (ReasoningEffort::Medium, "medium", "Medium"),
        (ReasoningEffort::High, "high", "High"),
        (ReasoningEffort::XHigh, "xhigh", "Extra High"),
        (ReasoningEffort::Max, "max", "Max"),
    ];
    for (effort, value, label) in all {
        assert_eq!(effort.value(), value);
        assert_eq!(effort.label(), label);
        assert_eq!(ReasoningEffort::from_value(value), Some(effort));
    }
    assert_eq!(ReasoningEffort::from_value("High"), None);
    assert_eq!(ReasoningEffort::from_value(""), None);
}

#[test]
fn selecting_no_effort_selects_nothing() {
    let request = LanguageModelRequest {
        thinking_allowed: true,
        thinking_effort: Some("none".to_string()),
        ..Default::default()
    };
    assert_eq!(selected_thinking_reasoning_effort(&request), None);
    assert_eq!(
        chat_completion_reasoning_effort(&request, &available_model(Some(ReasoningEffort::Max))),
        Some(ReasoningEffort::Max)
    );
}

#[test]
fn model_without_effort_takes_the_selected_one() {
    let request = LanguageModelRequest {
        thinking_allowed: true,
        thinking_effort: Some("xhigh".to_string()),
        ..Default::default()
    };
    assert_eq!(
        chat_completion_reasoning_effort(&request, &available_model(None)),
        Some(ReasoningEffort::XHigh)
    );
    let unselected = LanguageModelRequest {
        thinking_allowed: true,
        ..Default::default()
    };
    assert_eq!(
        chat_completion_reasoning_effort(&unselected, &available_model(None)),
        None
    );
}

#[test]
fn exactly_one_level_is_the_default() {
    for effort in [
        ReasoningEffort::Minimal,
        ReasoningEffort::Low,
        ReasoningEffort::Medium,
        ReasoningEffort::High,
        ReasoningEffort::XHigh,
        ReasoningEffort::Max,
    ] {
        let levels = supported_thinking_effort_levels(&available_model(Some(effort)));
        let defaults = levels
            .iter()
            .filter(|level| level.is_default)
            .map(|level| (level.name.as_str(), level.value.as_str()))
            .collect::<Vec<(&str, &str)>>();
        assert_eq!(defaults, [(effort.label(), effort.value())]);
    }
}
