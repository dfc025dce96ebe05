use open_ai_compatible::discovery::{
    LiteLlmModelInfo, LiteLlmModelInfoEntry, LiteLlmModelInfoResponse, ListModelsResponse,
    LlamaCppModelEntry, LlamaCppModelMeta, LlamaCppModelsResponse, ModelEntry,
};
use open_ai_compatible::fetch::{
    FetchAction, FetchError, FetchEvent, FetchModels, HttpMethod, HttpRequest,
};
use open_ai_compatible::fetch_state::FetchState;
use open_ai_compatible::settings::{
    AutoDiscoverMode, AvailableModel, CustomHeaders, ModelCapabilities, OpenAiCompatibleSettings,
};
use open_ai_compatible::state::State;

fn model(name: &str) -> AvailableModel {
    AvailableModel {
        name: name.to_string(),
        display_name: None,
        max_tokens: 128_000,
        max_output_tokens: None,
        max_completion_tokens: None,
        reasoning_effort: None,
        capabilities: ModelCapabilities::default(),
    }
}

fn headers() -> CustomHeaders {
    CustomHeaders {
        entries: vec![("X-Team".to_string(), "blue".to_string())],
    }
}

fn fetch(mode: AutoDiscoverMode) -> FetchModels {
    FetchModels::new(
        "https://host/api/v1",
        Some("secret".to_string()),
        &headers(),
        mode,
    )
}

fn request_to(uri: &str) -> FetchAction {
    FetchAction::Send(HttpRequest {
        method: HttpMethod::Get,
        uri: uri.to_string(),
        headers: vec![
            ("Accept".to_string(), "application/json".to_string()),
            ("Authorization".to_string(), "Bearer secret".to_string()),
        ],
        extra_headers: headers(),
    })
}

fn answered(code: u16, status: &str, body: &str) -> FetchEvent {
    FetchEvent::Responded(code, status.to_string(), body.to_string())
}

fn listed(names: &[&str]) -> FetchEvent {
    FetchEvent::ModelsDecoded(Ok(ListModelsResponse {
        data: names
            .iter()
            .map(|name| ModelEntry {
                id: name.to_string(),
            })
            .collect(),
    }))
}

#[test]
fn standard_fetch_orders_models_by_name() {
    let fetch = fetch(AutoDiscoverMode::Standard);
    assert_eq!(fetch.action(), request_to("https://host/api/v1/models"));
    let fetch = fetch.handle(answered(200, "200 OK", "list"));
    assert_eq!(fetch.action(), FetchAction::DecodeModels("list".to_string()));
    let fetch = fetch.handle(listed(&["b", "a"]));
    assert_eq!(fetch.action(), FetchAction::Finish);
    assert_eq!(fetch.into_result(), Some(Ok(vec![model("a"), model("b")])));
}

#[test]
fn request_without_a_key_has_no_authorization() {
    let fetch = FetchModels::new("u", None, &CustomHeaders::default(), AutoDiscoverMode::LiteLlm);
    assert_eq!(
        fetch.action(),
        FetchAction::Send(HttpRequest {
            method: HttpMethod::Get,
            uri: "u/models".to_string(),
            headers: vec![("Accept".to_string(), "application/json".to_string())],
            extra_headers: CustomHeaders::default(),
        })
    );
}

#[test]
fn llamacpp_fetch_decodes_the_same_answer_again() {
    let fetch = fetch(AutoDiscoverMode::LlamaCpp)
        .handle(answered(200, "200 OK", "list"))
        .handle(listed(&["b", "a"]));
    assert_eq!(
        fetch.action(),
        FetchAction::DecodeLlamaCppModels("list".to_string())
    );
    let fetch = fetch.handle(FetchEvent::LlamaCppModelsDecoded(Ok(LlamaCppModelsResponse {
        data: vec![
            LlamaCppModelEntry {
                id: "b".to_string(),
                architecture: None,
                meta: Some(LlamaCppModelMeta { n_ctx: Some(32) }),
            },
            LlamaCppModelEntry {
                id: "a".to_string(),
                architecture: None,
                meta: None,
            },
        ],
    })));
    let mut b = model("b");
    b.max_tokens = 32;
    assert_eq!(fetch.into_result(), Some(Ok(vec![b, model("a")])));
}

#[test]
fn llamacpp_fetch_fails_on_another_list() {
    let fetch = fetch(AutoDiscoverMode::LlamaCpp)
        .handle(answered(200, "200 OK", "list"))
        .handle(listed(&[]))
        .handle(FetchEvent::LlamaCppModelsDecoded(Err("bad".to_string())));
    let error = fetch.into_result().unwrap().unwrap_err();
    assert_eq!(error, FetchError::LlamaCppModelsUnreadable("bad".to_string()));
    assert_eq!(error.message(), "Unable to parse llama.cpp models response");
}

#[test]
fn lite_llm_fetch_asks_for_a_description() {
    let fetch = fetch(AutoDiscoverMode::LiteLlm)
        .handle(answered(200, "200 OK", "list"))
        .handle(listed(&["b", "a"]));
    assert_eq!(fetch.action(), request_to("https://host/api/model/info"));
    let fetch = fetch.handle(answered(204, "204 No Content", "info"));
    assert_eq!(
        fetch.action(),
        FetchAction::DecodeModelInfo("info".to_string())
    );
    let fetch = fetch.handle(FetchEvent::ModelInfoDecoded(Some(LiteLlmModelInfoResponse {
        data: vec![LiteLlmModelInfoEntry {
            model_name: "b".to_string(),
            model_info: LiteLlmModelInfo {
                max_tokens: Some(77),
                ..Default::default()
            },
        }],
    })));
    let mut b = model("b");
    b.max_tokens = 77;
    b.max_output_tokens = Some(77);
    assert_eq!(fetch.into_result(), Some(Ok(vec![model("a"), b])));
}

#[test]
fn lite_llm_fetch_does_without_a_description() {
    let plain = Some(Ok(vec![model("a"), model("b")]));
    let described = || {
        fetch(AutoDiscoverMode::LiteLlm)
            .handle(answered(200, "200 OK", "list"))
            .handle(listed(&["b", "a"]))
    };
    assert_eq!(
        described()
            .handle(FetchEvent::SendFailed("down".to_string()))
            .into_result(),
        plain
    );
    assert_eq!(
        described()
            .handle(FetchEvent::BodyUnreadable("cut".to_string()))
            .into_result(),
        plain
    );
    assert_eq!(
        described()
            .handle(answered(404, "404 Not Found", ""))
            .into_result(),
        plain
    );
    assert_eq!(
        described()
            .handle(answered(200, "200 OK", "?"))
            .handle(FetchEvent::ModelInfoDecoded(None))
            .into_result(),
        plain
    );
    assert_eq!(
        described()
            .handle(FetchEvent::RequestRejected("no uri".to_string()))
            .into_result(),
        Some(Err(FetchError::InvalidRequest("no uri".to_string())))
    );
}

#[test]
fn failures_of_the_model_list_are_errors() {
    let cases = [
        (
            FetchEvent::RequestRejected("no uri".to_string()),
            FetchError::InvalidRequest("no uri".to_string()),
            "no uri",
        ),
        (
            FetchEvent::SendFailed("down".to_string()),
            FetchError::NotSent("down".to_string()),
            "down",
        ),
        (
            FetchEvent::BodyUnreadable("cut".to_string()),
            FetchError::BodyUnreadable("cut".to_string()),
            "cut",
        ),
        (
            answered(401, "401 Unauthorized", "no key"),
            FetchError::Refused("401 Unauthorized".to_string(), "no key".to_string()),
            "Failed to fetch models: 401 Unauthorized no key",
        ),
        (
            answered(300, "300 Multiple Choices", ""),
            FetchError::Refused("300 Multiple Choices".to_string(), String::new()),
            "Failed to fetch models: 300 Multiple Choices ",
        ),
        (
            answered(199, "199", "x"),
            FetchError::Refused("199".to_string(), "x".to_string()),
            "Failed to fetch models: 199 x",
        ),
    ];
    for (event, error, message) in cases {
        let result = fetch(AutoDiscoverMode::LiteLlm).handle(event).into_result();
        assert_eq!(error.message(), message);
        assert_eq!(result, Some(Err(error)));
    }
    let unreadable = fetch(AutoDiscoverMode::LlamaCpp)
        .handle(answered(299, "299", "x"))
        .handle(FetchEvent::ModelsDecoded(Err("eof".to_string())))
        .into_result()
        .unwrap()
        .unwrap_err();
    assert_eq!(unreadable, FetchError::ModelsUnreadable("eof".to_string()));
    assert_eq!(unreadable.message(), "Unable to parse /v1/models response");
}

#[test]
fn events_that_are_not_awaited_change_nothing() {
    let fetch = fetch(AutoDiscoverMode::Standard).handle(listed(&["a"]));
    assert_eq!(fetch.action(), request_to("https://host/api/v1/models"));
    let fetch = fetch
        .handle(answered(200, "200 OK", "list"))
        .handle(answered(500, "500", "late"))
        .handle(FetchEvent::ModelInfoDecoded(None))
        .handle(listed(&["a"]))
        .handle(FetchEvent::SendFailed("late".to_string()));
    assert_eq!(fetch.into_result(), Some(Ok(vec![model("a")])));
}

#[test]
fn unfinished_fetch_has_no_result() {
    assert_eq!(fetch(AutoDiscoverMode::Standard).into_result(), None);
}

fn settings(auto_discover: bool) -> OpenAiCompatibleSettings {
    OpenAiCompatibleSettings {
        api_url: "https://host/v1".to_string(),
        auto_discover,
        auto_discover_mode: AutoDiscoverMode::LlamaCpp,
        available_models: Vec::new(),
        custom_headers: headers(),
    }
}

#[test]
fn refresh_starts_a_fetch() {
    let mut state = FetchState::default();
    assert!(!state.has_models());
    assert_eq!(state.fetch_model_task(), None);

    state.refresh_fetch(&settings(true));
    let task = state.fetch_model_task().unwrap();
    assert_eq!(task.api_url, "https://host/v1");
    assert_eq!(task.extra_headers, headers());
    assert_eq!(task.auto_discover_mode, AutoDiscoverMode::LlamaCpp);
    assert_eq!(
        task.start(Some("k".to_string())),
        FetchModels::new(
            "https://host/v1",
            Some("k".to_string()),
            &headers(),
            AutoDiscoverMode::LlamaCpp
        )
    );

    assert!(state.finish_fetch(task.ticket, Ok(vec![model("a")])));
    assert!(state.has_models());
    assert_eq!(state.fetched_models(), &vec![model("a")]);
}

#[test]
fn failed_fetch_keeps_models() {
    let mut state = FetchState::default();
    state.refresh_fetch(&settings(true));
    let first = state.fetch_model_task().unwrap().ticket;
    assert!(state.finish_fetch(first, Ok(vec![model("a")])));

    state.refresh_fetch(&settings(true));
    assert_eq!(state.fetched_models(), &vec![model("a")]);
    let second = state.fetch_model_task().unwrap().ticket;
    assert_ne!(first, second);
    assert!(!state.finish_fetch(second, Err(FetchError::NotSent("down".to_string()))));
    assert_eq!(state.fetched_models(), &vec![model("a")]);

    state.refresh_fetch(&settings(true));
    let third = state.fetch_model_task().unwrap().ticket;
    assert!(state.finish_fetch(third, Ok(vec![])));
    assert!(!state.has_models());
}

#[test]
fn models_are_forgotten_without_discovery() {
    let mut state = FetchState::default();
    state.refresh_fetch(&settings(true));
    let ticket = state.fetch_model_task().unwrap().ticket;
    assert!(state.finish_fetch(ticket, Ok(vec![model("a")])));
    state.refresh_fetch(&settings(false));
    assert!(!state.has_models());
    assert_eq!(state.fetch_model_task(), None);
}

#[test]
fn called_off_fetch_brings_nothing() {
    let mut state = FetchState::default();
    state.refresh_fetch(&settings(true));
    let first = state.fetch_model_task().unwrap().ticket;
    state.refresh_fetch(&settings(true));
    let second = state.fetch_model_task().unwrap().ticket;
    assert_ne!(first, second);
    assert!(!state.finish_fetch(first, Ok(vec![model("old")])));
    assert!(!state.has_models());
    assert!(state.finish_fetch(second, Ok(vec![model("new")])));
    assert_eq!(state.fetched_models(), &vec![model("new")]);

    state.refresh(&State {
        settings: settings(false),
        api_key: None,
        authenticated: false,
        key_from_env_var: false,
        env_var_name: String::new(),
    });
    assert_eq!(state.fetch_model_task(), None);
    assert!(!state.has_models());
    assert!(!state.finish_fetch(second, Ok(vec![model("late")])));
    assert!(!state.has_models());
}
