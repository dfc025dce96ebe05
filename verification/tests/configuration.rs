use open_ai_compatible::configuration::{
    ApiKeySection, ApiKeyUpdate, AuthenticateError, ConfigurationPage, ConnectionControl,
    LanguageModelSettings, OpenAiCompatibleConfigurationView,
};
use open_ai_compatible::fetch_state::FetchState;
use open_ai_compatible::settings::{AvailableModel, ModelCapabilities, OpenAiCompatibleSettings};
use open_ai_compatible::state::State;

fn state(authenticated: bool, key_from_env_var: bool, auto_discover: bool) -> State {
    State {
        settings: OpenAiCompatibleSettings {
            api_url: "https://host/v1".to_string(),
            auto_discover,
            ..Default::default()
        },
        api_key: None,
        authenticated,
        key_from_env_var,
        env_var_name: "HOST_API_KEY".to_string(),
    }
}

fn loaded_view() -> OpenAiCompatibleConfigurationView {
    let mut view = OpenAiCompatibleConfigurationView::new("host");
    assert_eq!(view.credentials_loaded(Ok(())), None);
    view
}

#[test]
fn page_loads_credentials_first() {
    let mut view = OpenAiCompatibleConfigurationView::new("host");
    assert_eq!(view.id, "host");
    assert_eq!(view.api_key_editor, "");
    assert_eq!(
        view.render(&state(false, false, false), &FetchState::default()),
        ConfigurationPage::Loading {
            label: "Loading credentials…".to_string()
        }
    );
    assert_eq!(
        view.credentials_loaded(Err(AuthenticateError::Failed("locked".to_string()))),
        Some("Failed to load OpenAI-compatible provider credentials: locked".to_string())
    );
    assert!(!view.loading_credentials);
    let mut view = OpenAiCompatibleConfigurationView::new("host");
    assert_eq!(
        view.credentials_loaded(Err(AuthenticateError::CredentialsNotFound)),
        None
    );
    assert!(!view.loading_credentials);
}

#[test]
fn page_asks_for_a_key() {
    let mut view = loaded_view();
    view.api_key_editor = "sec".to_string();
    let without_key = state(false, false, false);
    assert!(view.should_render_editor(&without_key));
    assert_eq!(
        view.render(&without_key, &FetchState::default()),
        ConfigurationPage::Loaded {
            api_key_section: ApiKeySection::Editor {
                instructions: "To use Zed's agent with an OpenAI-compatible provider, you need to add an API key.".to_string(),
                text: "sec".to_string(),
                placeholder: "000000000000000000000000000000000000000000000000000".to_string(),
                env_var_hint: "You can also set the HOST_API_KEY environment variable and restart Zed.".to_string(),
            },
            connection: None,
            remove_label: "Remove Provider".to_string(),
        }
    );
}

#[test]
fn page_tells_where_the_key_is_from() {
    let view = loaded_view();
    let stored = state(true, false, true);
    assert!(!view.should_render_editor(&stored));
    assert_eq!(
        view.render(&stored, &FetchState::default()),
        ConfigurationPage::Loaded {
            api_key_section: ApiKeySection::Configured {
                label: "API key configured for https://host/v1".to_string(),
                reset_label: "Reset API Key".to_string(),
                reset_tooltip: None,
            },
            connection: Some(ConnectionControl::Connect {
                label: "Connect".to_string()
            }),
            remove_label: "Remove Provider".to_string(),
        }
    );

    let from_env_var = state(true, true, true);
    let mut fetch_state = FetchState::default();
    view.refresh(
        Err(AuthenticateError::CredentialsNotFound),
        &from_env_var,
        &mut fetch_state,
    );
    let ticket = fetch_state.fetch_model_task().unwrap().ticket;
    let model = AvailableModel {
        name: "a".to_string(),
        display_name: None,
        max_tokens: 1,
        max_output_tokens: None,
        max_completion_tokens: None,
        reasoning_effort: None,
        capabilities: ModelCapabilities::default(),
    };
    assert!(fetch_state.finish_fetch(ticket, Ok(vec![model])));
    assert_eq!(
        view.render(&from_env_var, &fetch_state),
        ConfigurationPage::Loaded {
            api_key_section: ApiKeySection::Configured {
                label: "API key set in HOST_API_KEY environment variable".to_string(),
                reset_label: "Reset API Key".to_string(),
                reset_tooltip: Some(
                    "To reset your API key, unset the HOST_API_KEY environment variable."
                        .to_string()
                ),
            },
            connection: Some(ConnectionControl::Connected {
                label: "Connected".to_string(),
                refresh_tooltip: "Refresh Models".to_string(),
            }),
            remove_label: "Remove Provider".to_string(),
        }
    );
}

#[test]
fn page_does_not_show_the_key() {
    let view = loaded_view();
    let mut a = state(true, false, true);
    let b = state(true, false, true);
    a.api_key = Some("secret".to_string());
    let fetch_state = FetchState::default();
    assert_eq!(view.render(&a, &fetch_state), view.render(&b, &fetch_state));
}

#[test]
fn typed_key_is_saved_without_white_space() {
    let mut view = loaded_view();
    view.api_key_editor = " \tsecret key\n".to_string();
    assert_eq!(
        view.save_api_key(),
        Some(ApiKeyUpdate {
            api_key: Some("secret key".to_string())
        })
    );
    assert_eq!(view.api_key_editor, "");
}

#[test]
fn empty_key_is_not_saved() {
    let mut view = loaded_view();
    view.api_key_editor = " \n ".to_string();
    assert_eq!(view.save_api_key(), None);
    assert_eq!(view.api_key_editor, " \n ");
}

#[test]
fn resetting_forgets_the_key() {
    let mut view = loaded_view();
    view.api_key_editor = "half".to_string();
    assert_eq!(view.reset_api_key(), ApiKeyUpdate { api_key: None });
    assert_eq!(view.api_key_editor, "");
}

#[test]
fn removed_provider_leaves_the_settings() {
    let view = loaded_view();
    let mut settings = Some(LanguageModelSettings {
        openai_compatible: Some(vec![
            ("other".to_string(), 1),
            ("host".to_string(), 2),
            ("third".to_string(), 3),
        ]),
    });
    view.remove_provider(&mut settings);
    assert_eq!(
        settings.unwrap().openai_compatible,
        Some(vec![("other".to_string(), 1), ("third".to_string(), 3)])
    );

    let mut unnamed = Some(LanguageModelSettings {
        openai_compatible: Some(vec![("other".to_string(), 1)]),
    });
    view.remove_provider(&mut unnamed);
    assert_eq!(
        unnamed.unwrap().openai_compatible,
        Some(vec![("other".to_string(), 1)])
    );

    let mut empty: Option<LanguageModelSettings<u8>> = Some(LanguageModelSettings {
        openai_compatible: None,
    });
    view.remove_provider(&mut empty);
    assert_eq!(empty.unwrap().openai_compatible, None);

    let mut none: Option<LanguageModelSettings<u8>> = None;
    view.remove_provider(&mut none);
    assert!(none.is_none());
}
