//! The page on which a user configures a provider: what it shows, and what its buttons do.

use vstd::prelude::*;

use crate::fetch_state::FetchState;
use crate::state::State;
use crate::text::{is_same, join, trim, trimmed};

verus! {

/// What an empty field for the key shows.
pub const API_KEY_PLACEHOLDER: &'static str = "000000000000000000000000000000000000000000000000000";

/// Why the credentials of a provider were not loaded.
#[derive(Debug, PartialEq, Eq)]
pub enum AuthenticateError {
    /// There are none.
    CredentialsNotFound,
    /// Something went wrong; what.
    Failed(String),
}

/// A key that is to be kept from now on, or, where there is none, that none is.
#[derive(Debug, PartialEq, Eq)]
pub struct ApiKeyUpdate {
    pub api_key: Option<String>,
}

/// The settings of the language models of all providers.
pub struct LanguageModelSettings<V> {
    /// The settings of each provider of this kind, under its identifier.
    pub openai_compatible: Option<Vec<(String, V)>>,
}

/// The part of the page that is about the key.
#[derive(Debug, PartialEq, Eq)]
pub enum ApiKeySection {
    /// A field to type a key into, with what it holds.
    Editor { instructions: String, text: String, placeholder: String, env_var_hint: String },
    /// Where the key is from, and a button that resets it.
    Configured { label: String, reset_label: String, reset_tooltip: Option<String> },
}

/// The part of the page that is about discovered models.
#[derive(Debug, PartialEq, Eq)]
pub enum ConnectionControl {
    /// Models were discovered; a button discovers them anew.
    Connected { label: String, refresh_tooltip: String },
    /// No models were discovered; a button discovers them.
    Connect { label: String },
}

/// What the page shows.
#[derive(Debug, PartialEq, Eq)]
pub enum ConfigurationPage {
    /// The credentials are not loaded yet.
    Loading { label: String },
    /// The page itself.
    Loaded {
        api_key_section: ApiKeySection,
        connection: Option<ConnectionControl>,
        remove_label: String,
    },
}

/// The content of the part of the page that is about the key.
#[verifier::ext_equal]
pub enum SectionContent {
    Editor {
        instructions: Seq<char>,
        text: Seq<char>,
        placeholder: Seq<char>,
        env_var_hint: Seq<char>,
    },
    Configured { label: Seq<char>, reset_label: Seq<char>, reset_tooltip: Option<Seq<char>> },
}

/// The content of the part of the page that is about discovered models.
#[verifier::ext_equal]
pub enum ControlContent {
    Connected { label: Seq<char>, refresh_tooltip: Seq<char> },
    Connect { label: Seq<char> },
}

/// The content of the page.
#[verifier::ext_equal]
pub enum PageContent {
    Loading { label: Seq<char> },
    Loaded {
        api_key_section: SectionContent,
        connection: Option<ControlContent>,
        remove_label: Seq<char>,
    },
}

impl View for ApiKeySection {
    type V = SectionContent;

    open spec fn view(&self) -> SectionContent {
        match *self {
            ApiKeySection::Editor { instructions, text, placeholder, env_var_hint } =>
                SectionContent::Editor {
                instructions: instructions@,
                text: text@,
                placeholder: placeholder@,
                env_var_hint: env_var_hint@,
            },
            ApiKeySection::Configured { label, reset_label, reset_tooltip } =>
                SectionContent::Configured {
                label: label@,
                reset_label: reset_label@,
                reset_tooltip: match reset_tooltip {
                    Some(tooltip) => Some(tooltip@),
                    None => None,
                },
            },
        }
    }
}

impl View for ConnectionControl {
    type V = ControlContent;

    open spec fn view(&self) -> ControlContent {
        match *self {
            ConnectionControl::Connected { label, refresh_tooltip } => ControlContent::Connected {
                label: label@,
                refresh_tooltip: refresh_tooltip@,
            },
            ConnectionControl::Connect { label } => ControlContent::Connect { label: label@ },
        }
    }
}

impl View for ConfigurationPage {
    type V = PageContent;

    open spec fn view(&self) -> PageContent {
        match *self {
            ConfigurationPage::Loading { label } => PageContent::Loading { label: label@ },
            ConfigurationPage::Loaded { api_key_section, connection, remove_label } =>
                PageContent::Loaded {
                api_key_section: api_key_section@,
                connection: match connection {
                    Some(control) => Some(control@),
                    None => None,
                },
                remove_label: remove_label@,
            },
        }
    }
}

/// The page on which a user configures a provider.
#[derive(Debug, PartialEq, Eq)]
pub struct OpenAiCompatibleConfigurationView {
    /// The identifier of the provider.
    pub id: String,
    /// What the field for the key holds.
    pub api_key_editor: String,
    /// Whether the credentials are still being loaded.
    pub loading_credentials: bool,
}

impl Clone for OpenAiCompatibleConfigurationView {
    fn clone(&self) -> (res: OpenAiCompatibleConfigurationView)
        ensures
            res == *self,
    {
        OpenAiCompatibleConfigurationView {
            id: self.id.clone(),
            api_key_editor: self.api_key_editor.clone(),
            loading_credentials: self.loading_credentials,
        }
    }
}

/// What the page shows about the key: a field to type one into where none is loaded, and else
/// where it is from. A key of an environment variable is reset by unsetting the variable.
pub open spec fn section_content(text: Seq<char>, state: State) -> SectionContent {
    if !state.authenticated {
        SectionContent::Editor {
            instructions:
                "To use Zed's agent with an OpenAI-compatible provider, you need to add an API key."@,
            text,
            placeholder: API_KEY_PLACEHOLDER@,
            env_var_hint: "You can also set the "@ + state.env_var_name@
                + " environment variable and restart Zed."@,
        }
    } else {
        SectionContent::Configured {
            label: if state.key_from_env_var {
                "API key set in "@ + state.env_var_name@ + " environment variable"@
            } else {
                "API key configured for "@ + state.settings.api_url@
            },
            reset_label: "Reset API Key"@,
            reset_tooltip: if state.key_from_env_var {
                Some(
                    "To reset your API key, unset the "@ + state.env_var_name@
                        + " environment variable."@,
                )
            } else {
                None
            },
        }
    }
}

/// What the page shows about discovered models: nothing, where they are not asked for.
pub open spec fn connection_content(auto_discover: bool, has_models: bool) -> Option<
    ControlContent,
> {
    if !auto_discover {
        None
    } else if has_models {
        Some(
            ControlContent::Connected {
                label: "Connected"@,
                refresh_tooltip: "Refresh Models"@,
            },
        )
    } else {
        Some(ControlContent::Connect { label: "Connect"@ })
    }
}

/// `before`, `middle` and `after`, one behind the other.
fn around(before: &str, middle: &str, after: &str) -> (res: String)
    ensures
        res@ == before@ + middle@ + after@,
{
    let text = join(before, middle);
    join(text.as_str(), after)
}

/// Whether an entry is not the one under `id`.
pub open spec fn is_other<V>(id: Seq<char>) -> spec_fn((String, V)) -> bool {
    |entry: (String, V)| entry.0@ != id
}

/// Takes the entry under `id` out of `entries`.
fn remove_entry<V>(entries: &mut Vec<(String, V)>, id: &str)
    ensures
        final(entries)@ == old(entries)@.filter(is_other(id@)),
{
    let ghost all = entries@;
    let ghost mut seen: int = 0;
    let mut i: usize = 0;
    proof {
        reveal(Seq::filter);
        assert(all.take(0) =~= Seq::<(String, V)>::empty());
        assert(entries@.take(0) =~= Seq::<(String, V)>::empty());
        assert(all.skip(0) =~= all);
        assert(entries@.skip(0) =~= entries@);
    }
    while i < entries.len()
        invariant
            0 <= seen <= all.len(),
            i <= entries@.len(),
            entries@.take(i as int) == all.take(seen).filter(is_other(id@)),
            entries@.skip(i as int) == all.skip(seen),
        decreases entries@.len() - i,
    {
        let ghost before = entries@;
        proof {
            assert(before.skip(i as int)[0] == all.skip(seen)[0]);
            assert(before.skip(i as int).len() == all.skip(seen).len());
            reveal(Seq::filter);
            assert(all.take(seen + 1).drop_last() =~= all.take(seen));
            assert(all.take(seen + 1).last() == before[i as int]);
            assert(all.skip(seen).skip(1) =~= all.skip(seen + 1));
        }
        if is_same(entries[i].0.as_str(), id) {
            entries.remove(i);
            proof {
                assert(entries@.take(i as int) =~= before.take(i as int));
                assert(entries@.skip(i as int) =~= before.skip(i as int).skip(1));
            }
        } else {
            i = i + 1;
            proof {
                assert(entries@.take(i as int) =~= before.take(i - 1).push(before[i - 1]));
                assert(entries@.skip(i as int) =~= before.skip(i - 1).skip(1));
            }
        }
        proof {
            seen = seen + 1;
        }
    }
    proof {
        assert(entries@.skip(i as int).len() == 0);
        assert(entries@.take(i as int) =~= entries@);
        assert(all.take(seen) =~= all);
    }
}

/// The settings without those of the provider `id`.
pub open spec fn without_provider<V>(
    entries: Option<Seq<(String, V)>>,
    id: Seq<char>,
) -> Option<Seq<(String, V)>> {
    match entries {
        Some(entries) => Some(entries.filter(is_other(id))),
        None => None,
    }
}

impl<V> LanguageModelSettings<V> {
    /// The settings of each provider of this kind, under its identifier.
    pub open spec fn providers(self) -> Option<Seq<(String, V)>> {
        match self.openai_compatible {
            Some(entries) => Some(entries@),
            None => None,
        }
    }
}

impl OpenAiCompatibleConfigurationView {
    /// The page for the provider `id`, which loads its credentials first.
    pub fn new(id: &str) -> (res: OpenAiCompatibleConfigurationView)
        ensures
            res.id@ == id@,
            res.api_key_editor@.len() == 0,
            res.loading_credentials,
    {
        OpenAiCompatibleConfigurationView {
            id: id.to_owned(),
            api_key_editor: String::new(),
            loading_credentials: true,
        }
    }

    /// Takes how loading the credentials ended. Returns what went wrong. That there are no
    /// credentials is nothing wrong.
    pub fn credentials_loaded(&mut self, result: Result<(), AuthenticateError>) -> (res: Option<
        String,
    >)
        ensures
            !final(self).loading_credentials,
            final(self).id == old(self).id,
            final(self).api_key_editor == old(self).api_key_editor,
            match result {
                Err(AuthenticateError::Failed(reason)) => res matches Some(text) && text@
                    == "Failed to load OpenAI-compatible provider credentials: "@ + reason@,
                _ => res is None,
            },
    {
        self.loading_credentials = false;
        match result {
            Ok(()) => None,
            Err(AuthenticateError::CredentialsNotFound) => None,
            Err(AuthenticateError::Failed(reason)) => Some(
                join("Failed to load OpenAI-compatible provider credentials: ", reason.as_str()),
            ),
        }
    }

    /// Discovers models anew, after authentication was tried, however that ended.
    pub fn refresh(
        &self,
        authenticated: Result<(), AuthenticateError>,
        state: &State,
        fetch_state: &mut FetchState,
    )
        ensures
            final(fetch_state)@ == old(fetch_state)@.refreshed(state.settings@),
    {
        let _ = authenticated;
        fetch_state.refresh(state);
    }

    /// Takes the key that was typed, without the white space around it. Where nothing else was
    /// typed, nothing happens; else the field is emptied.
    pub fn save_api_key(&mut self) -> (res: Option<ApiKeyUpdate>)
        ensures
            final(self).id == old(self).id,
            final(self).loading_credentials == old(self).loading_credentials,
            trimmed(old(self).api_key_editor@).len() == 0 ==> res is None && *final(self) == *old(
                self,
            ),
            trimmed(old(self).api_key_editor@).len() > 0 ==> {
                &&& final(self).api_key_editor@.len() == 0
                &&& res matches Some(ApiKeyUpdate { api_key: Some(key) })
                &&& key@ == trimmed(old(self).api_key_editor@)
            },
    {
        let api_key: String = trim(self.api_key_editor.as_str()).to_owned();
        if api_key.as_str().is_empty() {
            return None;
        }
        self.api_key_editor = String::new();
        Some(ApiKeyUpdate { api_key: Some(api_key) })
    }

    /// Empties the field, and has no key kept any more.
    pub fn reset_api_key(&mut self) -> (res: ApiKeyUpdate)
        ensures
            final(self).id == old(self).id,
            final(self).loading_credentials == old(self).loading_credentials,
            final(self).api_key_editor@.len() == 0,
            res.api_key is None,
    {
        self.api_key_editor = String::new();
        ApiKeyUpdate { api_key: None }
    }

    /// Takes the provider out of the settings, where they name it.
    pub fn remove_provider<V>(&self, language_models: &mut Option<LanguageModelSettings<V>>)
        ensures
            match *old(language_models) {
                None => *final(language_models) is None,
                Some(before) => *final(language_models) matches Some(after) && after.providers()
                    == without_provider(before.providers(), self.id@),
            },
    {
        let taken = language_models.take();
        *language_models = match taken {
            None => None,
            Some(models) => match models.openai_compatible {
                None => Some(LanguageModelSettings { openai_compatible: None }),
                Some(entries) => {
                    let mut entries = entries;
                    remove_entry(&mut entries, self.id.as_str());
                    Some(LanguageModelSettings { openai_compatible: Some(entries) })
                },
            },
        };
    }

    /// Whether the page has a field for the key: where none is loaded.
    pub fn should_render_editor(&self, state: &State) -> (res: bool)
        ensures
            res == !state.authenticated,
    {
        !state.authenticated
    }

    fn api_key_section(&self, state: &State) -> (res: ApiKeySection)
        ensures
            res@ == section_content(self.api_key_editor@, *state),
    {
        let env_var_name: &str = state.env_var_name.as_str();
        if self.should_render_editor(state) {
            ApiKeySection::Editor {
                instructions:
                    "To use Zed's agent with an OpenAI-compatible provider, you need to add an API key.".to_owned(),
                text: self.api_key_editor.clone(),
                placeholder: API_KEY_PLACEHOLDER.to_owned(),
                env_var_hint: around(
                    "You can also set the ",
                    env_var_name,
                    " environment variable and restart Zed.",
                ),
            }
        } else {
            ApiKeySection::Configured {
                label: if state.key_from_env_var {
                    around("API key set in ", env_var_name, " environment variable")
                } else {
                    join("API key configured for ", state.settings.api_url())
                },
                reset_label: "Reset API Key".to_owned(),
                reset_tooltip: if state.key_from_env_var {
                    Some(
                        around(
                            "To reset your API key, unset the ",
                            env_var_name,
                            " environment variable.",
                        ),
                    )
                } else {
                    None
                },
            }
        }
    }

    fn connection_control(auto_discover: bool, has_models: bool) -> (res: Option<
        ConnectionControl,
    >)
        ensures
            match res {
                Some(control) => connection_content(auto_discover, has_models) == Some(control@),
                None => connection_content(auto_discover, has_models) is None,
            },
    {
        if !auto_discover {
            None
        } else if has_models {
            Some(
                ConnectionControl::Connected {
                    label: "Connected".to_owned(),
                    refresh_tooltip: "Refresh Models".to_owned(),
                },
            )
        } else {
            Some(ConnectionControl::Connect { label: "Connect".to_owned() })
        }
    }

    /// What the page shows.
    pub open spec fn page(self, state: State, has_models: bool) -> PageContent {
        if self.loading_credentials {
            PageContent::Loading { label: "Loading credentials…"@ }
        } else {
            PageContent::Loaded {
                api_key_section: section_content(self.api_key_editor@, state),
                connection: connection_content(state.settings.auto_discover, has_models),
                remove_label: "Remove Provider"@,
            }
        }
    }

    /// What the page shows.
    pub fn render(&self, state: &State, fetch_state: &FetchState) -> (res: ConfigurationPage)
        ensures
            res@ == self.page(*state, fetch_state@.fetched_models.len() > 0),
    {
        if self.loading_credentials {
            return ConfigurationPage::Loading { label: "Loading credentials…".to_owned() };
        }
        ConfigurationPage::Loaded {
            api_key_section: self.api_key_section(state),
            connection: Self::connection_control(
                state.settings.auto_discover,
                fetch_state.has_models(),
            ),
            remove_label: "Remove Provider".to_owned(),
        }
    }
}

/// Once a provider is taken out of the settings they do not name it any more, and every other one
/// is still there, in the same order.
pub proof fn law_removed_provider_is_gone<V>(
    entries: Seq<(String, V)>,
    id: Seq<char>,
    other: Seq<char>,
)
    requires
        other != id,
    ensures
        without_provider(Some(entries), id) matches Some(left) && (forall|i: int|
            0 <= i < left.len() ==> (#[trigger] left[i]).0@ != id) && left.filter(
            is_entry_of(other),
        ) == entries.filter(is_entry_of(other)),
{
    let left = entries.filter(is_other(id));
    assert forall|i: int| 0 <= i < left.len() implies (#[trigger] left[i]).0@ != id by {
        entries.lemma_filter_pred(is_other(id), i);
    }
    lemma_others_stay(entries, id, other);
}

/// Whether an entry is the one under `id`.
pub open spec fn is_entry_of<V>(id: Seq<char>) -> spec_fn((String, V)) -> bool {
    |entry: (String, V)| entry.0@ == id
}

proof fn lemma_others_stay<V>(entries: Seq<(String, V)>, id: Seq<char>, other: Seq<char>)
    requires
        other != id,
    ensures
        entries.filter(is_other(id)).filter(is_entry_of(other)) == entries.filter(
            is_entry_of(other),
        ),
    decreases entries.len(),
{
    reveal(Seq::filter);
    if entries.len() > 0 {
        let front = entries.drop_last();
        let last = entries.last();
        lemma_others_stay(front, id, other);
        if last.0@ != id {
            let kept = front.filter(is_other(id));
            assert(kept.push(last).drop_last() =~= kept);
        }
    }
}

/// The page does not show the key: it is the same for every key that is loaded.
pub proof fn law_page_does_not_show_the_key(
    view: OpenAiCompatibleConfigurationView,
    a: State,
    b: State,
    has_models: bool,
)
    requires
        a == (State { api_key: a.api_key, ..b }),
    ensures
        view.page(a, has_models) == view.page(b, has_models),
{
}

/// Discovered models are mentioned only where the settings ask for discovery.
pub proof fn law_connection_is_shown_with_discovery_only(
    view: OpenAiCompatibleConfigurationView,
    state: State,
    has_models: bool,
)
    requires
        !view.loading_credentials,
    ensures
        view.page(state, has_models)->connection is Some <==> state.settings.auto_discover,
{
}

/// The page waits for the credentials exactly as long as they are being loaded.
pub proof fn law_page_waits_for_credentials(
    view: OpenAiCompatibleConfigurationView,
    state: State,
    has_models: bool,
)
    ensures
        view.page(state, has_models) is Loading <==> view.loading_credentials,
        view.page(state, has_models) is Loading ==> view.page(state, has_models)->label
            == "Loading credentials…"@,
        view.page(state, has_models) is Loaded ==> view.page(state, has_models)->remove_label
            == "Remove Provider"@,
{
}

/// Where no key is loaded, the page has a field for one, with what was typed, and names the
/// environment variable that can hold one.
pub proof fn law_page_asks_for_a_missing_key(
    view: OpenAiCompatibleConfigurationView,
    state: State,
    has_models: bool,
)
    requires
        !view.loading_credentials,
    ensures
        view.page(state, has_models)->api_key_section is Editor <==> !state.authenticated,
        !state.authenticated ==> view.page(state, has_models)->api_key_section->text
            == view.api_key_editor@,
        !state.authenticated ==> view.page(state, has_models)->api_key_section->placeholder
            == API_KEY_PLACEHOLDER@,
        !state.authenticated ==> view.page(state, has_models)->api_key_section->instructions
            == "To use Zed's agent with an OpenAI-compatible provider, you need to add an API key."@,
        !state.authenticated ==> view.page(state, has_models)->api_key_section->env_var_hint
            == "You can also set the "@ + state.env_var_name@
            + " environment variable and restart Zed."@,
{
}

/// Where a key is loaded, the page tells where it is from: the environment variable, which has to be
/// unset to reset the key, or else the service it was configured for.
pub proof fn law_page_tells_where_a_key_is_from(
    view: OpenAiCompatibleConfigurationView,
    state: State,
    has_models: bool,
)
    requires
        !view.loading_credentials,
        state.authenticated,
    ensures
        state.key_from_env_var ==> view.page(state, has_models)->api_key_section->label
            == "API key set in "@ + state.env_var_name@ + " environment variable"@,
        !state.key_from_env_var ==> view.page(state, has_models)->api_key_section->label
            == "API key configured for "@ + state.settings.api_url@,
        view.page(state, has_models)->api_key_section->reset_label == "Reset API Key"@,
        state.key_from_env_var ==> view.page(state, has_models)->api_key_section->reset_tooltip
            == Some(
            "To reset your API key, unset the "@ + state.env_var_name@ + " environment variable."@,
        ),
        !state.key_from_env_var ==> view.page(state, has_models)->api_key_section->reset_tooltip
            is None,
{
}

/// Where discovery is asked for, the page is connected exactly where models were discovered, and
/// offers to discover them again, or else to connect.
pub proof fn law_page_is_connected_with_models_only(
    view: OpenAiCompatibleConfigurationView,
    state: State,
    has_models: bool,
)
    requires
        !view.loading_credentials,
    ensures
        view.page(state, has_models)->connection is Some <==> state.settings.auto_discover,
        state.settings.auto_discover && has_models ==> view.page(state, has_models)->connection
            == Some(
            ControlContent::Connected { label: "Connected"@, refresh_tooltip: "Refresh Models"@ },
        ),
        state.settings.auto_discover && !has_models ==> view.page(state, has_models)->connection
            == Some(ControlContent::Connect { label: "Connect"@ }),
{
}

/// Taking a provider out of the settings takes its entry and nothing else: what stays are the
/// entries under other identifiers, all of them, in the same order. Settings without providers
/// stay without.
pub proof fn law_only_the_provider_is_taken_out<V>(entries: Seq<(String, V)>, id: Seq<char>)
    ensures
        without_provider(Some(entries), id) == Some(
            entries.filter(|entry: (String, V)| entry.0@ != id),
        ),
        without_provider::<V>(None, id) is None,
{
    assert(is_other::<V>(id) =~= (|entry: (String, V)| entry.0@ != id));
}

} // verus!
