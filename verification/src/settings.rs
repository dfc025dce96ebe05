//! What a user configures for a provider.

use vstd::prelude::*;

use crate::effort::ReasoningEffort;

verus! {

/// Context window of a discovered model whose service does not report one.
pub const DEFAULT_MAX_TOKENS: u64 = 128_000;

/// What a model can do, and how a request to it is written.
#[derive(Clone, Copy, Debug, PartialEq, Eq, Structural)]
pub struct ModelCapabilities {
    pub tools: bool,
    pub images: bool,
    pub parallel_tool_calls: bool,
    pub prompt_cache_key: bool,
    pub chat_completions: bool,
    pub interleaved_reasoning: bool,
    pub max_tokens_parameter: bool,
}

impl ModelCapabilities {
    /// The capabilities of a model of which nothing is known.
    pub open spec fn spec_default() -> ModelCapabilities {
        ModelCapabilities {
            tools: true,
            images: false,
            parallel_tool_calls: false,
            prompt_cache_key: false,
            chat_completions: true,
            interleaved_reasoning: false,
            max_tokens_parameter: false,
        }
    }
}

impl Default for ModelCapabilities {
    fn default() -> (res: ModelCapabilities)
        ensures
            res == ModelCapabilities::spec_default(),
    {
        ModelCapabilities {
            tools: true,
            images: false,
            parallel_tool_calls: false,
            prompt_cache_key: false,
            chat_completions: true,
            interleaved_reasoning: false,
            max_tokens_parameter: false,
        }
    }
}

/// A model that a provider offers, written by the user or discovered.
#[derive(Debug, PartialEq, Eq)]
pub struct AvailableModel {
    pub name: String,
    pub display_name: Option<String>,
    pub max_tokens: u64,
    pub max_output_tokens: Option<u64>,
    pub max_completion_tokens: Option<u64>,
    pub reasoning_effort: Option<ReasoningEffort>,
    pub capabilities: ModelCapabilities,
}

impl Clone for AvailableModel {
    fn clone(&self) -> (res: AvailableModel)
        ensures
            res == *self,
    {
        AvailableModel {
            name: self.name.clone(),
            display_name: self.display_name.clone(),
            max_tokens: self.max_tokens,
            max_output_tokens: self.max_output_tokens,
            max_completion_tokens: self.max_completion_tokens,
            reasoning_effort: self.reasoning_effort,
            capabilities: self.capabilities,
        }
    }
}

/// A copy of a list of models.
pub fn clone_models(models: &Vec<AvailableModel>) -> (res: Vec<AvailableModel>)
    ensures
        res@ == models@,
{
    let res = models.clone();
    proof {
        assert(res@ =~= models@);
    }
    res
}

/// Where the capabilities of discovered models come from.
#[derive(Clone, Copy, Debug, PartialEq, Eq, Structural)]
pub enum AutoDiscoverMode {
    /// The model list names models and nothing else.
    Standard,
    /// The model list of a llama.cpp router, which describes each model.
    LlamaCpp,
    /// A second endpoint of a LiteLLM proxy describes the models.
    LiteLlm,
}

impl Default for AutoDiscoverMode {
    fn default() -> (res: AutoDiscoverMode)
        ensures
            res == AutoDiscoverMode::Standard,
    {
        AutoDiscoverMode::Standard
    }
}

/// Headers that the user adds to every request.
#[derive(Debug, PartialEq, Eq)]
pub struct CustomHeaders {
    pub entries: Vec<(String, String)>,
}

impl CustomHeaders {
    /// Name and value of each header, in order.
    pub open spec fn pairs(self) -> Seq<(Seq<char>, Seq<char>)> {
        self.entries@.map_values(|e: (String, String)| (e.0@, e.1@))
    }
}

impl Clone for CustomHeaders {
    fn clone(&self) -> (res: CustomHeaders)
        ensures
            res.entries@ == self.entries@,
            res.pairs() == self.pairs(),
    {
        let mut entries: Vec<(String, String)> = Vec::new();
        let mut i: usize = 0;
        while i < self.entries.len()
            invariant
                i <= self.entries@.len(),
                entries@ == self.entries@.take(i as int),
            decreases self.entries@.len() - i,
        {
            let entry: &(String, String) = &self.entries[i];
            entries.push((entry.0.clone(), entry.1.clone()));
            proof {
                assert(self.entries@.take(i + 1) =~= self.entries@.take(i as int).push(
                    self.entries@[i as int],
                ));
            }
            i = i + 1;
        }
        proof {
            assert(entries@ =~= self.entries@);
        }
        CustomHeaders { entries }
    }
}

impl Default for CustomHeaders {
    fn default() -> (res: CustomHeaders)
        ensures
            res.entries@.len() == 0,
            res.pairs().len() == 0,
    {
        CustomHeaders { entries: Vec::new() }
    }
}

/// The settings of one provider.
#[derive(Debug, PartialEq, Eq)]
pub struct OpenAiCompatibleSettings {
    pub api_url: String,
    pub auto_discover: bool,
    pub auto_discover_mode: AutoDiscoverMode,
    pub available_models: Vec<AvailableModel>,
    pub custom_headers: CustomHeaders,
}

/// The content of provider settings.
#[verifier::ext_equal]
pub struct SettingsContent {
    pub api_url: Seq<char>,
    pub auto_discover: bool,
    pub auto_discover_mode: AutoDiscoverMode,
    pub available_models: Seq<AvailableModel>,
    pub custom_headers: Seq<(Seq<char>, Seq<char>)>,
}

impl View for OpenAiCompatibleSettings {
    type V = SettingsContent;

    open spec fn view(&self) -> SettingsContent {
        SettingsContent {
            api_url: self.api_url@,
            auto_discover: self.auto_discover,
            auto_discover_mode: self.auto_discover_mode,
            available_models: self.available_models@,
            custom_headers: self.custom_headers.pairs(),
        }
    }
}

impl OpenAiCompatibleSettings {
    /// Where the service is reached.
    pub fn api_url(&self) -> (res: &str)
        ensures
            res@ == self@.api_url,
    {
        self.api_url.as_str()
    }
}

impl Clone for OpenAiCompatibleSettings {
    fn clone(&self) -> (res: OpenAiCompatibleSettings)
        ensures
            res@ == self@,
    {
        OpenAiCompatibleSettings {
            api_url: self.api_url.clone(),
            auto_discover: self.auto_discover,
            auto_discover_mode: self.auto_discover_mode,
            available_models: clone_models(&self.available_models),
            custom_headers: self.custom_headers.clone(),
        }
    }
}

impl Default for OpenAiCompatibleSettings {
    fn default() -> (res: OpenAiCompatibleSettings)
        ensures
            res@.api_url.len() == 0,
            !res@.auto_discover,
            res@.auto_discover_mode == AutoDiscoverMode::Standard,
            res@.available_models.len() == 0,
            res@.custom_headers.len() == 0,
    {
        OpenAiCompatibleSettings {
            api_url: String::new(),
            auto_discover: false,
            auto_discover_mode: AutoDiscoverMode::Standard,
            available_models: Vec::new(),
            custom_headers: CustomHeaders { entries: Vec::new() },
        }
    }
}

/// A model of which nothing is known uses tools and chat completions, and nothing else.
pub proof fn law_default_capabilities()
    ensures
        ModelCapabilities::spec_default().tools,
        ModelCapabilities::spec_default().chat_completions,
        !ModelCapabilities::spec_default().images,
        !ModelCapabilities::spec_default().parallel_tool_calls,
        !ModelCapabilities::spec_default().prompt_cache_key,
        !ModelCapabilities::spec_default().interleaved_reasoning,
        !ModelCapabilities::spec_default().max_tokens_parameter,
{
}

/// The content of headers is the name and the value of each of them, in order.
pub proof fn law_header_content(headers: CustomHeaders, i: int)
    requires
        0 <= i < headers.entries@.len(),
    ensures
        headers.pairs().len() == headers.entries@.len(),
        headers.pairs()[i].0 == headers.entries@[i].0@,
        headers.pairs()[i].1 == headers.entries@[i].1@,
{
}

/// The content of settings is what each of them holds.
pub proof fn law_settings_content(settings: OpenAiCompatibleSettings)
    ensures
        settings@.api_url == settings.api_url@,
        settings@.auto_discover == settings.auto_discover,
        settings@.auto_discover_mode == settings.auto_discover_mode,
        settings@.available_models == settings.available_models@,
        settings@.custom_headers == settings.custom_headers.pairs(),
{
}

} // verus!
