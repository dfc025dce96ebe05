//! Discovered models: what a service reports of its models, and the models made of it.

use vstd::prelude::*;

use crate::effort::ReasoningEffort;
use crate::fetch::FetchError;
use crate::settings::{AvailableModel, ModelCapabilities, DEFAULT_MAX_TOKENS};
use crate::text::is_same;

verus! {

/// A model list in the standard form.
#[derive(Debug, PartialEq, Eq)]
pub struct ListModelsResponse {
    pub data: Vec<ModelEntry>,
}

/// One model of a standard model list.
#[derive(Debug, PartialEq, Eq)]
pub struct ModelEntry {
    pub id: String,
}

/// The model list of a llama.cpp router.
#[derive(Debug, PartialEq, Eq)]
pub struct LlamaCppModelsResponse {
    pub data: Vec<LlamaCppModelEntry>,
}

/// One model of a llama.cpp router.
#[derive(Debug, PartialEq, Eq)]
pub struct LlamaCppModelEntry {
    pub id: String,
    pub architecture: Option<LlamaCppArchitecture>,
    pub meta: Option<LlamaCppModelMeta>,
}

/// What a model of a llama.cpp router takes in.
#[derive(Debug, PartialEq, Eq)]
pub struct LlamaCppArchitecture {
    pub input_modalities: Vec<String>,
}

/// How a model of a llama.cpp router was loaded.
#[derive(Debug, PartialEq, Eq)]
pub struct LlamaCppModelMeta {
    pub n_ctx: Option<u64>,
}

/// What a LiteLLM proxy tells of its models.
#[derive(Debug, PartialEq, Eq)]
pub struct LiteLlmModelInfoResponse {
    pub data: Vec<LiteLlmModelInfoEntry>,
}

/// What a LiteLLM proxy tells of one model.
#[derive(Debug, PartialEq, Eq)]
pub struct LiteLlmModelInfoEntry {
    pub model_name: String,
    pub model_info: LiteLlmModelInfo,
}

/// Limits and capabilities of one model, as far as a LiteLLM proxy knows them.
#[derive(Clone, Copy, Debug, PartialEq, Eq, Structural)]
pub struct LiteLlmModelInfo {
    pub max_tokens: Option<u64>,
    pub max_input_tokens: Option<u64>,
    pub max_output_tokens: Option<u64>,
    pub supports_function_calling: Option<bool>,
    pub supports_vision: Option<bool>,
    pub supports_reasoning: Option<bool>,
    pub supports_prompt_caching: Option<bool>,
}

impl Default for LiteLlmModelInfo {
    fn default() -> (res: LiteLlmModelInfo)
        ensures
            res == (LiteLlmModelInfo {
                max_tokens: None,
                max_input_tokens: None,
                max_output_tokens: None,
                supports_function_calling: None,
                supports_vision: None,
                supports_reasoning: None,
                supports_prompt_caching: None,
            }),
    {
        LiteLlmModelInfo {
            max_tokens: None,
            max_input_tokens: None,
            max_output_tokens: None,
            supports_function_calling: None,
            supports_vision: None,
            supports_reasoning: None,
            supports_prompt_caching: None,
        }
    }
}

/// `value`, or `default` where there is none.
pub open spec fn value_or<T>(value: Option<T>, default: T) -> T {
    match value {
        Some(value) => value,
        None => default,
    }
}

/// `first`, or `second` where there is no first.
pub open spec fn first_of<T>(first: Option<T>, second: Option<T>) -> Option<T> {
    match first {
        Some(value) => Some(value),
        None => second,
    }
}

/// A model of which only the name, the context window and image input are known.
pub open spec fn discovered_model(
    name: String,
    max_tokens: u64,
    images: bool,
) -> AvailableModel {
    AvailableModel {
        name,
        display_name: None,
        max_tokens,
        max_output_tokens: None,
        max_completion_tokens: None,
        reasoning_effort: None,
        capabilities: ModelCapabilities { images, ..ModelCapabilities::spec_default() },
    }
}

fn make_discovered_model(name: String, max_tokens: u64, images: bool) -> (res: AvailableModel)
    ensures
        res == discovered_model(name, max_tokens, images),
{
    AvailableModel {
        name,
        display_name: None,
        max_tokens,
        max_output_tokens: None,
        max_completion_tokens: None,
        reasoning_effort: None,
        capabilities: ModelCapabilities {
            tools: true,
            images,
            parallel_tool_calls: false,
            prompt_cache_key: false,
            chat_completions: true,
            interleaved_reasoning: false,
            max_tokens_parameter: false,
        },
    }
}

/// The model made of an entry of a standard model list.
pub open spec fn standard_model(entry: ModelEntry) -> AvailableModel {
    discovered_model(entry.id, DEFAULT_MAX_TOKENS, false)
}

/// The models made of a standard model list, in its order.
pub open spec fn standard_models(entries: Seq<ModelEntry>) -> Seq<AvailableModel> {
    entries.map_values(|entry: ModelEntry| standard_model(entry))
}

/// The models made of a standard model list, in its order.
pub fn discover_models(response: &ListModelsResponse) -> (res: Vec<AvailableModel>)
    ensures
        res@ == standard_models(response.data@),
{
    let mut models: Vec<AvailableModel> = Vec::new();
    let mut i: usize = 0;
    while i < response.data.len()
        invariant
            i <= response.data@.len(),
            models@ == standard_models(response.data@.take(i as int)),
        decreases response.data@.len() - i,
    {
        models.push(make_discovered_model(response.data[i].id.clone(), DEFAULT_MAX_TOKENS, false));
        proof {
            assert(models@ =~= standard_models(response.data@.take(i + 1)));
        }
        i = i + 1;
    }
    proof {
        assert(response.data@.take(i as int) =~= response.data@);
    }
    models
}

/// Whether `modalities` name images.
pub open spec fn names_image(modalities: Seq<String>) -> bool {
    exists|i: int| 0 <= i < modalities.len() && (#[trigger] modalities[i])@ == "image"@
}

fn has_image(modalities: &Vec<String>) -> (res: bool)
    ensures
        res == names_image(modalities@),
{
    let mut i: usize = 0;
    while i < modalities.len()
        invariant
            i <= modalities@.len(),
            forall|j: int| 0 <= j < i ==> (#[trigger] modalities@[j])@ != "image"@,
        decreases modalities@.len() - i,
    {
        if is_same(modalities[i].as_str(), "image") {
            return true;
        }
        i = i + 1;
    }
    false
}

/// The model made of an entry of a llama.cpp router: its context window is that of the loaded
/// model where it is reported, and it takes images where its input modalities name them.
pub open spec fn llamacpp_model(entry: LlamaCppModelEntry) -> AvailableModel {
    let n_ctx = match entry.meta {
        Some(meta) => meta.n_ctx,
        None => None,
    };
    let images = match entry.architecture {
        Some(architecture) => names_image(architecture.input_modalities@),
        None => false,
    };
    discovered_model(entry.id, value_or(n_ctx, DEFAULT_MAX_TOKENS), images)
}

/// The models made of the model list of a llama.cpp router, in its order.
pub open spec fn llamacpp_models(entries: Seq<LlamaCppModelEntry>) -> Seq<AvailableModel> {
    entries.map_values(|entry: LlamaCppModelEntry| llamacpp_model(entry))
}

fn make_llamacpp_model(entry: &LlamaCppModelEntry) -> (res: AvailableModel)
    ensures
        res == llamacpp_model(*entry),
{
    let images: bool = match &entry.architecture {
        Some(architecture) => has_image(&architecture.input_modalities),
        None => false,
    };
    let n_ctx: Option<u64> = match &entry.meta {
        Some(meta) => meta.n_ctx,
        None => None,
    };
    make_discovered_model(entry.id.clone(), n_ctx.unwrap_or(DEFAULT_MAX_TOKENS), images)
}

/// The models of a llama.cpp router, of a model list as it was decoded, or that it could not be
/// read.
pub open spec fn parsed_llamacpp_models(
    decoded: Result<LlamaCppModelsResponse, String>,
) -> Result<Seq<AvailableModel>, FetchError> {
    match decoded {
        Ok(response) => Ok(llamacpp_models(response.data@)),
        Err(reason) => Err(FetchError::LlamaCppModelsUnreadable(reason)),
    }
}

/// The models of a llama.cpp router, of a model list as it was decoded. `decoded` holds the reason
/// where the list could not be read.
pub fn parse_llamacpp_models(decoded: Result<LlamaCppModelsResponse, String>) -> (res: Result<
    Vec<AvailableModel>,
    FetchError,
>)
    ensures
        match parsed_llamacpp_models(decoded) {
            Ok(models) => res matches Ok(found) && found@ == models,
            Err(error) => res == Err::<Vec<AvailableModel>, FetchError>(error),
        },
{
    let response = match decoded {
        Ok(response) => response,
        Err(reason) => {
            return Err(FetchError::LlamaCppModelsUnreadable(reason));
        },
    };
    let mut models: Vec<AvailableModel> = Vec::new();
    let mut i: usize = 0;
    while i < response.data.len()
        invariant
            i <= response.data@.len(),
            models@ == llamacpp_models(response.data@.take(i as int)),
        decreases response.data@.len() - i,
    {
        models.push(make_llamacpp_model(&response.data[i]));
        proof {
            assert(models@ =~= llamacpp_models(response.data@.take(i + 1)));
        }
        i = i + 1;
    }
    proof {
        assert(response.data@.take(i as int) =~= response.data@);
    }
    Ok(models)
}

/// What is told of the models, by name. What is told last of a name holds.
pub open spec fn info_by_name(entries: Seq<LiteLlmModelInfoEntry>) -> Map<
    Seq<char>,
    LiteLlmModelInfo,
>
    decreases entries.len(),
{
    if entries.len() == 0 {
        Map::empty()
    } else {
        info_by_name(entries.drop_last()).insert(
            entries.last().model_name@,
            entries.last().model_info,
        )
    }
}

/// `model` with the limits and capabilities of `info`.
pub open spec fn enriched(model: AvailableModel, info: LiteLlmModelInfo) -> AvailableModel {
    AvailableModel {
        max_tokens: value_or(first_of(info.max_input_tokens, info.max_tokens), DEFAULT_MAX_TOKENS),
        max_output_tokens: first_of(info.max_output_tokens, info.max_tokens),
        reasoning_effort: if value_or(info.supports_reasoning, false) {
            Some(ReasoningEffort::Medium)
        } else {
            model.reasoning_effort
        },
        capabilities: ModelCapabilities {
            tools: value_or(info.supports_function_calling, true),
            images: value_or(info.supports_vision, false),
            prompt_cache_key: value_or(info.supports_prompt_caching, false),
            ..model.capabilities
        },
        ..model
    }
}

/// `model` with what is told of its name, or as it is where nothing is.
pub open spec fn enriched_by_name(
    model: AvailableModel,
    infos: Map<Seq<char>, LiteLlmModelInfo>,
) -> AvailableModel {
    if infos.contains_key(model.name@) {
        enriched(model, infos[model.name@])
    } else {
        model
    }
}

/// `models` with what `entries` tell of them; `None` where the answer could not be read.
pub open spec fn enriched_models(
    models: Seq<AvailableModel>,
    entries: Option<Seq<LiteLlmModelInfoEntry>>,
) -> Seq<AvailableModel> {
    match entries {
        None => models,
        Some(entries) => models.map_values(
            |model: AvailableModel| enriched_by_name(model, info_by_name(entries)),
        ),
    }
}

/// What is told of `name`, if anything is.
fn find_info(entries: &Vec<LiteLlmModelInfoEntry>, name: &str) -> (res: Option<LiteLlmModelInfo>)
    ensures
        match res {
            Some(info) => info_by_name(entries@).contains_key(name@) && info_by_name(
                entries@,
            )[name@] == info,
            None => !info_by_name(entries@).contains_key(name@),
        },
{
    let mut i: usize = entries.len();
    proof {
        assert(entries@.take(i as int) =~= entries@);
    }
    while i > 0
        invariant
            i <= entries@.len(),
            info_by_name(entries@).contains_key(name@) == info_by_name(
                entries@.take(i as int),
            ).contains_key(name@),
            info_by_name(entries@)[name@] == info_by_name(entries@.take(i as int))[name@],
        decreases i,
    {
        proof {
            assert(entries@.take(i as int).drop_last() =~= entries@.take(i - 1));
        }
        i = i - 1;
        if is_same(entries[i].model_name.as_str(), name) {
            return Some(entries[i].model_info);
        }
    }
    None
}

fn enrich_model(model: &mut AvailableModel, info: LiteLlmModelInfo)
    ensures
        *final(model) == enriched(*old(model), info),
{
    model.max_tokens = match info.max_input_tokens {
        Some(tokens) => tokens,
        None => info.max_tokens.unwrap_or(DEFAULT_MAX_TOKENS),
    };
    model.max_output_tokens = match info.max_output_tokens {
        Some(tokens) => Some(tokens),
        None => info.max_tokens,
    };
    model.capabilities.tools = info.supports_function_calling.unwrap_or(true);
    model.capabilities.images = info.supports_vision.unwrap_or(false);
    model.capabilities.prompt_cache_key = info.supports_prompt_caching.unwrap_or(false);
    if info.supports_reasoning.unwrap_or(false) {
        model.reasoning_effort = Some(ReasoningEffort::Medium);
    }
}

/// Gives `models` the limits and capabilities that a LiteLLM proxy tells of them. A model of which
/// nothing is told stays as it is, and so do all where the answer could not be decoded.
pub fn enrich_models_lite_llm(
    models: &mut Vec<AvailableModel>,
    decoded: Option<&LiteLlmModelInfoResponse>,
)
    ensures
        final(models)@ == enriched_models(
            old(models)@,
            match decoded {
                Some(response) => Some(response.data@),
                None => None,
            },
        ),
{
    let response = match decoded {
        Some(response) => response,
        None => {
            return ;
        },
    };
    let ghost before = models@;
    let ghost entries = response.data@;
    let mut i: usize = 0;
    while i < models.len()
        invariant
            entries == response.data@,
            i <= models@.len(),
            models@.len() == before.len(),
            forall|j: int|
                0 <= j < i ==> #[trigger] models@[j] == enriched_by_name(
                    before[j],
                    info_by_name(entries),
                ),
            forall|j: int| i <= j < models@.len() ==> #[trigger] models@[j] == before[j],
        decreases models@.len() - i,
    {
        if let Some(info) = find_info(&response.data, models[i].name.as_str()) {
            enrich_model(&mut models[i], info);
        }
        i = i + 1;
    }
    proof {
        assert(models@ =~= enriched_models(before, Some(entries)));
    }
}

/// Enriching changes no name, and neither the number nor the order of models.
pub proof fn law_enriching_keeps_names(
    models: Seq<AvailableModel>,
    entries: Option<Seq<LiteLlmModelInfoEntry>>,
)
    ensures
        enriched_models(models, entries).len() == models.len(),
        forall|i: int|
            0 <= i < models.len() ==> (#[trigger] enriched_models(models, entries)[i]).name
                == models[i].name,
{
}

/// A model of which nothing is told keeps everything it has.
pub proof fn law_unmatched_models_are_kept(
    models: Seq<AvailableModel>,
    entries: Seq<LiteLlmModelInfoEntry>,
    i: int,
)
    requires
        0 <= i < models.len(),
        forall|j: int|
            0 <= j < entries.len() ==> (#[trigger] entries[j]).model_name@ != models[i].name@,
    ensures
        enriched_models(models, Some(entries))[i] == models[i],
{
    lemma_told_by_an_entry(entries, models[i].name@);
}

proof fn lemma_told_by_an_entry(entries: Seq<LiteLlmModelInfoEntry>, name: Seq<char>)
    ensures
        info_by_name(entries).contains_key(name) ==> exists|j: int|
            0 <= j < entries.len() && (#[trigger] entries[j]).model_name@ == name,
    decreases entries.len(),
{
    if entries.len() > 0 && info_by_name(entries).contains_key(name) {
        if entries.last().model_name@ == name {
            assert(entries[entries.len() - 1].model_name@ == name);
        } else {
            let front = entries.drop_last();
            lemma_told_by_an_entry(front, name);
            let j = choose|j: int|
                0 <= j < front.len() && (#[trigger] front[j]).model_name@ == name;
            assert(entries[j].model_name@ == name);
        }
    }
}

/// Enriching models again with the same answer changes nothing.
pub proof fn law_enriching_is_idempotent(
    models: Seq<AvailableModel>,
    entries: Option<Seq<LiteLlmModelInfoEntry>>,
)
    ensures
        enriched_models(enriched_models(models, entries), entries) == enriched_models(
            models,
            entries,
        ),
{
    assert(enriched_models(enriched_models(models, entries), entries) =~= enriched_models(
        models,
        entries,
    ));
}

/// A standard model list gives every model the default capabilities and the default context
/// window.
pub proof fn law_standard_models_have_defaults(entries: Seq<ModelEntry>, i: int)
    requires
        0 <= i < entries.len(),
    ensures
        standard_models(entries)[i].name == entries[i].id,
        standard_models(entries)[i].capabilities == ModelCapabilities::spec_default(),
        standard_models(entries)[i].max_tokens == DEFAULT_MAX_TOKENS,
{
}

/// Entry `j` is the last one that tells something of `name`.
pub open spec fn told_last(
    entries: Seq<LiteLlmModelInfoEntry>,
    j: int,
    name: Seq<char>,
) -> bool {
    &&& 0 <= j < entries.len()
    &&& entries[j].model_name@ == name
    &&& forall|k: int| j < k < entries.len() ==> (#[trigger] entries[k]).model_name@ != name
}

proof fn lemma_told_last_holds(entries: Seq<LiteLlmModelInfoEntry>, j: int, name: Seq<char>)
    requires
        told_last(entries, j, name),
    ensures
        info_by_name(entries).contains_key(name),
        info_by_name(entries)[name] == entries[j].model_info,
    decreases entries.len(),
{
    if j < entries.len() - 1 {
        assert(entries[entries.len() - 1].model_name@ != name);
        let front = entries.drop_last();
        assert(told_last(front, j, name)) by {
            assert forall|k: int| j < k < front.len() implies (#[trigger] front[k]).model_name@
                != name by {
                assert(front[k] == entries[k]);
            }
        }
        lemma_told_last_holds(front, j, name);
    }
}

/// The context window of a model is the input limit that is told last of its name, whatever the
/// total limit is. The total limit stands in only where no input limit is told, and the default
/// only where neither is.
pub proof fn law_input_limit_is_the_context_window(
    models: Seq<AvailableModel>,
    entries: Seq<LiteLlmModelInfoEntry>,
    i: int,
    j: int,
)
    requires
        0 <= i < models.len(),
        told_last(entries, j, models[i].name@),
    ensures
        entries[j].model_info.max_input_tokens matches Some(limit) ==> enriched_models(
            models,
            Some(entries),
        )[i].max_tokens == limit,
        entries[j].model_info.max_input_tokens is None && entries[j].model_info.max_tokens is Some
            ==> enriched_models(models, Some(entries))[i].max_tokens
            == entries[j].model_info.max_tokens->0,
        entries[j].model_info.max_input_tokens is None && entries[j].model_info.max_tokens is None
            ==> enriched_models(models, Some(entries))[i].max_tokens == 128_000,
{
    lemma_told_last_holds(entries, j, models[i].name@);
}

/// The longest completion of a model is the output limit that is told last of its name, whatever
/// the total limit is. The total limit stands in only where no output limit is told, and where
/// neither is, there is no limit, even if the model had one.
pub proof fn law_output_limit_is_the_longest_completion(
    models: Seq<AvailableModel>,
    entries: Seq<LiteLlmModelInfoEntry>,
    i: int,
    j: int,
)
    requires
        0 <= i < models.len(),
        told_last(entries, j, models[i].name@),
    ensures
        entries[j].model_info.max_output_tokens matches Some(limit) ==> enriched_models(
            models,
            Some(entries),
        )[i].max_output_tokens == Some(limit),
        entries[j].model_info.max_output_tokens is None ==> enriched_models(
            models,
            Some(entries),
        )[i].max_output_tokens == entries[j].model_info.max_tokens,
{
    lemma_told_last_holds(entries, j, models[i].name@);
}

/// Of a model that is told of, tools are offered unless they are denied, images and prompt caching
/// only where they are affirmed. A model that is said to reason is asked for medium effort; any
/// other keeps the effort it has.
pub proof fn law_told_capabilities_hold(
    models: Seq<AvailableModel>,
    entries: Seq<LiteLlmModelInfoEntry>,
    i: int,
    j: int,
)
    requires
        0 <= i < models.len(),
        told_last(entries, j, models[i].name@),
    ensures
        enriched_models(models, Some(entries))[i].capabilities.tools <==>
            entries[j].model_info.supports_function_calling != Some(false),
        enriched_models(models, Some(entries))[i].capabilities.images <==>
            entries[j].model_info.supports_vision == Some(true),
        enriched_models(models, Some(entries))[i].capabilities.prompt_cache_key <==>
            entries[j].model_info.supports_prompt_caching == Some(true),
        entries[j].model_info.supports_reasoning == Some(true) ==> enriched_models(
            models,
            Some(entries),
        )[i].reasoning_effort == Some(ReasoningEffort::Medium),
        entries[j].model_info.supports_reasoning != Some(true) ==> enriched_models(
            models,
            Some(entries),
        )[i].reasoning_effort == models[i].reasoning_effort,
{
    lemma_told_last_holds(entries, j, models[i].name@);
}

/// Whatever is told, a model keeps its names and everything that is not told of any model.
pub proof fn law_enriching_keeps_what_is_never_told(
    models: Seq<AvailableModel>,
    entries: Option<Seq<LiteLlmModelInfoEntry>>,
    i: int,
)
    requires
        0 <= i < models.len(),
    ensures
        enriched_models(models, entries).len() == models.len(),
        enriched_models(models, entries)[i].name == models[i].name,
        enriched_models(models, entries)[i].display_name == models[i].display_name,
        enriched_models(models, entries)[i].max_completion_tokens
            == models[i].max_completion_tokens,
        enriched_models(models, entries)[i].capabilities.parallel_tool_calls
            == models[i].capabilities.parallel_tool_calls,
        enriched_models(models, entries)[i].capabilities.chat_completions
            == models[i].capabilities.chat_completions,
        enriched_models(models, entries)[i].capabilities.interleaved_reasoning
            == models[i].capabilities.interleaved_reasoning,
        enriched_models(models, entries)[i].capabilities.max_tokens_parameter
            == models[i].capabilities.max_tokens_parameter,
{
}

/// An answer that could not be read changes no model.
pub proof fn law_unreadable_answer_changes_nothing(models: Seq<AvailableModel>)
    ensures
        enriched_models(models, None) == models,
{
}

/// The context window of a model of a llama.cpp router is the one that the router reports, however
/// large or small. The default stands only where none is reported.
pub proof fn law_reported_context_window_holds(entries: Seq<LlamaCppModelEntry>, i: int)
    requires
        0 <= i < entries.len(),
    ensures
        entries[i].meta is Some && entries[i].meta->0.n_ctx is Some ==> llamacpp_models(
            entries,
        )[i].max_tokens == entries[i].meta->0.n_ctx->0,
        entries[i].meta is None || entries[i].meta->0.n_ctx is None ==> llamacpp_models(
            entries,
        )[i].max_tokens == 128_000,
{
}

/// A model of a llama.cpp router takes images exactly where `image` is one of the input modalities
/// that the router reports of it.
pub proof fn law_reported_images_hold(entries: Seq<LlamaCppModelEntry>, i: int)
    requires
        0 <= i < entries.len(),
    ensures
        llamacpp_models(entries)[i].capabilities.images ==> entries[i].architecture is Some
            && exists|k: int|
            0 <= k < entries[i].architecture->0.input_modalities@.len() && (
            #[trigger] entries[i].architecture->0.input_modalities@[k])@ == "image"@,
        entries[i].architecture is Some && (exists|k: int|
            0 <= k < entries[i].architecture->0.input_modalities@.len() && (
            #[trigger] entries[i].architecture->0.input_modalities@[k])@ == "image"@)
            ==> llamacpp_models(entries)[i].capabilities.images,
{
}

/// `model` was discovered under `name`, and nothing else is known of it than its context window
/// and whether it takes images: it uses tools and chat completions, and has nothing beyond that.
pub open spec fn is_bare(model: AvailableModel, name: String) -> bool {
    &&& model.name == name
    &&& model.display_name is None
    &&& model.max_output_tokens is None
    &&& model.max_completion_tokens is None
    &&& model.reasoning_effort is None
    &&& model.capabilities.tools
    &&& model.capabilities.chat_completions
    &&& !model.capabilities.parallel_tool_calls
    &&& !model.capabilities.prompt_cache_key
    &&& !model.capabilities.interleaved_reasoning
    &&& !model.capabilities.max_tokens_parameter
}

/// A llama.cpp router's list gives one model of each entry, in the order of the entries, under the
/// identifier of the entry, and nothing but its context window and image input is taken from it.
pub proof fn law_llamacpp_list_gives_its_models(response: LlamaCppModelsResponse, i: int)
    requires
        0 <= i < response.data@.len(),
    ensures
        parsed_llamacpp_models(Ok(response)) is Ok,
        parsed_llamacpp_models(Ok(response))->Ok_0.len() == response.data@.len(),
        is_bare(parsed_llamacpp_models(Ok(response))->Ok_0[i], response.data@[i].id),
        parsed_llamacpp_models(Ok(response))->Ok_0[i].max_tokens == llamacpp_models(
            response.data@,
        )[i].max_tokens,
        parsed_llamacpp_models(Ok(response))->Ok_0[i].capabilities.images == llamacpp_models(
            response.data@,
        )[i].capabilities.images,
{
}

/// A list of a llama.cpp router that could not be read gives the reason and no models.
pub proof fn law_unreadable_llamacpp_list_gives_the_reason(reason: String)
    ensures
        parsed_llamacpp_models(Err(reason)) == Err::<Seq<AvailableModel>, FetchError>(
            FetchError::LlamaCppModelsUnreadable(reason),
        ),
{
}

/// A standard list gives one model of each entry, in the order of the entries, under the
/// identifier of the entry, without images and with a context window of 128000 tokens.
pub proof fn law_standard_list_gives_its_models(entries: Seq<ModelEntry>, i: int)
    requires
        0 <= i < entries.len(),
    ensures
        standard_models(entries).len() == entries.len(),
        is_bare(standard_models(entries)[i], entries[i].id),
        standard_models(entries)[i].max_tokens == 128_000,
        !standard_models(entries)[i].capabilities.images,
{
}

} // verus!
