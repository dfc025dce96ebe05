//! Fetching the models of a service: the requests to send, and what is made of the answers.

use vstd::prelude::*;

use crate::discovery::{
    discover_models, enrich_models_lite_llm, enriched_models, llamacpp_models,
    parse_llamacpp_models, parsed_llamacpp_models, standard_models, LiteLlmModelInfoResponse,
    ListModelsResponse, LlamaCppModelsResponse,
};
use crate::models::{in_name_order, law_sorting_is_stable, sort_models, sorted_by_name};
use crate::settings::{AutoDiscoverMode, AvailableModel, CustomHeaders};
use crate::text::{join, strip_suffix_or_all, without_suffix};

verus! {

/// Why the models of a service could not be fetched.
#[derive(Debug, PartialEq, Eq)]
pub enum FetchError {
    /// No request could be built; the reason.
    InvalidRequest(String),
    /// The request could not be sent; the reason.
    NotSent(String),
    /// The answer could not be read; the reason.
    BodyUnreadable(String),
    /// The service refused: its status, and what it answered.
    Refused(String, String),
    /// The answer is no model list; the reason.
    ModelsUnreadable(String),
    /// The answer is no model list of a llama.cpp router; the reason.
    LlamaCppModelsUnreadable(String),
}

impl FetchError {
    /// What the user is told.
    pub open spec fn text(self) -> Seq<char> {
        match self {
            FetchError::InvalidRequest(reason) => reason@,
            FetchError::NotSent(reason) => reason@,
            FetchError::BodyUnreadable(reason) => reason@,
            FetchError::Refused(status, body) => "Failed to fetch models: "@ + status@ + " "@
                + body@,
            FetchError::ModelsUnreadable(_) => "Unable to parse /v1/models response"@,
            FetchError::LlamaCppModelsUnreadable(
                _,
            ) => "Unable to parse llama.cpp models response"@,
        }
    }

    /// What the user is told.
    pub fn message(&self) -> (res: String)
        ensures
            res@ == self.text(),
    {
        match self {
            FetchError::InvalidRequest(reason) => reason.clone(),
            FetchError::NotSent(reason) => reason.clone(),
            FetchError::BodyUnreadable(reason) => reason.clone(),
            FetchError::Refused(status, body) => {
                let refused = join("Failed to fetch models: ", status.as_str());
                let refused = join(refused.as_str(), " ");
                join(refused.as_str(), body.as_str())
            },
            FetchError::ModelsUnreadable(_) => "Unable to parse /v1/models response".to_owned(),
            FetchError::LlamaCppModelsUnreadable(
                _,
            ) => "Unable to parse llama.cpp models response".to_owned(),
        }
    }
}

/// The method of a request.
#[derive(Clone, Copy, Debug, PartialEq, Eq, Structural)]
pub enum HttpMethod {
    Get,
}

/// A request without a body.
#[derive(Debug, PartialEq, Eq)]
pub struct HttpRequest {
    pub method: HttpMethod,
    pub uri: String,
    pub headers: Vec<(String, String)>,
    pub extra_headers: CustomHeaders,
}

/// The content of a request.
#[verifier::ext_equal]
pub struct RequestContent {
    pub method: HttpMethod,
    pub uri: Seq<char>,
    pub headers: Seq<(Seq<char>, Seq<char>)>,
    pub extra_headers: Seq<(Seq<char>, Seq<char>)>,
}

impl View for HttpRequest {
    type V = RequestContent;

    open spec fn view(&self) -> RequestContent {
        RequestContent {
            method: self.method,
            uri: self.uri@,
            headers: self.headers@.map_values(|h: (String, String)| (h.0@, h.1@)),
            extra_headers: self.extra_headers.pairs(),
        }
    }
}

/// The content of an optional string.
pub open spec fn text_of(text: Option<String>) -> Option<Seq<char>> {
    match text {
        Some(text) => Some(text@),
        None => None,
    }
}

/// A request for the JSON document at `uri`, in the name of the owner of `api_key`, where there is
/// one, and with the headers that the user adds.
pub open spec fn json_request(
    uri: Seq<char>,
    api_key: Option<Seq<char>>,
    extra_headers: Seq<(Seq<char>, Seq<char>)>,
) -> RequestContent {
    RequestContent {
        method: HttpMethod::Get,
        uri,
        headers: match api_key {
            None => seq![("Accept"@, "application/json"@)],
            Some(key) => seq![
                ("Accept"@, "application/json"@),
                ("Authorization"@, "Bearer "@ + key),
            ],
        },
        extra_headers,
    }
}

fn make_json_request(uri: String, api_key: &Option<String>, extra_headers: &CustomHeaders) -> (res:
    HttpRequest)
    ensures
        res@ == json_request(uri@, text_of(*api_key), extra_headers.pairs()),
{
    let mut headers: Vec<(String, String)> = Vec::new();
    headers.push(("Accept".to_owned(), "application/json".to_owned()));
    if let Some(key) = api_key {
        headers.push(("Authorization".to_owned(), join("Bearer ", key.as_str())));
    }
    let request = HttpRequest {
        method: HttpMethod::Get,
        uri,
        headers,
        extra_headers: extra_headers.clone(),
    };
    proof {
        assert(request@.headers =~= json_request(
            uri@,
            text_of(*api_key),
            extra_headers.pairs(),
        ).headers);
    }
    request
}

/// Where the model list of a service is. The URL of the service holds the version prefix already.
pub open spec fn models_uri(api_url: Seq<char>) -> Seq<char> {
    api_url + "/models"@
}

/// Where a LiteLLM proxy describes its models: beside the version prefix, not below it.
pub open spec fn model_info_uri(api_url: Seq<char>) -> Seq<char> {
    without_suffix(api_url, "/v1"@) + "/model/info"@
}

/// How far a fetch has come.
#[derive(Debug, PartialEq, Eq)]
pub enum FetchPhase {
    /// The model list is requested.
    RequestingModels,
    /// The answer is to be decoded as a model list.
    DecodingModels(String),
    /// The answer, which is a model list, is to be decoded as one of a llama.cpp router.
    DecodingLlamaCppModels(String),
    /// The models are known and their description is requested.
    RequestingModelInfo(Vec<AvailableModel>),
    /// The models are known and the answer is to be decoded as their description.
    DecodingModelInfo(Vec<AvailableModel>, String),
    /// Nothing is left to do.
    Finished(Result<Vec<AvailableModel>, FetchError>),
}

/// The content of a phase.
#[verifier::ext_equal]
pub enum PhaseContent {
    RequestingModels,
    DecodingModels(String),
    DecodingLlamaCppModels(String),
    RequestingModelInfo(Seq<AvailableModel>),
    DecodingModelInfo(Seq<AvailableModel>, String),
    Finished(Result<Seq<AvailableModel>, FetchError>),
}

impl View for FetchPhase {
    type V = PhaseContent;

    open spec fn view(&self) -> PhaseContent {
        match *self {
            FetchPhase::RequestingModels => PhaseContent::RequestingModels,
            FetchPhase::DecodingModels(body) => PhaseContent::DecodingModels(body),
            FetchPhase::DecodingLlamaCppModels(body) => PhaseContent::DecodingLlamaCppModels(body),
            FetchPhase::RequestingModelInfo(models) => PhaseContent::RequestingModelInfo(models@),
            FetchPhase::DecodingModelInfo(models, body) => PhaseContent::DecodingModelInfo(
                models@,
                body,
            ),
            FetchPhase::Finished(Ok(models)) => PhaseContent::Finished(Ok(models@)),
            FetchPhase::Finished(Err(error)) => PhaseContent::Finished(Err(error)),
        }
    }
}

/// What happened to the request or the decoding that a fetch waits for.
#[derive(Debug, PartialEq, Eq)]
pub enum FetchEvent {
    /// The request could not be built; the reason.
    RequestRejected(String),
    /// The request could not be sent; the reason.
    SendFailed(String),
    /// The answer could not be read; the reason.
    BodyUnreadable(String),
    /// The service answered: the status code, the status as it is shown, and the body.
    Responded(u16, String, String),
    /// The body was decoded as a model list, or could not be; the reason.
    ModelsDecoded(Result<ListModelsResponse, String>),
    /// The body was decoded as a model list of a llama.cpp router, or could not be; the reason.
    LlamaCppModelsDecoded(Result<LlamaCppModelsResponse, String>),
    /// The body was decoded as a description of models, or could not be.
    ModelInfoDecoded(Option<LiteLlmModelInfoResponse>),
}

/// What a fetch waits for.
#[derive(Debug, PartialEq, Eq)]
pub enum FetchAction {
    /// Send a request and read the answer.
    Send(HttpRequest),
    /// Decode a body as a model list.
    DecodeModels(String),
    /// Decode a body as a model list of a llama.cpp router.
    DecodeLlamaCppModels(String),
    /// Decode a body as a description of models.
    DecodeModelInfo(String),
    /// Take the result.
    Finish,
}

/// The content of an action.
#[verifier::ext_equal]
pub enum ActionContent {
    Send(RequestContent),
    DecodeModels(Seq<char>),
    DecodeLlamaCppModels(Seq<char>),
    DecodeModelInfo(Seq<char>),
    Finish,
}

impl View for FetchAction {
    type V = ActionContent;

    open spec fn view(&self) -> ActionContent {
        match *self {
            FetchAction::Send(request) => ActionContent::Send(request@),
            FetchAction::DecodeModels(body) => ActionContent::DecodeModels(body@),
            FetchAction::DecodeLlamaCppModels(body) => ActionContent::DecodeLlamaCppModels(body@),
            FetchAction::DecodeModelInfo(body) => ActionContent::DecodeModelInfo(body@),
            FetchAction::Finish => ActionContent::Finish,
        }
    }
}

/// Whether a status code stands for success.
pub open spec fn is_success(code: u16) -> bool {
    200 <= code < 300
}

/// The phase that follows `phase` when `event` happens, in a fetch of the mode `mode`.
///
/// An event that the phase does not wait for changes nothing. Whatever goes wrong with the model
/// list ends the fetch with an error; what goes wrong with the description of the models ends it
/// with the models as they are, except where not even a request for it can be built.
pub open spec fn next_phase(
    mode: AutoDiscoverMode,
    phase: PhaseContent,
    event: FetchEvent,
) -> PhaseContent {
    match phase {
        PhaseContent::RequestingModels => match event {
            FetchEvent::RequestRejected(reason) => PhaseContent::Finished(
                Err(FetchError::InvalidRequest(reason)),
            ),
            FetchEvent::SendFailed(reason) => PhaseContent::Finished(
                Err(FetchError::NotSent(reason)),
            ),
            FetchEvent::BodyUnreadable(reason) => PhaseContent::Finished(
                Err(FetchError::BodyUnreadable(reason)),
            ),
            FetchEvent::Responded(code, status, body) => if is_success(code) {
                PhaseContent::DecodingModels(body)
            } else {
                PhaseContent::Finished(Err(FetchError::Refused(status, body)))
            },
            _ => phase,
        },
        PhaseContent::DecodingModels(body) => match event {
            FetchEvent::ModelsDecoded(Err(reason)) => PhaseContent::Finished(
                Err(FetchError::ModelsUnreadable(reason)),
            ),
            FetchEvent::ModelsDecoded(Ok(response)) => match mode {
                AutoDiscoverMode::LlamaCpp => PhaseContent::DecodingLlamaCppModels(body),
                AutoDiscoverMode::LiteLlm => PhaseContent::RequestingModelInfo(
                    standard_models(response.data@),
                ),
                AutoDiscoverMode::Standard => PhaseContent::Finished(
                    Ok(sorted_by_name(standard_models(response.data@))),
                ),
            },
            _ => phase,
        },
        PhaseContent::DecodingLlamaCppModels(_) => match event {
            FetchEvent::LlamaCppModelsDecoded(decoded) => PhaseContent::Finished(
                parsed_llamacpp_models(decoded),
            ),
            _ => phase,
        },
        PhaseContent::RequestingModelInfo(models) => match event {
            FetchEvent::RequestRejected(reason) => PhaseContent::Finished(
                Err(FetchError::InvalidRequest(reason)),
            ),
            FetchEvent::SendFailed(_) => PhaseContent::Finished(Ok(sorted_by_name(models))),
            FetchEvent::BodyUnreadable(_) => PhaseContent::Finished(Ok(sorted_by_name(models))),
            FetchEvent::Responded(code, _, body) => if is_success(code) {
                PhaseContent::DecodingModelInfo(models, body)
            } else {
                PhaseContent::Finished(Ok(sorted_by_name(models)))
            },
            _ => phase,
        },
        PhaseContent::DecodingModelInfo(models, _) => match event {
            FetchEvent::ModelInfoDecoded(Some(response)) => PhaseContent::Finished(
                Ok(sorted_by_name(enriched_models(models, Some(response.data@)))),
            ),
            FetchEvent::ModelInfoDecoded(None) => PhaseContent::Finished(
                Ok(sorted_by_name(models)),
            ),
            _ => phase,
        },
        PhaseContent::Finished(_) => phase,
    }
}

/// A fetch of the models of one service.
#[derive(Debug, PartialEq, Eq)]
pub struct FetchModels {
    pub api_url: String,
    pub api_key: Option<String>,
    pub extra_headers: CustomHeaders,
    pub auto_discover_mode: AutoDiscoverMode,
    pub phase: FetchPhase,
}

/// The content of a fetch.
#[verifier::ext_equal]
pub struct FetchContent {
    pub api_url: Seq<char>,
    pub api_key: Option<Seq<char>>,
    pub extra_headers: Seq<(Seq<char>, Seq<char>)>,
    pub auto_discover_mode: AutoDiscoverMode,
    pub phase: PhaseContent,
}

impl View for FetchModels {
    type V = FetchContent;

    open spec fn view(&self) -> FetchContent {
        FetchContent {
            api_url: self.api_url@,
            api_key: text_of(self.api_key),
            extra_headers: self.extra_headers.pairs(),
            auto_discover_mode: self.auto_discover_mode,
            phase: self.phase@,
        }
    }
}

impl FetchContent {
    /// The fetch after `event`.
    pub open spec fn after(self, event: FetchEvent) -> FetchContent {
        FetchContent { phase: next_phase(self.auto_discover_mode, self.phase, event), ..self }
    }

    /// What the fetch waits for.
    pub open spec fn action(self) -> ActionContent {
        match self.phase {
            PhaseContent::RequestingModels => ActionContent::Send(
                json_request(models_uri(self.api_url), self.api_key, self.extra_headers),
            ),
            PhaseContent::DecodingModels(body) => ActionContent::DecodeModels(body@),
            PhaseContent::DecodingLlamaCppModels(body) => ActionContent::DecodeLlamaCppModels(
                body@,
            ),
            PhaseContent::RequestingModelInfo(_) => ActionContent::Send(
                json_request(model_info_uri(self.api_url), self.api_key, self.extra_headers),
            ),
            PhaseContent::DecodingModelInfo(_, body) => ActionContent::DecodeModelInfo(body@),
            PhaseContent::Finished(_) => ActionContent::Finish,
        }
    }

    /// The fetch after `events`, one after the other.
    pub open spec fn after_all(self, events: Seq<FetchEvent>) -> FetchContent
        decreases events.len(),
    {
        if events.len() == 0 {
            self
        } else {
            self.after_all(events.drop_last()).after(events.last())
        }
    }
}

fn finish_sorted(models: Vec<AvailableModel>) -> (res: FetchPhase)
    ensures
        res@ == PhaseContent::Finished(Ok(sorted_by_name(models@))),
{
    let mut models = models;
    sort_models(&mut models);
    FetchPhase::Finished(Ok(models))
}

fn advance(mode: AutoDiscoverMode, phase: FetchPhase, event: FetchEvent) -> (res: FetchPhase)
    ensures
        res@ == next_phase(mode, phase@, event),
{
    match phase {
        FetchPhase::RequestingModels => match event {
            FetchEvent::RequestRejected(reason) => FetchPhase::Finished(
                Err(FetchError::InvalidRequest(reason)),
            ),
            FetchEvent::SendFailed(reason) => FetchPhase::Finished(
                Err(FetchError::NotSent(reason)),
            ),
            FetchEvent::BodyUnreadable(reason) => FetchPhase::Finished(
                Err(FetchError::BodyUnreadable(reason)),
            ),
            FetchEvent::Responded(code, status, body) => if 200 <= code && code < 300 {
                FetchPhase::DecodingModels(body)
            } else {
                FetchPhase::Finished(Err(FetchError::Refused(status, body)))
            },
            _ => FetchPhase::RequestingModels,
        },
        FetchPhase::DecodingModels(body) => match event {
            FetchEvent::ModelsDecoded(Err(reason)) => FetchPhase::Finished(
                Err(FetchError::ModelsUnreadable(reason)),
            ),
            FetchEvent::ModelsDecoded(Ok(response)) => {
                let models = discover_models(&response);
                match mode {
                    AutoDiscoverMode::LlamaCpp => FetchPhase::DecodingLlamaCppModels(body),
                    AutoDiscoverMode::LiteLlm => FetchPhase::RequestingModelInfo(models),
                    AutoDiscoverMode::Standard => finish_sorted(models),
                }
            },
            _ => FetchPhase::DecodingModels(body),
        },
        FetchPhase::DecodingLlamaCppModels(body) => match event {
            FetchEvent::LlamaCppModelsDecoded(decoded) => FetchPhase::Finished(
                parse_llamacpp_models(decoded),
            ),
            _ => FetchPhase::DecodingLlamaCppModels(body),
        },
        FetchPhase::RequestingModelInfo(models) => match event {
            FetchEvent::RequestRejected(reason) => FetchPhase::Finished(
                Err(FetchError::InvalidRequest(reason)),
            ),
            FetchEvent::SendFailed(_) => finish_sorted(models),
            FetchEvent::BodyUnreadable(_) => finish_sorted(models),
            FetchEvent::Responded(code, _, body) => if 200 <= code && code < 300 {
                FetchPhase::DecodingModelInfo(models, body)
            } else {
                finish_sorted(models)
            },
            _ => FetchPhase::RequestingModelInfo(models),
        },
        FetchPhase::DecodingModelInfo(models, body) => match event {
            FetchEvent::ModelInfoDecoded(decoded) => {
                let mut models = models;
                enrich_models_lite_llm(&mut models, decoded.as_ref());
                finish_sorted(models)
            },
            _ => FetchPhase::DecodingModelInfo(models, body),
        },
        FetchPhase::Finished(result) => FetchPhase::Finished(result),
    }
}

impl FetchModels {
    /// A fetch that has not sent anything yet.
    pub fn new(
        api_url: &str,
        api_key: Option<String>,
        extra_headers: &CustomHeaders,
        auto_discover_mode: AutoDiscoverMode,
    ) -> (res: FetchModels)
        ensures
            res@ == (FetchContent {
                api_url: api_url@,
                api_key: text_of(api_key),
                extra_headers: extra_headers.pairs(),
                auto_discover_mode,
                phase: PhaseContent::RequestingModels,
            }),
    {
        FetchModels {
            api_url: api_url.to_owned(),
            api_key,
            extra_headers: extra_headers.clone(),
            auto_discover_mode,
            phase: FetchPhase::RequestingModels,
        }
    }

    /// What the fetch waits for.
    pub fn action(&self) -> (res: FetchAction)
        ensures
            res@ == self@.action(),
    {
        match &self.phase {
            FetchPhase::RequestingModels => FetchAction::Send(
                make_json_request(
                    join(self.api_url.as_str(), "/models"),
                    &self.api_key,
                    &self.extra_headers,
                ),
            ),
            FetchPhase::DecodingModels(body) => FetchAction::DecodeModels(body.clone()),
            FetchPhase::DecodingLlamaCppModels(body) => FetchAction::DecodeLlamaCppModels(
                body.clone(),
            ),
            FetchPhase::RequestingModelInfo(_) => {
                let root_url = strip_suffix_or_all(self.api_url.as_str(), "/v1");
                FetchAction::Send(
                    make_json_request(
                        join(root_url, "/model/info"),
                        &self.api_key,
                        &self.extra_headers,
                    ),
                )
            },
            FetchPhase::DecodingModelInfo(_, body) => FetchAction::DecodeModelInfo(body.clone()),
            FetchPhase::Finished(_) => FetchAction::Finish,
        }
    }

    /// The fetch after `event`.
    pub fn handle(self, event: FetchEvent) -> (res: FetchModels)
        ensures
            res@ == self@.after(event),
    {
        FetchModels {
            api_url: self.api_url,
            api_key: self.api_key,
            extra_headers: self.extra_headers,
            auto_discover_mode: self.auto_discover_mode,
            phase: advance(self.auto_discover_mode, self.phase, event),
        }
    }

    /// What was fetched, once the fetch is finished.
    pub fn into_result(self) -> (res: Option<Result<Vec<AvailableModel>, FetchError>>)
        ensures
            match self@.phase {
                PhaseContent::Finished(Ok(models)) => res matches Some(Ok(found)) && found@
                    == models,
                PhaseContent::Finished(Err(error)) => res == Some(
                    Err::<Vec<AvailableModel>, FetchError>(error),
                ),
                _ => res is None,
            },
    {
        match self.phase {
            FetchPhase::Finished(result) => Some(result),
            _ => None,
        }
    }
}

/// Whether `phase` waits for `event`.
pub open spec fn awaits(phase: PhaseContent, event: FetchEvent) -> bool {
    match phase {
        PhaseContent::RequestingModels | PhaseContent::RequestingModelInfo(_) => event
            is RequestRejected || event is SendFailed || event is BodyUnreadable || event
            is Responded,
        PhaseContent::DecodingModels(_) => event is ModelsDecoded,
        PhaseContent::DecodingLlamaCppModels(_) => event is LlamaCppModelsDecoded,
        PhaseContent::DecodingModelInfo(_, _) => event is ModelInfoDecoded,
        PhaseContent::Finished(_) => false,
    }
}

/// How many events a fetch waits for at most.
pub open spec fn steps_left(phase: PhaseContent) -> nat {
    match phase {
        PhaseContent::RequestingModels => 4,
        PhaseContent::DecodingModels(_) => 3,
        PhaseContent::RequestingModelInfo(_) => 2,
        PhaseContent::DecodingLlamaCppModels(_) => 1,
        PhaseContent::DecodingModelInfo(_, _) => 1,
        PhaseContent::Finished(_) => 0,
    }
}

/// Every event that a fetch waits for brings it nearer to its end, and no other event has an
/// effect. A fetch is over after four of them at most.
pub proof fn law_fetch_progresses(mode: AutoDiscoverMode, phase: PhaseContent, event: FetchEvent)
    ensures
        awaits(phase, event) ==> steps_left(next_phase(mode, phase, event)) < steps_left(phase),
        !awaits(phase, event) ==> next_phase(mode, phase, event) == phase,
{
}

/// A fetch in the standard mode gives the listed models with their defaults, ordered by name.
pub proof fn law_standard_fetch(
    fetch: FetchContent,
    code: u16,
    status: String,
    body: String,
    list: ListModelsResponse,
)
    requires
        fetch.phase is RequestingModels,
        fetch.auto_discover_mode == AutoDiscoverMode::Standard,
        is_success(code),
    ensures
        fetch.after(FetchEvent::Responded(code, status, body)).action()
            == ActionContent::DecodeModels(body@),
        fetch.after(FetchEvent::Responded(code, status, body)).after(
            FetchEvent::ModelsDecoded(Ok(list)),
        ).phase == PhaseContent::Finished(Ok(sorted_by_name(standard_models(list.data@)))),
{
}

/// A fetch in the llama.cpp mode decodes one answer twice, as a model list and as one of a
/// llama.cpp router. Where the first is possible, the fetch gives what the second gives, models or
/// failure, whatever the first gave: the models as the router describes and orders them.
pub proof fn law_llamacpp_fetch(
    fetch: FetchContent,
    code: u16,
    status: String,
    body: String,
    list: ListModelsResponse,
    decoded: Result<LlamaCppModelsResponse, String>,
)
    requires
        fetch.phase is RequestingModels,
        fetch.auto_discover_mode == AutoDiscoverMode::LlamaCpp,
        is_success(code),
    ensures
        ({
            let listed = fetch.after(FetchEvent::Responded(code, status, body)).after(
                FetchEvent::ModelsDecoded(Ok(list)),
            );
            &&& listed.action() == ActionContent::DecodeLlamaCppModels(body@)
            &&& listed.after(FetchEvent::LlamaCppModelsDecoded(decoded)).phase
                == PhaseContent::Finished(parsed_llamacpp_models(decoded))
            &&& decoded matches Ok(described) ==> parsed_llamacpp_models(decoded) == Ok::<
                Seq<AvailableModel>,
                FetchError,
            >(llamacpp_models(described.data@))
            &&& decoded is Err ==> parsed_llamacpp_models(decoded) is Err
        }),
{
}

/// An answer that is no model list ends the fetch, in every mode.
pub proof fn law_unreadable_list_is_reported(
    fetch: FetchContent,
    code: u16,
    status: String,
    body: String,
    reason: String,
)
    requires
        fetch.phase is RequestingModels,
        is_success(code),
    ensures
        fetch.after(FetchEvent::Responded(code, status, body)).after(
            FetchEvent::ModelsDecoded(Err(reason)),
        ).phase == PhaseContent::Finished(Err(FetchError::ModelsUnreadable(reason))),
{
}

/// A fetch in the LiteLLM mode asks for a description of the listed models, and gives them with
/// what it tells, ordered by name.
pub proof fn law_lite_llm_fetch(
    fetch: FetchContent,
    code: u16,
    status: String,
    body: String,
    list: ListModelsResponse,
    info_code: u16,
    info_status: String,
    info_body: String,
    info: LiteLlmModelInfoResponse,
)
    requires
        fetch.phase is RequestingModels,
        fetch.auto_discover_mode == AutoDiscoverMode::LiteLlm,
        is_success(code),
        is_success(info_code),
    ensures
        ({
            let listed = fetch.after(FetchEvent::Responded(code, status, body)).after(
                FetchEvent::ModelsDecoded(Ok(list)),
            );
            let described = listed.after(
                FetchEvent::Responded(info_code, info_status, info_body),
            );
            &&& listed.action() == ActionContent::Send(
                json_request(model_info_uri(fetch.api_url), fetch.api_key, fetch.extra_headers),
            )
            &&& described.action() == ActionContent::DecodeModelInfo(info_body@)
            &&& described.after(FetchEvent::ModelInfoDecoded(Some(info))).phase
                == PhaseContent::Finished(
                Ok(sorted_by_name(enriched_models(standard_models(list.data@), Some(info.data@)))),
            )
        }),
{
}

/// The fetch of the same service in the standard mode.
pub open spec fn in_standard_mode(fetch: FetchContent) -> FetchContent {
    FetchContent { auto_discover_mode: AutoDiscoverMode::Standard, ..fetch }
}

/// Where the description of the models is not to be had (the request cannot be sent, it is
/// refused, or its answer cannot be read), the fetch gives what it gives in the standard mode.
pub proof fn law_missing_description_is_no_failure(
    fetch: FetchContent,
    list: ListModelsResponse,
    event: FetchEvent,
)
    requires
        fetch.phase is DecodingModels,
        fetch.auto_discover_mode == AutoDiscoverMode::LiteLlm,
        event is SendFailed || event is BodyUnreadable || (event is Responded && !is_success(
            event->Responded_0,
        )),
    ensures
        fetch.after(FetchEvent::ModelsDecoded(Ok(list))).after(event).phase == in_standard_mode(
            fetch,
        ).after(FetchEvent::ModelsDecoded(Ok(list))).phase,
{
}

/// Where the description of the models cannot be decoded, the fetch gives what it gives in the
/// standard mode.
pub proof fn law_unreadable_description_is_no_failure(
    fetch: FetchContent,
    list: ListModelsResponse,
    code: u16,
    status: String,
    body: String,
)
    requires
        fetch.phase is DecodingModels,
        fetch.auto_discover_mode == AutoDiscoverMode::LiteLlm,
        is_success(code),
    ensures
        fetch.after(FetchEvent::ModelsDecoded(Ok(list))).after(
            FetchEvent::Responded(code, status, body),
        ).after(FetchEvent::ModelInfoDecoded(None)).phase == in_standard_mode(fetch).after(
            FetchEvent::ModelsDecoded(Ok(list)),
        ).phase,
{
}

/// A service that refuses to list its models ends the fetch with its status and its answer.
pub proof fn law_refusal_is_reported(
    fetch: FetchContent,
    code: u16,
    status: String,
    body: String,
)
    requires
        fetch.phase is RequestingModels,
        !is_success(code),
    ensures
        fetch.after(FetchEvent::Responded(code, status, body)).phase == PhaseContent::Finished(
            Err(FetchError::Refused(status, body)),
        ),
        FetchError::Refused(status, body).text() == "Failed to fetch models: "@ + status@ + " "@
            + body@,
{
}

/// Whatever happens, a fetch keeps its service, its key, its headers and its mode.
pub proof fn law_fetch_keeps_its_service(fetch: FetchContent, events: Seq<FetchEvent>)
    ensures
        fetch.after_all(events) == (FetchContent {
            phase: fetch.after_all(events).phase,
            ..fetch
        }),
    decreases events.len(),
{
    if events.len() > 0 {
        law_fetch_keeps_its_service(fetch, events.drop_last());
    }
}

/// Whatever happens, models that a fetch gives are ordered by name, unless a llama.cpp router
/// ordered them.
pub proof fn law_fetched_models_are_ordered(fetch: FetchContent, events: Seq<FetchEvent>)
    requires
        fetch.phase is RequestingModels,
        fetch.auto_discover_mode != AutoDiscoverMode::LlamaCpp,
    ensures
        fetch.after_all(events).phase !is DecodingLlamaCppModels,
        fetch.after_all(events).phase matches PhaseContent::Finished(Ok(models)) ==> in_name_order(
            models,
        ),
    decreases events.len(),
{
    if events.len() > 0 {
        let before = fetch.after_all(events.drop_last());
        law_fetched_models_are_ordered(fetch, events.drop_last());
        law_fetch_keeps_its_service(fetch, events.drop_last());
        match before.phase {
            PhaseContent::DecodingModels(_) => {
                if let FetchEvent::ModelsDecoded(Ok(list)) = events.last() {
                    law_sorting_is_stable(standard_models(list.data@));
                }
            },
            PhaseContent::RequestingModelInfo(models) => {
                law_sorting_is_stable(models);
            },
            PhaseContent::DecodingModelInfo(models, _) => {
                law_sorting_is_stable(models);
                if let FetchEvent::ModelInfoDecoded(Some(info)) = events.last() {
                    law_sorting_is_stable(enriched_models(models, Some(info.data@)));
                }
            },
            _ => {},
        }
    }
}

/// Whatever happens, a second request is sent in the LiteLLM mode only.
pub proof fn law_one_request_unless_lite_llm(fetch: FetchContent, events: Seq<FetchEvent>)
    requires
        fetch.phase is RequestingModels,
        fetch.auto_discover_mode != AutoDiscoverMode::LiteLlm,
    ensures
        fetch.after_all(events).action() is Send ==> fetch.after_all(events).action()
            == fetch.action(),
        fetch.after_all(events).phase !is RequestingModelInfo,
    decreases events.len(),
{
    law_fetch_keeps_its_service(fetch, events);
    if events.len() > 0 {
        law_one_request_unless_lite_llm(fetch, events.drop_last());
        law_fetch_keeps_its_service(fetch, events.drop_last());
    }
}

/// The description of the models lies beside the version prefix of the URL of the service.
pub proof fn law_model_info_lies_beside_the_version_prefix(root: Seq<char>)
    ensures
        model_info_uri(root + "/v1"@) == root + "/model/info"@,
{
    let url = root + "/v1"@;
    assert("/v1"@.is_suffix_of(url)) by {
        assert("/v1"@ =~= url.subrange(url.len() - "/v1"@.len(), url.len() as int));
    }
    assert(url.take(url.len() - "/v1"@.len()) =~= root);
}

/// The statuses of success are those from 200 to 299.
pub proof fn law_success_codes(code: u16)
    ensures
        is_success(code) <==> code >= 200 && code <= 299,
{
}

/// `request` asks for a JSON document: in the name of the owner of the key of `fetch`, where there
/// is one, and with the headers that the user adds.
pub open spec fn asks_for_json(request: RequestContent, fetch: FetchContent) -> bool {
    &&& request.method == HttpMethod::Get
    &&& request.extra_headers == fetch.extra_headers
    &&& request.headers.len() == (if fetch.api_key is Some {
        2int
    } else {
        1int
    })
    &&& request.headers[0] == ("Accept"@, "application/json"@)
    &&& fetch.api_key is Some ==> request.headers[1] == (
        "Authorization"@,
        "Bearer "@ + fetch.api_key->0,
    )
}

/// A fetch asks for the model list first, directly below the URL of the service, with the key and
/// the headers of the user.
pub proof fn law_model_list_is_requested(fetch: FetchContent)
    requires
        fetch.phase is RequestingModels,
    ensures
        fetch.action() is Send,
        fetch.action()->Send_0.uri == fetch.api_url + "/models"@,
        asks_for_json(fetch.action()->Send_0, fetch),
{
}

/// The description of the models is asked for beside the version prefix, where the URL of the
/// service ends with one, and else below that URL, with the key and the headers of the user.
pub proof fn law_description_is_requested(fetch: FetchContent, root: Seq<char>)
    requires
        fetch.phase is RequestingModelInfo,
    ensures
        fetch.action() is Send,
        fetch.api_url == root + "/v1"@ ==> fetch.action()->Send_0.uri == root + "/model/info"@,
        !("/v1"@.is_suffix_of(fetch.api_url)) ==> fetch.action()->Send_0.uri == fetch.api_url
            + "/model/info"@,
        asks_for_json(fetch.action()->Send_0, fetch),
{
    law_model_info_lies_beside_the_version_prefix(root);
}

/// What is decoded is the body of the answer, and a fetch has nothing more to do exactly where it
/// is finished.
pub proof fn law_answers_are_decoded(fetch: FetchContent)
    ensures
        fetch.phase matches PhaseContent::DecodingModels(body) ==> fetch.action()
            == ActionContent::DecodeModels(body@),
        fetch.phase matches PhaseContent::DecodingLlamaCppModels(body) ==> fetch.action()
            == ActionContent::DecodeLlamaCppModels(body@),
        fetch.phase matches PhaseContent::DecodingModelInfo(_, body) ==> fetch.action()
            == ActionContent::DecodeModelInfo(body@),
        fetch.action() is Finish <==> fetch.phase is Finished,
{
}

/// Where the model list cannot be asked for, or its answer cannot be read, the fetch ends with the
/// reason, in every mode.
pub proof fn law_failed_request_is_reported(fetch: FetchContent, reason: String)
    requires
        fetch.phase is RequestingModels,
    ensures
        fetch.after(FetchEvent::RequestRejected(reason)).phase == PhaseContent::Finished(
            Err(FetchError::InvalidRequest(reason)),
        ),
        fetch.after(FetchEvent::SendFailed(reason)).phase == PhaseContent::Finished(
            Err(FetchError::NotSent(reason)),
        ),
        fetch.after(FetchEvent::BodyUnreadable(reason)).phase == PhaseContent::Finished(
            Err(FetchError::BodyUnreadable(reason)),
        ),
{
}

/// Where not even a request for the description of the models can be built, the fetch ends with
/// the reason.
pub proof fn law_unbuildable_description_request_is_reported(fetch: FetchContent, reason: String)
    requires
        fetch.phase is RequestingModelInfo,
    ensures
        fetch.after(FetchEvent::RequestRejected(reason)).phase == PhaseContent::Finished(
            Err(FetchError::InvalidRequest(reason)),
        ),
{
}

/// A fetch that is finished stays as it is, whatever happens.
pub proof fn law_finished_fetch_stays(fetch: FetchContent, event: FetchEvent)
    requires
        fetch.phase is Finished,
    ensures
        fetch.after(event) == fetch,
{
}

/// What the user is told of a failure is its reason, where no answer was had, and what could not
/// be read, where one was.
pub proof fn law_failures_are_told(reason: String)
    ensures
        FetchError::InvalidRequest(reason).text() == reason@,
        FetchError::NotSent(reason).text() == reason@,
        FetchError::BodyUnreadable(reason).text() == reason@,
        FetchError::ModelsUnreadable(reason).text() == "Unable to parse /v1/models response"@,
        FetchError::LlamaCppModelsUnreadable(reason).text()
            == "Unable to parse llama.cpp models response"@,
{
}

/// The content of a request is what each of its parts holds.
pub proof fn law_request_content(request: HttpRequest, i: int)
    requires
        0 <= i < request.headers@.len(),
    ensures
        request@.method == request.method,
        request@.uri == request.uri@,
        request@.extra_headers == request.extra_headers.pairs(),
        request@.headers.len() == request.headers@.len(),
        request@.headers[i].0 == request.headers@[i].0@,
        request@.headers[i].1 == request.headers@[i].1@,
{
}

/// The content of a fetch is what each of its parts holds. Every key is kept, even an empty one.
pub proof fn law_fetch_content(fetch: FetchModels)
    ensures
        fetch@.api_url == fetch.api_url@,
        fetch.api_key matches Some(key) ==> fetch@.api_key == Some(key@),
        fetch.api_key is None ==> fetch@.api_key is None,
        fetch@.extra_headers == fetch.extra_headers.pairs(),
        fetch@.auto_discover_mode == fetch.auto_discover_mode,
        fetch.phase is Finished <==> fetch@.phase is Finished,
{
}

/// The content of an optional string is that of the string, where there is one.
pub proof fn law_optional_text(text: String)
    ensures
        text_of(Some(text)) == Some(text@),
        text_of(None) is None,
{
}

} // verus!
