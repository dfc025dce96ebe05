//! The discovered models that a provider holds, and the fetch that brings them.

use vstd::prelude::*;

use crate::fetch::{text_of, FetchContent, FetchError, FetchModels, PhaseContent};
use crate::settings::{
    AutoDiscoverMode, AvailableModel, CustomHeaders, OpenAiCompatibleSettings, SettingsContent,
};
use crate::state::State;

verus! {

/// A fetch that is to run: what it fetches, and the ticket under which its result is handed in.
#[derive(Debug, PartialEq, Eq)]
pub struct FetchTask {
    pub ticket: u64,
    pub api_url: String,
    pub extra_headers: CustomHeaders,
    pub auto_discover_mode: AutoDiscoverMode,
}

/// The content of a fetch that is to run.
#[verifier::ext_equal]
pub struct TaskContent {
    pub ticket: u64,
    pub api_url: Seq<char>,
    pub extra_headers: Seq<(Seq<char>, Seq<char>)>,
    pub auto_discover_mode: AutoDiscoverMode,
}

impl View for FetchTask {
    type V = TaskContent;

    open spec fn view(&self) -> TaskContent {
        TaskContent {
            ticket: self.ticket,
            api_url: self.api_url@,
            extra_headers: self.extra_headers.pairs(),
            auto_discover_mode: self.auto_discover_mode,
        }
    }
}

impl FetchTask {
    /// The fetch itself, in the name of the owner of `api_key`, where there is one.
    pub fn start(&self, api_key: Option<String>) -> (res: FetchModels)
        ensures
            res@ == (FetchContent {
                api_url: self@.api_url,
                api_key: text_of(api_key),
                extra_headers: self@.extra_headers,
                auto_discover_mode: self@.auto_discover_mode,
                phase: PhaseContent::RequestingModels,
            }),
    {
        FetchModels::new(
            self.api_url.as_str(),
            api_key,
            &self.extra_headers,
            self.auto_discover_mode,
        )
    }
}

impl Clone for FetchTask {
    fn clone(&self) -> (res: FetchTask)
        ensures
            res@ == self@,
    {
        FetchTask {
            ticket: self.ticket,
            api_url: self.api_url.clone(),
            extra_headers: self.extra_headers.clone(),
            auto_discover_mode: self.auto_discover_mode,
        }
    }
}

/// The models that were discovered, and the fetch that was started last, unless it was called off.
#[derive(Debug, PartialEq, Eq)]
pub struct FetchState {
    fetched_models: Vec<AvailableModel>,
    fetch_model_task: Option<FetchTask>,
    last_ticket: u64,
}

/// The content of a fetch state.
#[verifier::ext_equal]
pub struct FetchStateContent {
    pub fetched_models: Seq<AvailableModel>,
    pub fetch_model_task: Option<TaskContent>,
    pub last_ticket: u64,
}

impl View for FetchState {
    type V = FetchStateContent;

    closed spec fn view(&self) -> FetchStateContent {
        FetchStateContent {
            fetched_models: self.fetched_models@,
            fetch_model_task: match self.fetch_model_task {
                Some(task) => Some(task@),
                None => None,
            },
            last_ticket: self.last_ticket,
        }
    }
}

/// The ticket after `ticket`. After the last one they start again.
pub open spec fn next_ticket(ticket: u64) -> u64 {
    if ticket == u64::MAX {
        0
    } else {
        (ticket + 1) as u64
    }
}

impl FetchStateContent {
    /// The state of a provider that has discovered nothing yet.
    pub open spec fn initial() -> FetchStateContent {
        FetchStateContent {
            fetched_models: Seq::empty(),
            fetch_model_task: None,
            last_ticket: 0,
        }
    }

    /// The state after discovery was started anew: the fetch of before is called off. Where
    /// `settings` ask for discovery, another one is to run, and the models that were discovered
    /// stay until it brings others; where they do not, the models are forgotten.
    pub open spec fn refreshed(self, settings: SettingsContent) -> FetchStateContent {
        let ticket = next_ticket(self.last_ticket);
        FetchStateContent {
            fetched_models: if settings.auto_discover {
                self.fetched_models
            } else {
                Seq::empty()
            },
            fetch_model_task: if settings.auto_discover {
                Some(
                    TaskContent {
                        ticket,
                        api_url: settings.api_url,
                        extra_headers: settings.custom_headers,
                        auto_discover_mode: settings.auto_discover_mode,
                    },
                )
            } else {
                None
            },
            last_ticket: ticket,
        }
    }

    /// Whether the fetch with `ticket` is the one that was started last and was not called off.
    pub open spec fn runs(self, ticket: u64) -> bool {
        self.fetch_model_task is Some && self.fetch_model_task->0.ticket == ticket
    }

    /// The state after the fetch with `ticket` gave `models`, or failed, where there are none.
    pub open spec fn fetched(
        self,
        ticket: u64,
        models: Option<Seq<AvailableModel>>,
    ) -> FetchStateContent {
        if models is Some && self.runs(ticket) {
            FetchStateContent { fetched_models: models->0, ..self }
        } else {
            self
        }
    }

    /// The state after discovery was started anew with each of `settings` in turn.
    pub open spec fn refreshed_all(self, settings: Seq<SettingsContent>) -> FetchStateContent
        decreases settings.len(),
    {
        if settings.len() == 0 {
            self
        } else {
            self.refreshed_all(settings.drop_last()).refreshed(settings.last())
        }
    }
}

impl Default for FetchState {
    fn default() -> (res: FetchState)
        ensures
            res@ == FetchStateContent::initial(),
    {
        FetchState { fetched_models: Vec::new(), fetch_model_task: None, last_ticket: 0 }
    }
}

impl FetchState {
    /// Whether any model was discovered.
    pub fn has_models(&self) -> (res: bool)
        ensures
            res == (self@.fetched_models.len() > 0),
    {
        self.fetched_models.len() > 0
    }

    /// The models that were discovered.
    pub fn fetched_models(&self) -> (res: &Vec<AvailableModel>)
        ensures
            res@ == self@.fetched_models,
    {
        &self.fetched_models
    }

    /// The fetch that is to run, if there is one.
    pub fn fetch_model_task(&self) -> (res: Option<FetchTask>)
        ensures
            match res {
                Some(task) => self@.fetch_model_task == Some(task@),
                None => self@.fetch_model_task is None,
            },
    {
        match &self.fetch_model_task {
            Some(task) => Some(task.clone()),
            None => None,
        }
    }

    /// Starts discovery anew, as `settings` say. Models that were discovered stay until others
    /// replace them, unless `settings` do not ask for discovery any more.
    pub fn refresh_fetch(&mut self, settings: &OpenAiCompatibleSettings)
        ensures
            final(self)@ == old(self)@.refreshed(settings@),
    {
        self.last_ticket = if self.last_ticket == u64::MAX {
            0
        } else {
            self.last_ticket + 1
        };
        self.fetch_model_task = None;
        if !settings.auto_discover {
            self.fetched_models.clear();
            return ;
        }
        self.fetch_model_task = Some(
            FetchTask {
                ticket: self.last_ticket,
                api_url: settings.api_url.clone(),
                extra_headers: settings.custom_headers.clone(),
                auto_discover_mode: settings.auto_discover_mode,
            },
        );
    }

    /// Starts discovery anew, as the settings of `state` say.
    pub fn refresh(&mut self, state: &State)
        ensures
            final(self)@ == old(self)@.refreshed(state.settings@),
    {
        self.refresh_fetch(&state.settings);
    }

    /// Takes the result of the fetch with `ticket`. Models replace those that were discovered
    /// before; an error leaves them. The result of a fetch that was called off has no effect.
    /// Returns whether the state was written to.
    pub fn finish_fetch(
        &mut self,
        ticket: u64,
        result: Result<Vec<AvailableModel>, FetchError>,
    ) -> (res: bool)
        ensures
            final(self)@ == old(self)@.fetched(
                ticket,
                match result {
                    Ok(models) => Some(models@),
                    Err(_) => None,
                },
            ),
            res == (result is Ok && old(self)@.runs(ticket)),
    {
        let runs: bool = match &self.fetch_model_task {
            Some(task) => task.ticket == ticket,
            None => false,
        };
        if !runs {
            return false;
        }
        match result {
            Ok(models) => {
                self.fetched_models = models;
                true
            },
            Err(_) => false,
        }
    }
}

/// Where the settings do not ask for discovery, everything that was discovered is forgotten. A
/// fetch is to run exactly where they do.
pub proof fn law_refresh_forgets(state: FetchStateContent, settings: SettingsContent)
    ensures
        !settings.auto_discover ==> state.refreshed(settings).fetched_models.len() == 0,
        state.refreshed(settings).fetch_model_task is Some <==> settings.auto_discover,
{
}

/// Where discovery is started anew and the fetch fails, the models that were discovered before are
/// still there.
pub proof fn law_failure_keeps_models(
    state: FetchStateContent,
    settings: SettingsContent,
    ticket: u64,
)
    requires
        settings.auto_discover,
    ensures
        state.refreshed(settings).fetched(ticket, None).fetched_models == state.fetched_models,
{
}

/// A fetch that is not called off brings its models.
pub proof fn law_fetched_models_are_held(
    state: FetchStateContent,
    settings: SettingsContent,
    models: Seq<AvailableModel>,
)
    requires
        settings.auto_discover,
    ensures
        ({
            let running = state.refreshed(settings);
            running.fetched(running.fetch_model_task->0.ticket, Some(models)).fetched_models
                == models
        }),
{
}

/// The result of a fetch has no effect after discovery was started anew, however often, short of
/// as many times as there are tickets.
pub proof fn law_called_off_fetch_has_no_effect(
    state: FetchStateContent,
    first: SettingsContent,
    later: Seq<SettingsContent>,
    models: Option<Seq<AvailableModel>>,
)
    requires
        0 < later.len() <= u64::MAX,
    ensures
        ({
            let ticket = state.refreshed(first).last_ticket;
            let now = state.refreshed(first).refreshed_all(later);
            now.fetched(ticket, models) == now
        }),
{
    lemma_ticket_after(state.refreshed(first), later);
}

proof fn lemma_ticket_after(state: FetchStateContent, later: Seq<SettingsContent>)
    requires
        later.len() <= u64::MAX,
    ensures
        ({
            let now = state.refreshed_all(later);
            &&& now.last_ticket == (if state.last_ticket + later.len() <= u64::MAX {
                state.last_ticket + later.len()
            } else {
                state.last_ticket + later.len() - u64::MAX - 1
            })
            &&& later.len() > 0 && now.fetch_model_task is Some
                ==> now.fetch_model_task->0.ticket == now.last_ticket
        }),
    decreases later.len(),
{
    if later.len() > 0 {
        lemma_ticket_after(state, later.drop_last());
    }
}

/// Where the settings ask for discovery, the fetch that is to run afterwards has their URL, their
/// headers and their mode, and a ticket that no fetch of just before had.
pub proof fn law_fetch_follows_the_settings(state: FetchStateContent, settings: SettingsContent)
    requires
        settings.auto_discover,
    ensures
        state.refreshed(settings).fetch_model_task is Some,
        state.refreshed(settings).fetch_model_task->0.api_url == settings.api_url,
        state.refreshed(settings).fetch_model_task->0.extra_headers == settings.custom_headers,
        state.refreshed(settings).fetch_model_task->0.auto_discover_mode
            == settings.auto_discover_mode,
        state.refreshed(settings).fetch_model_task->0.ticket == state.refreshed(
            settings,
        ).last_ticket,
        state.refreshed(settings).last_ticket != state.last_ticket,
{
}

/// Starting discovery anew leaves the discovered models where it is asked for, and leaves none
/// where it is not.
pub proof fn law_refresh_keeps_models_with_discovery_only(
    state: FetchStateContent,
    settings: SettingsContent,
)
    ensures
        settings.auto_discover ==> state.refreshed(settings).fetched_models
            == state.fetched_models,
        !settings.auto_discover ==> state.refreshed(settings).fetched_models == Seq::<
            AvailableModel,
        >::empty(),
        !settings.auto_discover ==> state.refreshed(settings).fetch_model_task is None,
{
}

/// Models are taken from the fetch that runs and from no other: they replace those of before, and
/// nothing else changes.
pub proof fn law_only_the_running_fetch_brings_models(
    state: FetchStateContent,
    ticket: u64,
    models: Seq<AvailableModel>,
)
    ensures
        state.runs(ticket) <==> state.fetch_model_task is Some
            && state.fetch_model_task->0.ticket == ticket,
        state.fetch_model_task is Some && state.fetch_model_task->0.ticket == ticket
            ==> state.fetched(ticket, Some(models)).fetched_models == models,
        state.fetch_model_task is None || state.fetch_model_task->0.ticket != ticket
            ==> state.fetched(ticket, Some(models)).fetched_models == state.fetched_models,
        state.fetched(ticket, Some(models)).fetch_model_task == state.fetch_model_task,
        state.fetched(ticket, Some(models)).last_ticket == state.last_ticket,
        state.fetched(ticket, None) == state,
{
}

/// A provider starts without discovered models and without a fetch.
pub proof fn law_nothing_is_discovered_at_first()
    ensures
        FetchStateContent::initial().fetched_models.len() == 0,
        FetchStateContent::initial().fetch_model_task is None,
{
}

/// The content of a fetch that is to run is what each of its parts holds.
pub proof fn law_task_content(task: FetchTask)
    ensures
        task@.ticket == task.ticket,
        task@.api_url == task.api_url@,
        task@.extra_headers == task.extra_headers.pairs(),
        task@.auto_discover_mode == task.auto_discover_mode,
{
}

} // verus!
