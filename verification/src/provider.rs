//! A provider: the models it offers, and when it can be used.

use vstd::prelude::*;

use crate::fetch_state::{FetchState, FetchStateContent};
use crate::model::{OpenAiCompatibleLanguageModel, MAX_CONCURRENT_REQUESTS};
use crate::models::{
    is_merged, last_of_its_name, law_every_name_is_offered, law_last_discovered_model_is_offered,
    law_last_written_model_is_offered, law_merge_is_unique, law_nothing_else_is_offered,
    law_offered_names_ascend, merge_models,
};
use crate::settings::AvailableModel;
use crate::state::State;
use crate::text::text_before;

verus! {

/// A provider of the models of one service.
#[derive(Debug, PartialEq, Eq)]
pub struct OpenAiCompatibleLanguageModelProvider {
    pub id: String,
    pub name: String,
    pub state: State,
    pub fetch_state: FetchState,
}

impl OpenAiCompatibleLanguageModelProvider {
    /// The provider called `id`, which starts to discover models where its settings ask for it.
    pub fn new(id: &str, state: State) -> (res: OpenAiCompatibleLanguageModelProvider)
        ensures
            res.id@ == id@,
            res.name@ == id@,
            res.state == state,
            res.fetch_state@ == FetchStateContent::initial().refreshed(state.settings@),
    {
        let mut fetch_state = FetchState::default();
        fetch_state.refresh_fetch(&state.settings);
        OpenAiCompatibleLanguageModelProvider {
            id: id.to_owned(),
            name: id.to_owned(),
            state,
            fetch_state,
        }
    }

    /// Takes over what changed of the settings or of the key, and starts discovery anew.
    pub fn state_changed(&mut self, state: State)
        ensures
            final(self).id == old(self).id,
            final(self).name == old(self).name,
            final(self).state == state,
            final(self).fetch_state@ == old(self).fetch_state@.refreshed(state.settings@),
    {
        self.fetch_state.refresh_fetch(&state.settings);
        self.state = state;
    }

    /// The identifier of the provider.
    pub fn id(&self) -> (res: String)
        ensures
            res == self.id,
    {
        self.id.clone()
    }

    /// The name of the provider.
    pub fn name(&self) -> (res: String)
        ensures
            res == self.name,
    {
        self.name.clone()
    }

    /// `model` as a model of this provider.
    pub open spec fn language_model(self, model: AvailableModel) -> OpenAiCompatibleLanguageModel {
        OpenAiCompatibleLanguageModel {
            id: model.name,
            provider_id: self.id,
            provider_name: self.name,
            model,
            request_limit: MAX_CONCURRENT_REQUESTS,
        }
    }

    /// `model` as a model of this provider.
    pub fn create_language_model(&self, model: AvailableModel) -> (res:
        OpenAiCompatibleLanguageModel)
        ensures
            res == self.language_model(model),
    {
        OpenAiCompatibleLanguageModel {
            id: model.name.clone(),
            provider_id: self.id.clone(),
            provider_name: self.name.clone(),
            model,
            request_limit: MAX_CONCURRENT_REQUESTS,
        }
    }

    /// `merged` are the models that the provider offers: those it discovered, and in place of
    /// them those of the same name that the user wrote.
    pub open spec fn offers(self, merged: Seq<AvailableModel>) -> bool {
        is_merged(
            self.fetch_state@.fetched_models,
            self.state.settings.available_models@,
            merged,
        )
    }

    /// The models that the provider offers.
    pub fn merged_models(&self) -> (res: Vec<AvailableModel>)
        ensures
            self.offers(res@),
    {
        merge_models(self.fetch_state.fetched_models(), &self.state.settings.available_models)
    }

    /// `model` is the one to use where the user chose none: the first one that is offered.
    pub open spec fn has_default(self, model: Option<OpenAiCompatibleLanguageModel>) -> bool {
        exists|merged: Seq<AvailableModel>| #[trigger]
            self.offers(merged) && model == (if merged.len() == 0 {
                None
            } else {
                Some(self.language_model(merged[0]))
            })
    }

    /// `models` are those that are offered, in the same order, as models of this provider.
    pub open spec fn provides(self, models: Seq<OpenAiCompatibleLanguageModel>) -> bool {
        exists|merged: Seq<AvailableModel>| #[trigger]
            self.offers(merged) && models == merged.map_values(
                |model: AvailableModel| self.language_model(model),
            )
    }

    /// The model to use where the user chose none.
    pub fn default_model(&self) -> (res: Option<OpenAiCompatibleLanguageModel>)
        ensures
            self.has_default(res),
    {
        let merged = self.merged_models();
        if merged.len() == 0 {
            None
        } else {
            Some(self.create_language_model(merged[0].clone()))
        }
    }

    /// No model is preferred where speed matters.
    pub fn default_fast_model(&self) -> (res: Option<OpenAiCompatibleLanguageModel>)
        ensures
            res is None,
    {
        None
    }

    /// The models to choose from.
    pub fn provided_models(&self) -> (res: Vec<OpenAiCompatibleLanguageModel>)
        ensures
            self.provides(res@),
    {
        let merged = self.merged_models();
        let mut models: Vec<OpenAiCompatibleLanguageModel> = Vec::new();
        let mut i: usize = 0;
        while i < merged.len()
            invariant
                i <= merged@.len(),
                models@.len() == i,
                forall|j: int|
                    0 <= j < i ==> #[trigger] models@[j] == self.language_model(merged@[j]),
            decreases merged@.len() - i,
        {
            models.push(self.create_language_model(merged[i].clone()));
            i = i + 1;
        }
        proof {
            assert(models@ =~= merged@.map_values(
                |model: AvailableModel| self.language_model(model),
            ));
        }
        models
    }

    /// Whether the provider can be used: there is a key, and there are models, written by the
    /// user or discovered.
    pub open spec fn usable(self) -> bool {
        self.state.authenticated && (self.state.settings.available_models@.len() > 0
            || self.fetch_state@.fetched_models.len() > 0)
    }

    /// Whether the provider can be used.
    pub fn is_authenticated(&self) -> (res: bool)
        ensures
            res == self.usable(),
    {
        let has_manual: bool = self.state.settings.available_models.len() > 0;
        let has_fetched: bool = self.fetch_state.has_models();
        self.state.authenticated && (has_manual || has_fetched)
    }
}

/// The default model is the first one of those provided.
pub proof fn law_default_is_first_provided(
    provider: OpenAiCompatibleLanguageModelProvider,
    default_model: Option<OpenAiCompatibleLanguageModel>,
    models: Seq<OpenAiCompatibleLanguageModel>,
)
    requires
        provider.has_default(default_model),
        provider.provides(models),
    ensures
        default_model == (if models.len() == 0 {
            None
        } else {
            Some(models[0])
        }),
{
    let fetched = provider.fetch_state@.fetched_models;
    let manual = provider.state.settings.available_models@;
    let a = choose|merged: Seq<AvailableModel>| #[trigger]
        provider.offers(merged) && default_model == (if merged.len() == 0 {
            None
        } else {
            Some(provider.language_model(merged[0]))
        });
    let b = choose|merged: Seq<AvailableModel>| #[trigger]
        provider.offers(merged) && models == merged.map_values(
            |model: AvailableModel| provider.language_model(model),
        );
    law_merge_is_unique(fetched, manual, a, b);
}

/// What is provided follows from the state of the provider.
pub proof fn law_provided_models_are_unique(
    provider: OpenAiCompatibleLanguageModelProvider,
    a: Seq<OpenAiCompatibleLanguageModel>,
    b: Seq<OpenAiCompatibleLanguageModel>,
)
    requires
        provider.provides(a),
        provider.provides(b),
    ensures
        a == b,
{
    let fetched = provider.fetch_state@.fetched_models;
    let manual = provider.state.settings.available_models@;
    let merged_a = choose|merged: Seq<AvailableModel>| #[trigger]
        provider.offers(merged) && a == merged.map_values(
            |model: AvailableModel| provider.language_model(model),
        );
    let merged_b = choose|merged: Seq<AvailableModel>| #[trigger]
        provider.offers(merged) && b == merged.map_values(
            |model: AvailableModel| provider.language_model(model),
        );
    law_merge_is_unique(fetched, manual, merged_a, merged_b);
}

/// A provider that can be used offers a model.
pub proof fn law_usable_provider_offers_a_model(
    provider: OpenAiCompatibleLanguageModelProvider,
    merged: Seq<AvailableModel>,
)
    requires
        provider.usable(),
        provider.offers(merged),
    ensures
        merged.len() > 0,
{
    let fetched = provider.fetch_state@.fetched_models;
    let manual = provider.state.settings.available_models@;
    if fetched.len() > 0 {
        law_every_name_is_offered(fetched, manual, merged, fetched[0]);
    }
}

/// Until a fetch brings models, a provider that has discovered none offers what the user wrote, as
/// it is.
pub proof fn law_only_written_models_until_fetched(
    provider: OpenAiCompatibleLanguageModelProvider,
    before: FetchStateContent,
    merged: Seq<AvailableModel>,
)
    requires
        before.fetched_models.len() == 0,
        provider.fetch_state@ == before.refreshed(provider.state.settings@),
        provider.offers(merged),
    ensures
        merged == provider.state.settings.available_models@,
{
}

/// `language_model` is `model` as it is offered by `provider`: its identifier is the name of the
/// model, whatever name it is shown under, and everything that is known of the model stays.
pub open spec fn stands_for(
    language_model: OpenAiCompatibleLanguageModel,
    provider: OpenAiCompatibleLanguageModelProvider,
    model: AvailableModel,
) -> bool {
    &&& language_model.id == model.name
    &&& language_model.model == model
    &&& language_model.provider_id == provider.id
    &&& language_model.provider_name == provider.name
    &&& language_model.request_limit == 4
}

/// A model of a provider is identified by its name, whatever name it is shown under, and takes up
/// to four requests at a time.
pub proof fn law_model_is_identified_by_its_name(
    provider: OpenAiCompatibleLanguageModelProvider,
    model: AvailableModel,
)
    ensures
        provider.language_model(model).id == model.name,
        provider.language_model(model).model == model,
        provider.language_model(model).provider_id == provider.id,
        provider.language_model(model).provider_name == provider.name,
        provider.language_model(model).request_limit == 4,
{
}

/// Each provided model stands for the offered one at its place, and is identified by its name.
pub proof fn law_provided_models_are_the_offered_ones(
    provider: OpenAiCompatibleLanguageModelProvider,
    merged: Seq<AvailableModel>,
    models: Seq<OpenAiCompatibleLanguageModel>,
)
    requires
        provider.offers(merged),
        provider.provides(models),
    ensures
        models.len() == merged.len(),
        forall|i: int| 0 <= i < models.len() ==> (#[trigger] models[i]).id == merged[i].name,
        forall|i: int| 0 <= i < models.len() ==> (#[trigger] models[i]).model == merged[i],
        forall|i: int|
            0 <= i < models.len() ==> stands_for(#[trigger] models[i], provider, merged[i]),
{
    let chosen = choose|chosen: Seq<AvailableModel>| #[trigger]
        provider.offers(chosen) && models == chosen.map_values(
            |model: AvailableModel| provider.language_model(model),
        );
    law_merge_is_unique(
        provider.fetch_state@.fetched_models,
        provider.state.settings.available_models@,
        chosen,
        merged,
    );
}

/// The default model stands for the first one that is offered, and is identified by its name. There
/// is none exactly where nothing is offered.
pub proof fn law_default_model_is_the_first_offered(
    provider: OpenAiCompatibleLanguageModelProvider,
    merged: Seq<AvailableModel>,
    default_model: Option<OpenAiCompatibleLanguageModel>,
)
    requires
        provider.offers(merged),
        provider.has_default(default_model),
    ensures
        default_model is Some <==> merged.len() > 0,
        merged.len() > 0 ==> default_model->0.id == merged[0].name,
        merged.len() > 0 ==> stands_for(default_model->0, provider, merged[0]),
{
    let chosen = choose|chosen: Seq<AvailableModel>| #[trigger]
        provider.offers(chosen) && default_model == (if chosen.len() == 0 {
            None
        } else {
            Some(provider.language_model(chosen[0]))
        });
    law_merge_is_unique(
        provider.fetch_state@.fetched_models,
        provider.state.settings.available_models@,
        chosen,
        merged,
    );
}

/// Of the models that the user wrote under one name, the last one is offered, whatever was
/// discovered.
pub proof fn law_written_model_is_offered(
    provider: OpenAiCompatibleLanguageModelProvider,
    merged: Seq<AvailableModel>,
    k: int,
)
    requires
        provider.offers(merged),
        last_of_its_name(provider.state.settings.available_models@, k),
    ensures
        merged.contains(provider.state.settings.available_models@[k]),
{
    law_last_written_model_is_offered(
        provider.fetch_state@.fetched_models,
        provider.state.settings.available_models@,
        merged,
        k,
    );
}

/// Of the models that were discovered under a name that the user did not write, the last one is
/// offered.
pub proof fn law_discovered_model_is_offered(
    provider: OpenAiCompatibleLanguageModelProvider,
    merged: Seq<AvailableModel>,
    k: int,
)
    requires
        provider.offers(merged),
        last_of_its_name(provider.fetch_state@.fetched_models, k),
        forall|i: int|
            0 <= i < provider.state.settings.available_models@.len() ==> (
            #[trigger] provider.state.settings.available_models@[i]).name@
                != provider.fetch_state@.fetched_models[k].name@,
    ensures
        merged.contains(provider.fetch_state@.fetched_models[k]),
{
    law_last_discovered_model_is_offered(
        provider.fetch_state@.fetched_models,
        provider.state.settings.available_models@,
        merged,
        k,
    );
}

/// Nothing is offered that was neither discovered nor written. Where models were discovered, no
/// name is offered twice, and the names come in order; where none were, the list of the user is
/// offered as it is.
pub proof fn law_offered_models_are_in_order(
    provider: OpenAiCompatibleLanguageModelProvider,
    merged: Seq<AvailableModel>,
)
    requires
        provider.offers(merged),
    ensures
        provider.fetch_state@.fetched_models.len() == 0 ==> merged
            == provider.state.settings.available_models@,
        provider.fetch_state@.fetched_models.len() > 0 ==> forall|i: int, j: int|
            0 <= i < j < merged.len() ==> text_before(
                (#[trigger] merged[i]).name@,
                (#[trigger] merged[j]).name@,
            ),
        forall|i: int|
            0 <= i < merged.len() ==> provider.fetch_state@.fetched_models.contains(
                #[trigger] merged[i],
            ) || provider.state.settings.available_models@.contains(merged[i]),
{
    let fetched = provider.fetch_state@.fetched_models;
    let manual = provider.state.settings.available_models@;
    assert forall|i: int| 0 <= i < merged.len() implies fetched.contains(#[trigger] merged[i])
        || manual.contains(merged[i]) by {
        law_nothing_else_is_offered(fetched, manual, merged, i);
    }
    assert forall|i: int, j: int|
        fetched.len() > 0 && 0 <= i < j < merged.len() implies text_before(
        (#[trigger] merged[i]).name@,
        (#[trigger] merged[j]).name@,
    ) by {
        law_offered_names_ascend(fetched, manual, merged, i, j);
    }
}

/// A provider can be used exactly where there is a key, and a model that was written or discovered.
pub proof fn law_usable_with_a_key_and_a_model(provider: OpenAiCompatibleLanguageModelProvider)
    ensures
        provider.usable() ==> provider.state.authenticated,
        provider.usable() ==> provider.state.settings.available_models@.len() > 0
            || provider.fetch_state@.fetched_models.len() > 0,
        provider.state.authenticated && provider.state.settings.available_models@.len() > 0
            ==> provider.usable(),
        provider.state.authenticated && provider.fetch_state@.fetched_models.len() > 0
            ==> provider.usable(),
{
}

} // verus!
