//! Reasoning effort: the levels a service accepts, and which of them a request carries.

use vstd::prelude::*;

use crate::request::LanguageModelRequest;
use crate::settings::AvailableModel;
use crate::text::is_same;

verus! {

/// How much reasoning a service is asked to spend on a completion.
#[derive(Clone, Copy, Debug, PartialEq, Eq, Structural)]
pub enum ReasoningEffort {
    /// No reasoning at all: the value `none`.
    Disabled,
    Minimal,
    Low,
    Medium,
    High,
    XHigh,
    Max,
}

/// The efforts that a user can select, in the order in which they are shown.
pub const OPENAI_COMPATIBLE_SELECTABLE: [ReasoningEffort; 6] = [
    ReasoningEffort::Minimal,
    ReasoningEffort::Low,
    ReasoningEffort::Medium,
    ReasoningEffort::High,
    ReasoningEffort::XHigh,
    ReasoningEffort::Max,
];

impl ReasoningEffort {
    /// The string a service knows this effort by.
    pub open spec fn spec_value(self) -> Seq<char> {
        match self {
            ReasoningEffort::Disabled => "none"@,
            ReasoningEffort::Minimal => "minimal"@,
            ReasoningEffort::Low => "low"@,
            ReasoningEffort::Medium => "medium"@,
            ReasoningEffort::High => "high"@,
            ReasoningEffort::XHigh => "xhigh"@,
            ReasoningEffort::Max => "max"@,
        }
    }

    /// The name this effort is shown under.
    pub open spec fn spec_label(self) -> Seq<char> {
        match self {
            ReasoningEffort::Disabled => "None"@,
            ReasoningEffort::Minimal => "Minimal"@,
            ReasoningEffort::Low => "Low"@,
            ReasoningEffort::Medium => "Medium"@,
            ReasoningEffort::High => "High"@,
            ReasoningEffort::XHigh => "Extra High"@,
            ReasoningEffort::Max => "Max"@,
        }
    }

    /// The effort that a service knows by `value`, if there is one.
    pub open spec fn spec_from_value(value: Seq<char>) -> Option<ReasoningEffort> {
        if value == "none"@ {
            Some(ReasoningEffort::Disabled)
        } else if value == "minimal"@ {
            Some(ReasoningEffort::Minimal)
        } else if value == "low"@ {
            Some(ReasoningEffort::Low)
        } else if value == "medium"@ {
            Some(ReasoningEffort::Medium)
        } else if value == "high"@ {
            Some(ReasoningEffort::High)
        } else if value == "xhigh"@ {
            Some(ReasoningEffort::XHigh)
        } else if value == "max"@ {
            Some(ReasoningEffort::Max)
        } else {
            None
        }
    }

    /// The string a service knows this effort by.
    pub fn value(self) -> (res: &'static str)
        ensures
            res@ == self.spec_value(),
    {
        match self {
            ReasoningEffort::Disabled => "none",
            ReasoningEffort::Minimal => "minimal",
            ReasoningEffort::Low => "low",
            ReasoningEffort::Medium => "medium",
            ReasoningEffort::High => "high",
            ReasoningEffort::XHigh => "xhigh",
            ReasoningEffort::Max => "max",
        }
    }

    /// The name this effort is shown under.
    pub fn label(self) -> (res: &'static str)
        ensures
            res@ == self.spec_label(),
    {
        match self {
            ReasoningEffort::Disabled => "None",
            ReasoningEffort::Minimal => "Minimal",
            ReasoningEffort::Low => "Low",
            ReasoningEffort::Medium => "Medium",
            ReasoningEffort::High => "High",
            ReasoningEffort::XHigh => "Extra High",
            ReasoningEffort::Max => "Max",
        }
    }

    /// The effort that a service knows by `value`, if there is one.
    pub fn from_value(value: &str) -> (res: Option<ReasoningEffort>)
        ensures
            res == ReasoningEffort::spec_from_value(value@),
    {
        if is_same(value, "none") {
            Some(ReasoningEffort::Disabled)
        } else if is_same(value, "minimal") {
            Some(ReasoningEffort::Minimal)
        } else if is_same(value, "low") {
            Some(ReasoningEffort::Low)
        } else if is_same(value, "medium") {
            Some(ReasoningEffort::Medium)
        } else if is_same(value, "high") {
            Some(ReasoningEffort::High)
        } else if is_same(value, "xhigh") {
            Some(ReasoningEffort::XHigh)
        } else if is_same(value, "max") {
            Some(ReasoningEffort::Max)
        } else {
            None
        }
    }
}

/// Reading the value of an effort gives that effort back.
pub proof fn law_effort_value_round_trip(effort: ReasoningEffort)
    ensures
        ReasoningEffort::spec_from_value(effort.spec_value()) == Some(effort),
{
    reveal_strlit("none");
    reveal_strlit("minimal");
    reveal_strlit("low");
    reveal_strlit("medium");
    reveal_strlit("high");
    reveal_strlit("xhigh");
    reveal_strlit("max");
    assert("none"@.len() == 4 && "high"@.len() == 4 && "none"@[0] != "high"@[0]);
    assert("low"@.len() == 3 && "max"@.len() == 3 && "low"@[0] != "max"@[0]);
    assert("minimal"@.len() == 7 && "medium"@.len() == 6 && "xhigh"@.len() == 5);
}

/// A string that is read as an effort is that effort's value.
pub proof fn law_effort_is_read_from_its_value_only(value: Seq<char>)
    ensures
        ReasoningEffort::spec_from_value(value) matches Some(effort) ==> effort.spec_value()
            == value,
{
}

/// A level of effort as it is offered to the user.
#[derive(Debug, PartialEq, Eq)]
pub struct LanguageModelEffortLevel {
    pub name: String,
    pub value: String,
    pub is_default: bool,
}

/// `effort` unless it asks for no reasoning.
pub open spec fn thinking_effort(effort: Option<ReasoningEffort>) -> Option<ReasoningEffort> {
    if effort == Some(ReasoningEffort::Disabled) {
        None
    } else {
        effort
    }
}

fn keep_thinking_effort(effort: Option<ReasoningEffort>) -> (res: Option<ReasoningEffort>)
    ensures
        res == thinking_effort(effort),
{
    match effort {
        Some(ReasoningEffort::Disabled) => None,
        other => other,
    }
}

/// The effort the user configured for `model`, where it asks for reasoning.
pub fn default_thinking_reasoning_effort(model: &AvailableModel) -> (res: Option<ReasoningEffort>)
    ensures
        res == thinking_effort(model.reasoning_effort),
{
    keep_thinking_effort(model.reasoning_effort)
}

/// `level` shows `effort`, as the default one where it is `default_effort`.
pub open spec fn shows_effort(
    level: LanguageModelEffortLevel,
    effort: ReasoningEffort,
    default_effort: ReasoningEffort,
) -> bool {
    &&& level.name@ == effort.spec_label()
    &&& level.value@ == effort.spec_value()
    &&& level.is_default == (effort == default_effort)
}

/// `levels` are those offered for `model`: every selectable effort, where the model thinks at
/// all.
pub open spec fn offers_effort_levels(
    model: AvailableModel,
    levels: Seq<LanguageModelEffortLevel>,
) -> bool {
    match thinking_effort(model.reasoning_effort) {
        None => levels.len() == 0,
        Some(default_effort) => {
            &&& levels.len() == OPENAI_COMPATIBLE_SELECTABLE@.len()
            &&& forall|i: int|
                0 <= i < levels.len() ==> shows_effort(
                    #[trigger] levels[i],
                    OPENAI_COMPATIBLE_SELECTABLE@[i],
                    default_effort,
                )
        },
    }
}

/// The levels of effort that the user can choose from for `model`.
pub fn supported_thinking_effort_levels(model: &AvailableModel) -> (res: Vec<
    LanguageModelEffortLevel,
>)
    ensures
        offers_effort_levels(*model, res@),
{
    let mut levels: Vec<LanguageModelEffortLevel> = Vec::new();
    let default_effort = match default_thinking_reasoning_effort(model) {
        Some(effort) => effort,
        None => {
            return levels;
        },
    };
    let selectable = OPENAI_COMPATIBLE_SELECTABLE;
    let mut i: usize = 0;
    while i < selectable.len()
        invariant
            selectable == OPENAI_COMPATIBLE_SELECTABLE,
            i <= selectable@.len(),
            levels@.len() == i,
            forall|j: int|
                0 <= j < i ==> shows_effort(#[trigger] levels@[j], selectable@[j], default_effort),
        decreases selectable@.len() - i,
    {
        let effort = selectable[i];
        levels.push(
            LanguageModelEffortLevel {
                name: effort.label().to_owned(),
                value: effort.value().to_owned(),
                is_default: effort == default_effort,
            },
        );
        i = i + 1;
    }
    levels
}

/// Where a model thinks, exactly one of the offered levels is the default one, and it is that of
/// the configured effort.
pub proof fn law_one_default_effort_level(
    model: AvailableModel,
    levels: Seq<LanguageModelEffortLevel>,
)
    requires
        offers_effort_levels(model, levels),
        thinking_effort(model.reasoning_effort) is Some,
    ensures
        exists|i: int|
            0 <= i < levels.len() && (#[trigger] levels[i]).is_default && levels[i].value@
                == model.reasoning_effort->0.spec_value() && forall|j: int|
                0 <= j < levels.len() && (#[trigger] levels[j]).is_default ==> j == i,
{
    let selectable = OPENAI_COMPATIBLE_SELECTABLE@;
    let effort = model.reasoning_effort->0;
    let i: int = match effort {
        ReasoningEffort::Disabled => -1,
        ReasoningEffort::Minimal => 0,
        ReasoningEffort::Low => 1,
        ReasoningEffort::Medium => 2,
        ReasoningEffort::High => 3,
        ReasoningEffort::XHigh => 4,
        ReasoningEffort::Max => 5,
    };
    assert(selectable[i] == effort);
    assert(forall|j: int| 0 <= j < selectable.len() && j != i ==> selectable[j] != effort);
    assert(levels[i].is_default);
}

/// The effort the request selects, where it names one that asks for reasoning.
pub open spec fn selected_effort(request: LanguageModelRequest) -> Option<ReasoningEffort> {
    match request.thinking_effort {
        None => None,
        Some(value) => thinking_effort(ReasoningEffort::spec_from_value(value@)),
    }
}

/// The effort the request selects, where it names one that asks for reasoning.
pub fn selected_thinking_reasoning_effort(request: &LanguageModelRequest) -> (res: Option<
    ReasoningEffort,
>)
    ensures
        res == selected_effort(*request),
{
    match &request.thinking_effort {
        None => None,
        Some(value) => keep_thinking_effort(ReasoningEffort::from_value(value.as_str())),
    }
}

/// Whether requests to `model` may ask for no reasoning: where any effort is configured.
pub fn supports_none_reasoning_effort(model: &AvailableModel) -> (res: bool)
    ensures
        res == (model.reasoning_effort is Some),
{
    model.reasoning_effort.is_some()
}

/// The effort a chat completion asks `model` for.
///
/// A model configured without reasoning stays without it. Where thinking is allowed, the effort
/// that the request selects comes before the configured one. Where it is not, a model with a
/// configured effort is asked for none, and one without is asked nothing.
pub open spec fn chat_effort(request: LanguageModelRequest, model: AvailableModel) -> Option<
    ReasoningEffort,
> {
    if model.reasoning_effort == Some(ReasoningEffort::Disabled) {
        Some(ReasoningEffort::Disabled)
    } else if request.thinking_allowed {
        match selected_effort(request) {
            Some(effort) => Some(effort),
            None => model.reasoning_effort,
        }
    } else if model.reasoning_effort is Some {
        Some(ReasoningEffort::Disabled)
    } else {
        None
    }
}

/// The effort a chat completion asks `model` for.
pub fn chat_completion_reasoning_effort(
    request: &LanguageModelRequest,
    model: &AvailableModel,
) -> (res: Option<ReasoningEffort>)
    ensures
        res == chat_effort(*request, *model),
{
    if let Some(ReasoningEffort::Disabled) = model.reasoning_effort {
        return Some(ReasoningEffort::Disabled);
    }
    if request.thinking_allowed {
        match selected_thinking_reasoning_effort(request) {
            Some(effort) => Some(effort),
            None => default_thinking_reasoning_effort(model),
        }
    } else if supports_none_reasoning_effort(model) {
        Some(ReasoningEffort::Disabled)
    } else {
        None
    }
}

/// A request that does not allow thinking never asks for any.
pub proof fn law_no_thinking_unless_allowed(request: LanguageModelRequest, model: AvailableModel)
    requires
        !request.thinking_allowed,
    ensures
        thinking_effort(chat_effort(request, model)) is None,
{
}

/// A model configured without reasoning is asked for none, whatever the request selects.
pub proof fn law_explicit_none_is_preserved(request: LanguageModelRequest, model: AvailableModel)
    requires
        model.reasoning_effort == Some(ReasoningEffort::Disabled),
    ensures
        chat_effort(request, model) == Some(ReasoningEffort::Disabled),
{
}

/// A model without a configured effort is asked for reasoning only where the request selects an
/// effort and allows thinking.
pub proof fn law_missing_effort_is_omitted(request: LanguageModelRequest, model: AvailableModel)
    requires
        model.reasoning_effort is None,
    ensures
        chat_effort(request, model) is Some <==> request.thinking_allowed && selected_effort(
            request,
        ) is Some,
{
}

/// `request` as it is sent to the responses endpoint: without thinking, where `model` is
/// configured without reasoning.
pub open spec fn without_disabled_thinking(
    request: LanguageModelRequest,
    model: AvailableModel,
) -> LanguageModelRequest {
    if model.reasoning_effort == Some(ReasoningEffort::Disabled) {
        LanguageModelRequest { thinking_allowed: false, thinking_effort: None, ..request }
    } else {
        request
    }
}

/// Takes thinking out of `request` where `model` is configured without reasoning.
pub fn disable_response_thinking_for_none_effort(
    request: &mut LanguageModelRequest,
    model: &AvailableModel,
)
    ensures
        *final(request) == without_disabled_thinking(*old(request), *model),
{
    if let Some(ReasoningEffort::Disabled) = model.reasoning_effort {
        request.thinking_allowed = false;
        request.thinking_effort = None;
    }
}

/// Taking thinking out of a request a second time changes nothing.
pub proof fn law_disabling_thinking_is_idempotent(
    request: LanguageModelRequest,
    model: AvailableModel,
)
    ensures
        without_disabled_thinking(without_disabled_thinking(request, model), model)
            == without_disabled_thinking(request, model),
{
}

/// The value of each effort.
pub proof fn law_effort_values(effort: ReasoningEffort)
    ensures
        effort == ReasoningEffort::Disabled <==> effort.spec_value() == "none"@,
        effort == ReasoningEffort::Minimal <==> effort.spec_value() == "minimal"@,
        effort == ReasoningEffort::Low <==> effort.spec_value() == "low"@,
        effort == ReasoningEffort::Medium <==> effort.spec_value() == "medium"@,
        effort == ReasoningEffort::High <==> effort.spec_value() == "high"@,
        effort == ReasoningEffort::XHigh <==> effort.spec_value() == "xhigh"@,
        effort == ReasoningEffort::Max <==> effort.spec_value() == "max"@,
{
    law_effort_value_round_trip(effort);
    law_effort_value_round_trip(ReasoningEffort::Disabled);
    law_effort_value_round_trip(ReasoningEffort::Minimal);
    law_effort_value_round_trip(ReasoningEffort::Low);
    law_effort_value_round_trip(ReasoningEffort::Medium);
    law_effort_value_round_trip(ReasoningEffort::High);
    law_effort_value_round_trip(ReasoningEffort::XHigh);
    law_effort_value_round_trip(ReasoningEffort::Max);
}

/// The name that each effort is shown under.
pub proof fn law_effort_labels(effort: ReasoningEffort)
    ensures
        effort == ReasoningEffort::Disabled ==> effort.spec_label() == "None"@,
        effort == ReasoningEffort::Minimal ==> effort.spec_label() == "Minimal"@,
        effort == ReasoningEffort::Low ==> effort.spec_label() == "Low"@,
        effort == ReasoningEffort::Medium ==> effort.spec_label() == "Medium"@,
        effort == ReasoningEffort::High ==> effort.spec_label() == "High"@,
        effort == ReasoningEffort::XHigh ==> effort.spec_label() == "Extra High"@,
        effort == ReasoningEffort::Max ==> effort.spec_label() == "Max"@,
{
}

/// The levels offered for a thinking model run from the least effort to the greatest, and one is
/// the default exactly where its value is that of the configured effort. A model without an effort,
/// or with the one that turns reasoning off, is offered none.
pub proof fn law_offered_levels(model: AvailableModel, levels: Seq<LanguageModelEffortLevel>)
    requires
        offers_effort_levels(model, levels),
    ensures
        model.reasoning_effort is None || model.reasoning_effort == Some(ReasoningEffort::Disabled)
            ==> levels.len() == 0,
        model.reasoning_effort is Some && model.reasoning_effort != Some(ReasoningEffort::Disabled)
            ==> {
            &&& levels.len() == 6
            &&& levels[0].value@ == "minimal"@ && levels[0].name@ == "Minimal"@
            &&& levels[1].value@ == "low"@ && levels[1].name@ == "Low"@
            &&& levels[2].value@ == "medium"@ && levels[2].name@ == "Medium"@
            &&& levels[3].value@ == "high"@ && levels[3].name@ == "High"@
            &&& levels[4].value@ == "xhigh"@ && levels[4].name@ == "Extra High"@
            &&& levels[5].value@ == "max"@ && levels[5].name@ == "Max"@
            &&& forall|i: int|
                0 <= i < levels.len() ==> ((#[trigger] levels[i]).is_default <==> levels[i].value@
                    == model.reasoning_effort->0.spec_value())
        },
{
    if thinking_effort(model.reasoning_effort) is Some {
        let selectable = OPENAI_COMPATIBLE_SELECTABLE@;
        let effort = model.reasoning_effort->0;
        assert forall|i: int| 0 <= i < levels.len() implies ((#[trigger] levels[i]).is_default
            <==> levels[i].value@ == effort.spec_value()) by {
            law_effort_value_round_trip(effort);
            law_effort_value_round_trip(selectable[i]);
        }
    }
}

/// Where thinking is allowed, and the model is not configured without reasoning, the effort whose
/// value the request selects is asked for. Where the request selects none, or something that is
/// the value of no effort that asks for reasoning, the configured one is.
pub proof fn law_allowed_effort_is_the_selected_one(
    request: LanguageModelRequest,
    model: AvailableModel,
    effort: ReasoningEffort,
)
    requires
        request.thinking_allowed,
        model.reasoning_effort != Some(ReasoningEffort::Disabled),
    ensures
        request.thinking_effort is Some && request.thinking_effort->0@ == effort.spec_value()
            && effort != ReasoningEffort::Disabled ==> chat_effort(request, model) == Some(effort),
        request.thinking_effort is None || (forall|known: ReasoningEffort|
            known == ReasoningEffort::Disabled || #[trigger] known.spec_value()
                != request.thinking_effort->0@) ==> chat_effort(request, model)
            == model.reasoning_effort,
{
    law_effort_value_round_trip(effort);
    if request.thinking_effort is Some {
        let value = request.thinking_effort->0@;
        law_effort_is_read_from_its_value_only(value);
    }
}

/// Where thinking is not allowed, a model with an effort is asked for no reasoning, and one without
/// is asked nothing, whatever the request selects.
pub proof fn law_forbidden_effort_is_turned_off(
    request: LanguageModelRequest,
    model: AvailableModel,
)
    requires
        !request.thinking_allowed,
    ensures
        model.reasoning_effort is Some ==> chat_effort(request, model) == Some(
            ReasoningEffort::Disabled,
        ),
        model.reasoning_effort is None ==> chat_effort(request, model) is None,
{
}

/// Thinking is taken out of a request exactly where the model is configured without reasoning, and
/// its speed is never touched.
pub proof fn law_thinking_is_taken_out_for_disabled_models_only(
    request: LanguageModelRequest,
    model: AvailableModel,
)
    ensures
        without_disabled_thinking(request, model).speed == request.speed,
        model.reasoning_effort == Some(ReasoningEffort::Disabled) ==> !without_disabled_thinking(
            request,
            model,
        ).thinking_allowed && without_disabled_thinking(request, model).thinking_effort is None,
        model.reasoning_effort != Some(ReasoningEffort::Disabled) ==> without_disabled_thinking(
            request,
            model,
        ) == request,
{
}

/// A request selects the effort whose value it names, unless that is the one that turns reasoning
/// off. A request that names nothing, or no effort, selects none.
pub proof fn law_request_selects_the_effort_it_names(
    request: LanguageModelRequest,
    effort: ReasoningEffort,
)
    ensures
        selected_effort(request) == Some(effort) <==> request.thinking_effort is Some
            && request.thinking_effort->0@ == effort.spec_value() && effort
            != ReasoningEffort::Disabled,
{
    law_effort_value_round_trip(effort);
    if request.thinking_effort is Some {
        law_effort_is_read_from_its_value_only(request.thinking_effort->0@);
    }
}

} // verus!
