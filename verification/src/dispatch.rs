//! Top-level model dispatch: descriptor in, registered chat plan out.
//!
//! [`construct_model`] selects exactly one provider from the descriptor's
//! source string, validates that provider's parameter contract, and pairs
//! the resulting adapter plan with the decorator configuration. On top of
//! that, [`try_to_chat_model`] reads the optional tool-usage parameters
//! and decides whether the decorated value is to be handed to a
//! tool-orchestration layer.

use vstd::prelude::*;
use crate::descriptor::ModelDescriptor;
use crate::error::ModelError;
use crate::numeric::{is_uint_literal, parse_nonneg_int, uint_value};
use crate::params::{lookup, ParamEntry, ParamMap};
use crate::providers::{
    anthropic, anthropic_ok, anthropic_plan, azure, azure_fail_reason, azure_ok, azure_plan,
    file_ok, file_plan, huggingface, huggingface_ok, huggingface_plan, local_file, openai,
    openai_ok, openai_plan, xai, xai_ok, xai_plan, AdapterPlan, AdapterPlanV,
};
use vstd::string::StringExecFns;
use crate::source::{selector_of, source_model_id, source_prefix, BackendSelector};
use crate::text::str_eq;
use crate::wrapper::{clone_defaults, ChatWrapper, DefaultEntry, WrapperV};

verus! {

/// One planned model: the adapter to construct and the decorator
/// configuration to wrap it with.
#[derive(Debug)]
pub struct ModelPlan {
    /// The adapter to construct.
    pub adapter: AdapterPlan,
    /// The decorator configuration that wraps it.
    pub wrapper: ChatWrapper,
}

/// Whether, and how, the decorated value is handed to the external
/// tool-orchestration layer.
#[derive(Debug)]
pub enum ToolPlan {
    /// The decorated value is registered as it is.
    Plain,
    /// The decorated value, the recursion limit, and the externally
    /// resolved tool list go to the tool orchestrator.
    WithTools {
        /// The tool-enable parameter's value, as supplied.
        options: String,
        /// The parsed recursion limit, if one was supplied.
        recursion_limit: Option<usize>,
    },
}

/// The mathematical model of a [`ToolPlan`].
pub enum ToolPlanV {
    /// The decorated value is registered as it is.
    Plain,
    /// The decorated value goes to the tool orchestrator.
    WithTools {
        /// The tool-enable parameter's value, as supplied.
        options: Seq<char>,
        /// The parsed recursion limit, if one was supplied.
        recursion_limit: Option<usize>,
    },
}

impl View for ToolPlan {
    type V = ToolPlanV;

    open spec fn view(&self) -> ToolPlanV {
        match self {
            ToolPlan::Plain => ToolPlanV::Plain,
            ToolPlan::WithTools { options, recursion_limit } => (ToolPlanV::WithTools {
                options: options@,
                recursion_limit: *recursion_limit,
            }),
        }
    }
}

/// A fully planned registration: the model plan and the tool decision.
#[derive(Debug)]
pub struct RegisteredModel {
    /// The adapter and decorator plan.
    pub plan: ModelPlan,
    /// The tool-augmentation decision.
    pub tools: ToolPlan,
}

/// The decorator configuration a descriptor asks for: its name as the
/// public name, its `system_prompt` parameter, and its default list.
pub open spec fn wrapper_for(c: ModelDescriptor) -> WrapperV {
    WrapperV {
        public_name: c.name@,
        system_prompt: lookup(c.params.entries@, "system_prompt"@),
        defaults: c.defaults@.map_values(|e: DefaultEntry| e@),
    }
}

/// Whether dispatching the descriptor with these secret parameters
/// produces an adapter.
pub open spec fn construct_ok(c: ModelDescriptor, ps: Seq<ParamEntry>) -> bool {
    match selector_of(source_prefix(c.from@)) {
        Some(BackendSelector::HuggingFace) => huggingface_ok(source_model_id(c.from@)),
        Some(BackendSelector::LocalFile) => file_ok(c.files@),
        Some(BackendSelector::Anthropic) => anthropic_ok(ps),
        Some(BackendSelector::Azure) => azure_ok(source_model_id(c.from@), ps),
        Some(BackendSelector::Xai) => xai_ok(ps),
        Some(BackendSelector::OpenAi) => openai_ok(ps),
        Some(BackendSelector::Unsupported) => false,
        None => false,
    }
}

/// The adapter plan dispatch produces, when it succeeds.
pub open spec fn planned_adapter(c: ModelDescriptor, ps: Seq<ParamEntry>) -> AdapterPlanV
    recommends
        construct_ok(c, ps),
{
    match selector_of(source_prefix(c.from@)) {
        Some(BackendSelector::HuggingFace) => huggingface_plan(
            source_model_id(c.from@).unwrap(),
            c.files@,
            ps,
        ),
        Some(BackendSelector::LocalFile) => file_plan(c.files@, ps),
        Some(BackendSelector::Anthropic) => anthropic_plan(source_model_id(c.from@), ps),
        Some(BackendSelector::Azure) => azure_plan(source_model_id(c.from@).unwrap(), ps),
        Some(BackendSelector::Xai) => xai_plan(source_model_id(c.from@), ps),
        Some(BackendSelector::OpenAi) => openai_plan(source_model_id(c.from@), ps),
        _ => arbitrary(),
    }
}

/// The load-failure reason dispatch returns, for the providers that fail
/// with [`ModelError::FailedToLoadModel`].
pub open spec fn construct_fail_reason(c: ModelDescriptor, ps: Seq<ParamEntry>) -> Seq<char>
    recommends
        !construct_ok(c, ps),
{
    match selector_of(source_prefix(c.from@)) {
        Some(BackendSelector::HuggingFace) => "No model id for Huggingface model"@,
        Some(BackendSelector::LocalFile) => "No 'weights_path' parameter provided"@,
        Some(BackendSelector::Anthropic) =>
            "One of following `model.params` is required: `anthropic_api_key` or `anthropic_auth_token`."@,
        Some(BackendSelector::Azure) => azure_fail_reason(source_model_id(c.from@), c.name@, ps),
        Some(BackendSelector::Xai) => "No `xai_api_key` provided for xAI model."@,
        _ => arbitrary(),
    }
}

/// Selects and validates exactly one provider for the descriptor and
/// pairs its adapter plan with the decorator configuration.
pub fn construct_model(component: &ModelDescriptor, params: &ParamMap) -> (r: Result<
    ModelPlan,
    ModelError,
>)
    ensures
        r is Ok <==> construct_ok(*component, params.entries@),
        r matches Ok(m) ==> m.adapter@ == planned_adapter(*component, params.entries@)
            && m.wrapper@ == wrapper_for(*component),
        selector_of(source_prefix(component.from@)) is None ==> (r matches Err(
            ModelError::ModelSourceUnknown { from },
        ) && from@ == component.from@),
        selector_of(source_prefix(component.from@)) == Some(BackendSelector::Unsupported) ==> (
        r matches Err(ModelError::UnsupportedTaskForModel { from, task }) && from@ == "spiceai"@
            && task@ == "llm"@),
        selector_of(source_prefix(component.from@)) == Some(BackendSelector::OpenAi) && !openai_ok(
            params.entries@,
        ) ==> (r matches Err(ModelError::InvalidParamError { param, message }) && param@
            == "openai_temperature"@ && message@ == "Ensure it is a non-negative number."@),
        selector_of(source_prefix(component.from@)) matches Some(sel) && sel
            != BackendSelector::OpenAi && sel != BackendSelector::Unsupported && !construct_ok(
            *component,
            params.entries@,
        ) ==> (r matches Err(ModelError::FailedToLoadModel { reason }) && reason@
            == construct_fail_reason(*component, params.entries@)),
{
    let model_id = component.get_model_id();
    let sel = match component.get_source() {
        Some(s) => s,
        None => {
            return Err(ModelError::ModelSourceUnknown { from: component.from.clone() });
        },
    };
    let adapter = match sel {
        BackendSelector::HuggingFace => huggingface(model_id, component, params),
        BackendSelector::LocalFile => local_file(component, params),
        BackendSelector::Anthropic => {
            let mid: Option<&str> = match &model_id {
                Some(s) => Some(s.as_str()),
                None => None,
            };
            anthropic(mid, params)
        },
        BackendSelector::Azure => azure(model_id, component.name.as_str(), params),
        BackendSelector::Xai => {
            let mid: Option<&str> = match &model_id {
                Some(s) => Some(s.as_str()),
                None => None,
            };
            xai(mid, params)
        },
        BackendSelector::OpenAi => openai(model_id, params),
        BackendSelector::Unsupported => Err(ModelError::UnsupportedTaskForModel {
            from: "spiceai".to_owned(),
            task: "llm".to_owned(),
        }),
    };
    let adapter = match adapter {
        Ok(a) => a,
        Err(e) => {
            return Err(e);
        },
    };
    let system_prompt = component.params.get_cloned("system_prompt");
    let wrapper = ChatWrapper::new(
        component.name.as_str(),
        system_prompt,
        clone_defaults(&component.defaults),
    );
    Ok(ModelPlan { adapter, wrapper })
}

/// The tool-enable parameter: `tools` if present, else `spice_tools`.
pub open spec fn tool_param(ps: Seq<ParamEntry>) -> Option<Seq<char>> {
    match lookup(ps, "tools"@) {
        Some(v) => Some(v),
        None => lookup(ps, "spice_tools"@),
    }
}

/// Whether a tool-enable value enables tool usage: any value but
/// `disabled` and `none` does.
pub open spec fn tools_enabled(s: Seq<char>) -> bool {
    !(s == "disabled"@ || s == "none"@)
}

/// Whether the recursion-limit parameter, if present, parses as a
/// non-negative integer that fits the machine.
pub open spec fn recursion_param_ok(ps: Seq<ParamEntry>) -> bool {
    match lookup(ps, "tool_recursion_limit"@) {
        None => true,
        Some(s) => is_uint_literal(s) && uint_value(s) <= usize::MAX,
    }
}

/// The tool decision the parameters ask for.
pub open spec fn planned_tools(ps: Seq<ParamEntry>) -> ToolPlanV
    recommends
        recursion_param_ok(ps),
{
    match tool_param(ps) {
        Some(t) => if tools_enabled(t) {
            ToolPlanV::WithTools {
                options: t,
                recursion_limit: match lookup(ps, "tool_recursion_limit"@) {
                    None => None,
                    Some(s) => Some(uint_value(s) as usize),
                },
            }
        } else {
            ToolPlanV::Plain
        },
        None => ToolPlanV::Plain,
    }
}

/// Whether a tool-enable value enables tool usage.
fn tools_enabled_exec(s: &str) -> (r: bool)
    ensures
        r == tools_enabled(s@),
{
    !(str_eq(s, "disabled") || str_eq(s, "none"))
}

/// A failure message naming the unparseable recursion limit.
fn recursion_reason(value: &str) -> (r: String)
    ensures
        r@ == "Invalid value specified for `tool_recursion_limit`: "@ + value@ + "."@,
{
    let mut s = "Invalid value specified for `tool_recursion_limit`: ".to_owned();
    s.append(value);
    s.append(".");
    s
}

/// Derives a registered chat value from a descriptor: dispatches the
/// provider, configures the decorator, and decides tool augmentation from
/// the optional tool-enable parameter (`tools`, else `spice_tools`) and
/// the optional `tool_recursion_limit` integer.
pub fn try_to_chat_model(component: &ModelDescriptor, params: &ParamMap) -> (r: Result<
    RegisteredModel,
    ModelError,
>)
    ensures
        r is Ok <==> construct_ok(*component, params.entries@) && recursion_param_ok(
            params.entries@,
        ),
        r matches Ok(m) ==> m.plan.adapter@ == planned_adapter(*component, params.entries@)
            && m.plan.wrapper@ == wrapper_for(*component) && m.tools@ == planned_tools(
            params.entries@,
        ),
        selector_of(source_prefix(component.from@)) is None ==> (r matches Err(
            ModelError::ModelSourceUnknown { from },
        ) && from@ == component.from@),
        selector_of(source_prefix(component.from@)) == Some(BackendSelector::Unsupported) ==> (
        r matches Err(ModelError::UnsupportedTaskForModel { from, task }) && from@ == "spiceai"@
            && task@ == "llm"@),
        selector_of(source_prefix(component.from@)) == Some(BackendSelector::OpenAi) && !openai_ok(
            params.entries@,
        ) ==> (r matches Err(ModelError::InvalidParamError { param, message }) && param@
            == "openai_temperature"@ && message@ == "Ensure it is a non-negative number."@),
        selector_of(source_prefix(component.from@)) matches Some(sel) && sel
            != BackendSelector::OpenAi && sel != BackendSelector::Unsupported && !construct_ok(
            *component,
            params.entries@,
        ) ==> (r matches Err(ModelError::FailedToLoadModel { reason }) && reason@
            == construct_fail_reason(*component, params.entries@)),
        construct_ok(*component, params.entries@) && !recursion_param_ok(params.entries@) ==> (
        r matches Err(ModelError::FailedToLoadModel { reason }) && reason@
            == "Invalid value specified for `tool_recursion_limit`: "@ + lookup(
            params.entries@,
            "tool_recursion_limit"@,
        ).unwrap() + "."@),
{
    let plan = match construct_model(component, params) {
        Ok(p) => p,
        Err(e) => {
            return Err(e);
        },
    };
    let recursion_limit: Option<usize> = match params.get("tool_recursion_limit") {
        Some(s) => match parse_nonneg_int(s.as_str()) {
            Some(v) => Some(v),
            None => {
                return Err(ModelError::FailedToLoadModel {
                    reason: recursion_reason(s.as_str()),
                });
            },
        },
        None => None,
    };
    let tool_opt: Option<String> = match params.get_cloned("tools") {
        Some(v) => Some(v),
        None => params.get_cloned("spice_tools"),
    };
    let tools = match tool_opt {
        Some(t) => {
            if tools_enabled_exec(t.as_str()) {
                ToolPlan::WithTools { options: t, recursion_limit }
            } else {
                ToolPlan::Plain
            }
        },
        None => ToolPlan::Plain,
    };
    Ok(RegisteredModel { plan, tools })
}

} // verus!
