//! Per-provider validation and adapter planning.
//!
//! Each function here checks one provider's parameter contract and, when
//! it holds, produces the plan from which an adapter is constructed: every
//! value the provider integration needs, as plain data. Performing the
//! construction — network clients, weight downloads — is the caller's
//! unverified concern.

use vstd::prelude::*;
use crate::descriptor::{first_path_of_kind, paths_of_kind, FileKind, ModelDescriptor};
use crate::error::ModelError;
use crate::numeric::{check_nonneg_float, ci_eq, copy_range, matches_ci, temperature_ok, to_chars};
use crate::params::{lookup, ParamMap};
use crate::params::ParamEntry;
use vstd::string::StringExecFns;

verus! {

/// The plan from which one concrete adapter is constructed.
#[derive(Debug)]
pub enum AdapterPlan {
    /// Download a quantized weights file from the Hugging Face hub.
    HuggingFaceQuantized {
        /// The hub model identifier.
        model_id: String,
        /// The quantized weights path, exactly as declared.
        gguf_path: String,
        /// The hub access token, if any.
        hf_token: Option<String>,
    },
    /// Load a model from the Hugging Face hub.
    HuggingFaceHub {
        /// The hub model identifier.
        model_id: String,
        /// The architecture hint, if any.
        model_type: Option<String>,
        /// The hub access token, if any.
        hf_token: Option<String>,
    },
    /// Load a model from local files.
    LocalFile {
        /// The weights file paths, in declaration order.
        weights: Vec<String>,
        /// The model configuration path, if any.
        config: Option<String>,
        /// The tokenizer path, if any.
        tokenizer: Option<String>,
        /// The tokenizer configuration path, if any.
        tokenizer_config: Option<String>,
        /// An inline chat template, if any.
        chat_template: Option<String>,
    },
    /// Connect to the Anthropic chat API.
    Anthropic {
        /// The model identifier, if the source named one.
        model_id: Option<String>,
        /// The endpoint override, if any.
        endpoint: Option<String>,
        /// The API key, if given.
        api_key: Option<String>,
        /// The auth token, if given.
        auth_token: Option<String>,
    },
    /// Connect to the xAI chat API.
    Xai {
        /// The model identifier, if the source named one.
        model_id: Option<String>,
        /// The API key.
        api_key: String,
    },
    /// Connect to the OpenAI chat API.
    OpenAi {
        /// The model identifier; the adapter's default is used when absent.
        model_id: Option<String>,
        /// The endpoint override, if any.
        endpoint: Option<String>,
        /// The API key, if given.
        api_key: Option<String>,
        /// The organization identifier, if given.
        org_id: Option<String>,
        /// The project identifier, if given.
        project_id: Option<String>,
    },
    /// Connect to an Azure OpenAI deployment.
    Azure {
        /// The deployment's model identifier.
        model_id: String,
        /// The endpoint.
        endpoint: String,
        /// The API version, if given.
        api_version: Option<String>,
        /// The deployment name, if given.
        deployment_name: Option<String>,
        /// The API key, if given.
        api_key: Option<String>,
        /// The managed-identity token, if given.
        entra_token: Option<String>,
    },
}

/// The mathematical model of an [`AdapterPlan`].
pub enum AdapterPlanV {
    /// Download a quantized weights file from the Hugging Face hub.
    HuggingFaceQuantized {
        /// The hub model identifier.
        model_id: Seq<char>,
        /// The quantized weights path, exactly as declared.
        gguf_path: Seq<char>,
        /// The hub access token, if any.
        hf_token: Option<Seq<char>>,
    },
    /// Load a model from the Hugging Face hub.
    HuggingFaceHub {
        /// The hub model identifier.
        model_id: Seq<char>,
        /// The architecture hint, if any.
        model_type: Option<Seq<char>>,
        /// The hub access token, if any.
        hf_token: Option<Seq<char>>,
    },
    /// Load a model from local files.
    LocalFile {
        /// The weights file paths, in declaration order.
        weights: Seq<Seq<char>>,
        /// The model configuration path, if any.
        config: Option<Seq<char>>,
        /// The tokenizer path, if any.
        tokenizer: Option<Seq<char>>,
        /// The tokenizer configuration path, if any.
        tokenizer_config: Option<Seq<char>>,
        /// An inline chat template, if any.
        chat_template: Option<Seq<char>>,
    },
    /// Connect to the Anthropic chat API.
    Anthropic {
        /// The model identifier, if the source named one.
        model_id: Option<Seq<char>>,
        /// The endpoint override, if any.
        endpoint: Option<Seq<char>>,
        /// The API key, if given.
        api_key: Option<Seq<char>>,
        /// The auth token, if given.
        auth_token: Option<Seq<char>>,
    },
    /// Connect to the xAI chat API.
    Xai {
        /// The model identifier, if the source named one.
        model_id: Option<Seq<char>>,
        /// The API key.
        api_key: Seq<char>,
    },
    /// Connect to the OpenAI chat API.
    OpenAi {
        /// The model identifier; the adapter's default is used when absent.
        model_id: Option<Seq<char>>,
        /// The endpoint override, if any.
        endpoint: Option<Seq<char>>,
        /// The API key, if given.
        api_key: Option<Seq<char>>,
        /// The organization identifier, if given.
        org_id: Option<Seq<char>>,
        /// The project identifier, if given.
        project_id: Option<Seq<char>>,
    },
    /// Connect to an Azure OpenAI deployment.
    Azure {
        /// The deployment's model identifier.
        model_id: Seq<char>,
        /// The endpoint.
        endpoint: Seq<char>,
        /// The API version, if given.
        api_version: Option<Seq<char>>,
        /// The deployment name, if given.
        deployment_name: Option<Seq<char>>,
        /// The API key, if given.
        api_key: Option<Seq<char>>,
        /// The managed-identity token, if given.
        entra_token: Option<Seq<char>>,
    },
}

/// The model of an optional borrowed string.
pub open spec fn opt_str_view(o: Option<&str>) -> Option<Seq<char>> {
    match o {
        Some(s) => Some(s@),
        None => None,
    }
}

/// The model of an optional owned string.
pub open spec fn opt_string_view(o: Option<String>) -> Option<Seq<char>> {
    match o {
        Some(s) => Some(s@),
        None => None,
    }
}

impl View for AdapterPlan {
    type V = AdapterPlanV;

    open spec fn view(&self) -> AdapterPlanV {
        match self {
            AdapterPlan::HuggingFaceQuantized { model_id, gguf_path, hf_token } => (
            AdapterPlanV::HuggingFaceQuantized {
                model_id: model_id@,
                gguf_path: gguf_path@,
                hf_token: match hf_token {
                    Some(t) => Some(t@),
                    None => None,
                },
            }),
            AdapterPlan::HuggingFaceHub { model_id, model_type, hf_token } => (
            AdapterPlanV::HuggingFaceHub {
                model_id: model_id@,
                model_type: match model_type {
                    Some(t) => Some(t@),
                    None => None,
                },
                hf_token: match hf_token {
                    Some(t) => Some(t@),
                    None => None,
                },
            }),
            AdapterPlan::LocalFile { weights, config, tokenizer, tokenizer_config, chat_template }
                => (AdapterPlanV::LocalFile {
                weights: weights@.map_values(|s: String| s@),
                config: match config {
                    Some(t) => Some(t@),
                    None => None,
                },
                tokenizer: match tokenizer {
                    Some(t) => Some(t@),
                    None => None,
                },
                tokenizer_config: match tokenizer_config {
                    Some(t) => Some(t@),
                    None => None,
                },
                chat_template: match chat_template {
                    Some(t) => Some(t@),
                    None => None,
                },
            }),
            AdapterPlan::Anthropic { model_id, endpoint, api_key, auth_token } => (
            AdapterPlanV::Anthropic {
                model_id: match model_id {
                    Some(t) => Some(t@),
                    None => None,
                },
                endpoint: match endpoint {
                    Some(t) => Some(t@),
                    None => None,
                },
                api_key: match api_key {
                    Some(t) => Some(t@),
                    None => None,
                },
                auth_token: match auth_token {
                    Some(t) => Some(t@),
                    None => None,
                },
            }),
            AdapterPlan::Xai { model_id, api_key } => (AdapterPlanV::Xai {
                model_id: match model_id {
                    Some(t) => Some(t@),
                    None => None,
                },
                api_key: api_key@,
            }),
            AdapterPlan::OpenAi { model_id, endpoint, api_key, org_id, project_id } => (
            AdapterPlanV::OpenAi {
                model_id: match model_id {
                    Some(t) => Some(t@),
                    None => None,
                },
                endpoint: match endpoint {
                    Some(t) => Some(t@),
                    None => None,
                },
                api_key: match api_key {
                    Some(t) => Some(t@),
                    None => None,
                },
                org_id: match org_id {
                    Some(t) => Some(t@),
                    None => None,
                },
                project_id: match project_id {
                    Some(t) => Some(t@),
                    None => None,
                },
            }),
            AdapterPlan::Azure {
                model_id,
                endpoint,
                api_version,
                deployment_name,
                api_key,
                entra_token,
            } => (AdapterPlanV::Azure {
                model_id: model_id@,
                endpoint: endpoint@,
                api_version: match api_version {
                    Some(t) => Some(t@),
                    None => None,
                },
                deployment_name: match deployment_name {
                    Some(t) => Some(t@),
                    None => None,
                },
                api_key: match api_key {
                    Some(t) => Some(t@),
                    None => None,
                },
                entra_token: match entra_token {
                    Some(t) => Some(t@),
                    None => None,
                },
            }),
        }
    }
}

/// Whether the xAI contract holds: an API key is present.
pub open spec fn xai_ok(ps: Seq<ParamEntry>) -> bool {
    lookup(ps, "xai_api_key"@) is Some
}

/// The xAI plan for the given parameters.
pub open spec fn xai_plan(model_id: Option<Seq<char>>, ps: Seq<ParamEntry>) -> AdapterPlanV {
    AdapterPlanV::Xai { model_id, api_key: lookup(ps, "xai_api_key"@).unwrap() }
}

/// Plans an xAI adapter: the `xai_api_key` parameter is required.
pub fn xai(model_id: Option<&str>, params: &ParamMap) -> (r: Result<AdapterPlan, ModelError>)
    ensures
        r is Ok <==> xai_ok(params.entries@),
        r matches Ok(p) ==> p@ == xai_plan(opt_str_view(model_id), params.entries@),
        r matches Err(e) ==> e matches ModelError::FailedToLoadModel { reason } && reason@
            == "No `xai_api_key` provided for xAI model."@,
{
    match params.get_cloned("xai_api_key") {
        Some(api_key) => {
            let mid: Option<String> = match model_id {
                Some(m) => Some(m.to_owned()),
                None => None,
            };
            Ok(AdapterPlan::Xai { model_id: mid, api_key })
        },
        None => Err(ModelError::FailedToLoadModel {
            reason: "No `xai_api_key` provided for xAI model.".to_owned(),
        }),
    }
}

/// Whether the Anthropic contract holds: an API key or an auth token is
/// present.
pub open spec fn anthropic_ok(ps: Seq<ParamEntry>) -> bool {
    lookup(ps, "anthropic_api_key"@) is Some || lookup(ps, "anthropic_auth_token"@) is Some
}

/// The Anthropic plan for the given parameters.
pub open spec fn anthropic_plan(model_id: Option<Seq<char>>, ps: Seq<ParamEntry>) -> AdapterPlanV {
    AdapterPlanV::Anthropic {
        model_id,
        endpoint: lookup(ps, "endpoint"@),
        api_key: lookup(ps, "anthropic_api_key"@),
        auth_token: lookup(ps, "anthropic_auth_token"@),
    }
}

/// Plans an Anthropic adapter: one of `anthropic_api_key` or
/// `anthropic_auth_token` is required. The adapter construction itself may
/// still reject a model identifier it does not know.
pub fn anthropic(model_id: Option<&str>, params: &ParamMap) -> (r: Result<AdapterPlan, ModelError>)
    ensures
        r is Ok <==> anthropic_ok(params.entries@),
        r matches Ok(p) ==> p@ == anthropic_plan(opt_str_view(model_id), params.entries@),
        r matches Err(e) ==> e matches ModelError::FailedToLoadModel { reason } && reason@
            == "One of following `model.params` is required: `anthropic_api_key` or `anthropic_auth_token`."@,
{
    let api_key = params.get_cloned("anthropic_api_key");
    let auth_token = params.get_cloned("anthropic_auth_token");
    if api_key.is_none() && auth_token.is_none() {
        return Err(ModelError::FailedToLoadModel {
            reason:
                "One of following `model.params` is required: `anthropic_api_key` or `anthropic_auth_token`.".to_owned(),
        });
    }
    let mid: Option<String> = match model_id {
        Some(m) => Some(m.to_owned()),
        None => None,
    };
    Ok(AdapterPlan::Anthropic {
        model_id: mid,
        endpoint: params.get_cloned("endpoint"),
        api_key,
        auth_token,
    })
}

/// The last index of `c` in `s`, or `-1` if it does not occur.
pub open spec fn rfind(s: Seq<char>, c: char) -> int
    decreases s.len(),
{
    if s.len() == 0 {
        -1
    } else if s.last() == c {
        s.len() - 1
    } else {
        rfind(s.drop_last(), c)
    }
}

/// The pattern `gguf`.
pub open spec fn gguf_pat() -> Seq<char> {
    seq!['g', 'g', 'u', 'f']
}

/// Whether the path's file name has the quantized-weight extension, in
/// any ASCII case: the part of the last path component after its last
/// `.`, which must not be the component's first character.
pub open spec fn is_gguf_path(p: Seq<char>) -> bool {
    let f = p.skip(rfind(p, '/') + 1);
    let d = rfind(f, '.');
    d > 0 && matches_ci(f.skip(d + 1), gguf_pat())
}

/// The last index of `c` in `v`, if it occurs.
fn rfind_exec(v: &Vec<char>, c: char) -> (r: Option<usize>)
    ensures
        match r {
            Some(i) => rfind(v@, c) == i && i < v@.len(),
            None => rfind(v@, c) == -1,
        },
{
    let mut i: usize = v.len();
    proof {
        assert(v@.take(v@.len() as int) =~= v@);
    }
    while i > 0
        invariant
            0 <= i <= v@.len(),
            rfind(v@, c) == rfind(v@.take(i as int), c),
        decreases i,
    {
        proof {
            assert(v@.take(i as int).last() == v@[i - 1]);
            assert(v@.take(i as int).drop_last() =~= v@.take(i - 1));
        }
        if v[i - 1] == c {
            return Some(i - 1);
        }
        i -= 1;
    }
    proof {
        assert(v@.take(0) =~= Seq::<char>::empty());
    }
    None
}

/// Whether the path names a quantized weights file.
fn is_gguf_path_exec(p: &str) -> (r: bool)
    ensures
        r == is_gguf_path(p@),
{
    let cs = to_chars(p);
    let n = cs.len();
    let start: usize = match rfind_exec(&cs, '/') {
        Some(i) => i + 1,
        None => 0,
    };
    let f = copy_range(&cs, start, n);
    proof {
        assert(f@ =~= p@.skip(rfind(p@, '/') + 1));
    }
    match rfind_exec(&f, '.') {
        Some(d) => {
            if d > 0 {
                let ext = copy_range(&f, d + 1, f.len());
                proof {
                    assert(ext@ =~= f@.skip(d + 1));
                }
                let pat: Vec<char> = vec!['g', 'g', 'u', 'f'];
                proof {
                    assert(pat@ =~= gguf_pat());
                }
                ci_eq(&ext, &pat)
            } else {
                false
            }
        },
        None => false,
    }
}

/// The index of the first quantized weights path, or the length of the
/// list if there is none.
pub open spec fn find_gguf(ws: Seq<Seq<char>>, i: int) -> int
    recommends
        0 <= i <= ws.len(),
    decreases ws.len() - i,
{
    if i < 0 || i >= ws.len() {
        ws.len() as int
    } else if is_gguf_path(ws[i]) {
        i
    } else {
        find_gguf(ws, i + 1)
    }
}

/// Whether the Hugging Face contract holds: a non-empty model identifier.
pub open spec fn huggingface_ok(model_id: Option<Seq<char>>) -> bool {
    model_id matches Some(id) && id.len() > 0
}

/// The Hugging Face plan: the first declared weights path with the
/// quantized-weight extension selects the quantized route, with that
/// exact path; otherwise the hub route.
pub open spec fn huggingface_plan(
    id: Seq<char>,
    files: Seq<crate::descriptor::ModelFile>,
    ps: Seq<ParamEntry>,
) -> AdapterPlanV {
    let ws = paths_of_kind(files, FileKind::Weights);
    let g = find_gguf(ws, 0);
    if g < ws.len() {
        AdapterPlanV::HuggingFaceQuantized {
            model_id: id,
            gguf_path: ws[g],
            hf_token: lookup(ps, "hf_token"@),
        }
    } else {
        AdapterPlanV::HuggingFaceHub {
            model_id: id,
            model_type: lookup(ps, "model_type"@),
            hf_token: lookup(ps, "hf_token"@),
        }
    }
}

/// Plans a Hugging Face adapter: a non-empty model identifier is
/// required; a declared quantized weights file routes the load to that
/// exact path.
pub fn huggingface(model_id: Option<String>, component: &ModelDescriptor, params: &ParamMap) -> (r:
    Result<AdapterPlan, ModelError>)
    ensures
        r is Ok <==> huggingface_ok(opt_string_view(model_id)),
        r matches Ok(p) ==> model_id matches Some(id) && p@ == huggingface_plan(
            id@,
            component.files@,
            params.entries@,
        ),
        r matches Err(e) ==> e matches ModelError::FailedToLoadModel { reason } && reason@
            == "No model id for Huggingface model"@,
{
    let id = match model_id {
        Some(id) => id,
        None => {
            return Err(ModelError::FailedToLoadModel {
                reason: "No model id for Huggingface model".to_owned(),
            });
        },
    };
    if id.as_str().is_empty() {
        return Err(ModelError::FailedToLoadModel {
            reason: "No model id for Huggingface model".to_owned(),
        });
    }
    let weights = component.find_all_file_path(FileKind::Weights);
    let ghost ws = paths_of_kind(component.files@, FileKind::Weights);
    let n = weights.len();
    let mut i: usize = 0;
    while i < n
        invariant
            0 <= i <= n,
            n == weights@.len(),
            weights@.map_values(|s: String| s@) == ws,
            ws == paths_of_kind(component.files@, FileKind::Weights),
            find_gguf(ws, 0) == find_gguf(ws, i as int),
            opt_string_view(model_id) == Some(id@),
            id@.len() > 0,
        decreases n - i,
    {
        proof {
            assert(ws[i as int] == weights@[i as int]@);
        }
        if is_gguf_path_exec(weights[i].as_str()) {
            proof {
                assert(is_gguf_path(ws[i as int]));
                assert(find_gguf(ws, i as int) == i);
            }
            return Ok(AdapterPlan::HuggingFaceQuantized {
                model_id: id.clone(),
                gguf_path: weights[i].clone(),
                hf_token: params.get_cloned("hf_token"),
            });
        }
        proof {
            assert(find_gguf(ws, i as int) == find_gguf(ws, i + 1));
        }
        i += 1;
    }
    proof {
        assert(find_gguf(ws, n as int) == ws.len());
    }
    Ok(AdapterPlan::HuggingFaceHub {
        model_id: id,
        model_type: params.get_cloned("model_type"),
        hf_token: params.get_cloned("hf_token"),
    })
}

/// First-match characterization of the quantized-path search.
proof fn lemma_find_gguf_props(ws: Seq<Seq<char>>, k: int)
    requires
        0 <= k <= ws.len(),
    ensures
        k <= find_gguf(ws, k) <= ws.len(),
        find_gguf(ws, k) < ws.len() ==> is_gguf_path(ws[find_gguf(ws, k)]),
        forall|j: int| k <= j < find_gguf(ws, k) ==> !is_gguf_path(#[trigger] ws[j]),
    decreases ws.len() - k,
{
    if k < ws.len() && !is_gguf_path(ws[k]) {
        lemma_find_gguf_props(ws, k + 1);
    }
}

/// Law: the Hugging Face plan takes the quantized route exactly when some
/// declared weights path carries the quantized extension; the path taken
/// is then the first such path, exactly as declared. With no such path
/// the plan is the hub route, carrying the identifier, the optional
/// architecture hint and the optional token.
pub proof fn lemma_huggingface_routing(
    id: Seq<char>,
    files: Seq<crate::descriptor::ModelFile>,
    ps: Seq<ParamEntry>,
)
    ensures
        ({
            let ws = paths_of_kind(files, FileKind::Weights);
            let g = find_gguf(ws, 0);
            &&& ((exists|i: int| 0 <= i < ws.len() && is_gguf_path(#[trigger] ws[i])) <==> g
                < ws.len())
            &&& g < ws.len() ==> is_gguf_path(ws[g]) && (forall|j: int|
                0 <= j < g ==> !is_gguf_path(#[trigger] ws[j])) && huggingface_plan(id, files, ps)
                == (AdapterPlanV::HuggingFaceQuantized {
                model_id: id,
                gguf_path: ws[g],
                hf_token: lookup(ps, "hf_token"@),
            })
            &&& g == ws.len() ==> huggingface_plan(id, files, ps) == (
            AdapterPlanV::HuggingFaceHub {
                model_id: id,
                model_type: lookup(ps, "model_type"@),
                hf_token: lookup(ps, "hf_token"@),
            })
        }),
{
    let ws = paths_of_kind(files, FileKind::Weights);
    let g = find_gguf(ws, 0);
    lemma_find_gguf_props(ws, 0);
    if g < ws.len() {
        assert(is_gguf_path(ws[g]));
    }
}

/// Whether the OpenAI contract holds: a temperature override, if given,
/// reads as a non-negative float.
pub open spec fn openai_ok(ps: Seq<ParamEntry>) -> bool {
    match lookup(ps, "openai_temperature"@) {
        Some(t) => temperature_ok(t),
        None => true,
    }
}

/// The OpenAI plan for the given parameters.
pub open spec fn openai_plan(model_id: Option<Seq<char>>, ps: Seq<ParamEntry>) -> AdapterPlanV {
    AdapterPlanV::OpenAi {
        model_id,
        endpoint: lookup(ps, "endpoint"@),
        api_key: lookup(ps, "openai_api_key"@),
        org_id: lookup(ps, "openai_org_id"@),
        project_id: lookup(ps, "openai_project_id"@),
    }
}

/// Plans an OpenAI adapter: no parameter is required, but a
/// `openai_temperature` override must read as a non-negative float.
pub fn openai(model_id: Option<String>, params: &ParamMap) -> (r: Result<AdapterPlan, ModelError>)
    ensures
        r is Ok <==> openai_ok(params.entries@),
        r matches Ok(p) ==> p@ == openai_plan(opt_string_view(model_id), params.entries@),
        r matches Err(e) ==> e matches ModelError::InvalidParamError { param, message } && param@
            == "openai_temperature"@ && message@ == "Ensure it is a non-negative number."@,
{
    let temp = params.get("openai_temperature");
    if let Some(t) = temp {
        if !check_nonneg_float(t.as_str()) {
            return Err(ModelError::InvalidParamError {
                param: "openai_temperature".to_owned(),
                message: "Ensure it is a non-negative number.".to_owned(),
            });
        }
    }
    Ok(AdapterPlan::OpenAi {
        model_id,
        endpoint: params.get_cloned("endpoint"),
        api_key: params.get_cloned("openai_api_key"),
        org_id: params.get_cloned("openai_org_id"),
        project_id: params.get_cloned("openai_project_id"),
    })
}

/// Whether the Azure contract holds: a model identifier, an endpoint, and
/// exactly one of the API key and the managed-identity token.
pub open spec fn azure_ok(model_id: Option<Seq<char>>, ps: Seq<ParamEntry>) -> bool {
    &&& model_id is Some
    &&& lookup(ps, "endpoint"@) is Some
    &&& (lookup(ps, "azure_api_key"@) is Some <==> lookup(ps, "azure_entra_token"@) is None)
}

/// The Azure plan for the given parameters.
pub open spec fn azure_plan(id: Seq<char>, ps: Seq<ParamEntry>) -> AdapterPlanV {
    AdapterPlanV::Azure {
        model_id: id,
        endpoint: lookup(ps, "endpoint"@).unwrap(),
        api_version: lookup(ps, "azure_api_version"@),
        deployment_name: lookup(ps, "azure_deployment_name"@),
        api_key: lookup(ps, "azure_api_key"@),
        entra_token: lookup(ps, "azure_entra_token"@),
    }
}

/// A failure message naming the model: `Azure model '<name>'<tail>`.
fn azure_reason(name: &str, tail: &str) -> (r: String)
    ensures
        r@ == "Azure model '"@ + name@ + tail@,
{
    let mut s = "Azure model '".to_owned();
    s.append(name);
    s.append(tail);
    s
}

/// The failure message the Azure contract produces, named for its first
/// failing check: the model identifier, the endpoint, then the
/// exactly-one-of rule for the API key and the managed-identity token.
pub open spec fn azure_fail_reason(
    model_id: Option<Seq<char>>,
    model_name: Seq<char>,
    ps: Seq<ParamEntry>,
) -> Seq<char>
    recommends
        !azure_ok(model_id, ps),
{
    if model_id is None {
        "Azure model '"@ + model_name
            + "' requires a model ID in the format `from:azure:<model_id>`."@
    } else if lookup(ps, "endpoint"@) is None {
        "Azure model '"@ + model_id.unwrap() + "' requires the 'endpoint' parameter."@
    } else if lookup(ps, "azure_api_key"@) is Some && lookup(ps, "azure_entra_token"@) is Some {
        "Azure model '"@ + model_id.unwrap()
            + "' allows only one of 'azure_api_key' or 'azure_entra_token'."@
    } else {
        "Azure model '"@ + model_id.unwrap()
            + "' requires either 'azure_api_key' or 'azure_entra_token'."@
    }
}

/// Plans an Azure OpenAI adapter: the model identifier and the `endpoint`
/// parameter are required, and exactly one of `azure_api_key` and
/// `azure_entra_token` must be given. Every failure names the model.
pub fn azure(model_id: Option<String>, model_name: &str, params: &ParamMap) -> (r: Result<
    AdapterPlan,
    ModelError,
>)
    ensures
        r is Ok <==> azure_ok(opt_string_view(model_id), params.entries@),
        r matches Ok(p) ==> model_id matches Some(id) && p@ == azure_plan(id@, params.entries@),
        r matches Err(e) ==> (e matches ModelError::FailedToLoadModel { reason } && reason@
            == azure_fail_reason(opt_string_view(model_id), model_name@, params.entries@)),
{
    let id = match model_id {
        Some(id) => id,
        None => {
            return Err(ModelError::FailedToLoadModel {
                reason: azure_reason(
                    model_name,
                    "' requires a model ID in the format `from:azure:<model_id>`.",
                ),
            });
        },
    };
    let endpoint = match params.get_cloned("endpoint") {
        Some(e) => e,
        None => {
            return Err(ModelError::FailedToLoadModel {
                reason: azure_reason(id.as_str(), "' requires the 'endpoint' parameter."),
            });
        },
    };
    let api_key = params.get_cloned("azure_api_key");
    let entra_token = params.get_cloned("azure_entra_token");
    if api_key.is_some() && entra_token.is_some() {
        return Err(ModelError::FailedToLoadModel {
            reason: azure_reason(
                id.as_str(),
                "' allows only one of 'azure_api_key' or 'azure_entra_token'.",
            ),
        });
    }
    if api_key.is_none() && entra_token.is_none() {
        return Err(ModelError::FailedToLoadModel {
            reason: azure_reason(
                id.as_str(),
                "' requires either 'azure_api_key' or 'azure_entra_token'.",
            ),
        });
    }
    Ok(AdapterPlan::Azure {
        model_id: id,
        endpoint,
        api_version: params.get_cloned("azure_api_version"),
        deployment_name: params.get_cloned("azure_deployment_name"),
        api_key,
        entra_token,
    })
}

/// Whether the local-file contract holds: at least one weights file.
pub open spec fn file_ok(files: Seq<crate::descriptor::ModelFile>) -> bool {
    paths_of_kind(files, FileKind::Weights).len() > 0
}

/// The local-file plan for the given descriptor and parameters.
pub open spec fn file_plan(
    files: Seq<crate::descriptor::ModelFile>,
    ps: Seq<ParamEntry>,
) -> AdapterPlanV {
    AdapterPlanV::LocalFile {
        weights: paths_of_kind(files, FileKind::Weights),
        config: first_path_of_kind(files, FileKind::Config),
        tokenizer: first_path_of_kind(files, FileKind::Tokenizer),
        tokenizer_config: first_path_of_kind(files, FileKind::TokenizerConfig),
        chat_template: lookup(ps, "chat_template"@),
    }
}

/// Plans a local-file adapter: at least one weights file is required; the
/// other file references and the inline chat template are optional.
pub fn local_file(component: &ModelDescriptor, params: &ParamMap) -> (r: Result<AdapterPlan, ModelError>)
    ensures
        r is Ok <==> file_ok(component.files@),
        r matches Ok(p) ==> p@ == file_plan(component.files@, params.entries@),
        r matches Err(e) ==> e matches ModelError::FailedToLoadModel { reason } && reason@
            == "No 'weights_path' parameter provided"@,
{
    let weights = component.find_all_file_path(FileKind::Weights);
    if weights.is_empty() {
        proof {
            assert(paths_of_kind(component.files@, FileKind::Weights).len() == weights@.map_values(
                |s: String| s@,
            ).len());
        }
        return Err(ModelError::FailedToLoadModel {
            reason: "No 'weights_path' parameter provided".to_owned(),
        });
    }
    Ok(AdapterPlan::LocalFile {
        weights,
        config: component.find_any_file_path(FileKind::Config),
        tokenizer: component.find_any_file_path(FileKind::Tokenizer),
        tokenizer_config: component.find_any_file_path(FileKind::TokenizerConfig),
        chat_template: params.get_cloned("chat_template"),
    })
}

} // verus!
