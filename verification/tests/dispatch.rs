use chat_runtime::descriptor::{FileKind, ModelDescriptor, ModelFile};
use chat_runtime::dispatch::{construct_model, try_to_chat_model, ToolPlan};
use chat_runtime::error::ModelError;
use chat_runtime::params::ParamMap;
use chat_runtime::providers::{anthropic, azure, huggingface, local_file, openai, xai, AdapterPlan};
use chat_runtime::source::{parse_source, BackendSelector};

fn params(pairs: &[(&str, &str)]) -> ParamMap {
    let mut m = ParamMap::new();
    for (k, v) in pairs {
        m.insert(k.to_string(), v.to_string());
    }
    m
}

fn descriptor(name: &str, from: &str, files: Vec<ModelFile>) -> ModelDescriptor {
    ModelDescriptor {
        name: name.to_string(),
        from: from.to_string(),
        params: ParamMap::new(),
        defaults: Vec::new(),
        files,
    }
}

fn weights_file(path: &str) -> ModelFile {
    ModelFile { kind: FileKind::Weights, path: path.to_string() }
}

#[test]
fn source_prefix_and_id_split() {
    let (sel, id) = parse_source("openai:gpt-4o");
    assert_eq!(sel, Some(BackendSelector::OpenAi));
    assert_eq!(id.as_deref(), Some("gpt-4o"));

    let (sel2, id2) = parse_source("anthropic");
    assert_eq!(sel2, Some(BackendSelector::Anthropic));
    assert!(id2.is_none());

    let (sel3, _) = parse_source("spiceai");
    assert_eq!(sel3, Some(BackendSelector::Unsupported));

    let (sel4, _) = parse_source("mystery:model");
    assert!(sel4.is_none());
}

#[test]
fn azure_both_key_and_token_fails() {
    let p = params(&[
        ("endpoint", "https://example.net"),
        ("azure_api_key", "SECRET-REDACTED"),
        ("azure_entra_token", "SECRET-REDACTED"),
    ]);
    let r = azure(Some("gpt-4o".to_string()), "my-model", &p);
    match r {
        Err(ModelError::FailedToLoadModel { reason }) => {
            assert_eq!(
                reason,
                "Azure model 'gpt-4o' allows only one of 'azure_api_key' or 'azure_entra_token'."
            );
        }
        other => panic!("expected FailedToLoadModel, got {other:?}"),
    }
}

#[test]
fn azure_neither_key_nor_token_fails() {
    let p = params(&[("endpoint", "https://example.net")]);
    let r = azure(Some("gpt-4o".to_string()), "my-model", &p);
    match r {
        Err(ModelError::FailedToLoadModel { reason }) => {
            assert_eq!(
                reason,
                "Azure model 'gpt-4o' requires either 'azure_api_key' or 'azure_entra_token'."
            );
        }
        other => panic!("expected FailedToLoadModel, got {other:?}"),
    }
}

#[test]
fn azure_exactly_one_succeeds() {
    let p = params(&[("endpoint", "https://example.net"), ("azure_api_key", "SECRET-REDACTED")]);
    let r = azure(Some("gpt-4o".to_string()), "my-model", &p);
    match r {
        Ok(AdapterPlan::Azure { model_id, endpoint, api_key, entra_token, .. }) => {
            assert_eq!(model_id, "gpt-4o");
            assert_eq!(endpoint, "https://example.net");
            assert!(api_key.is_some());
            assert!(entra_token.is_none());
        }
        other => panic!("expected an Azure plan, got {other:?}"),
    }

    let p2 = params(&[("endpoint", "https://example.net"), ("azure_entra_token", "SECRET-REDACTED")]);
    assert!(azure(Some("gpt-4o".to_string()), "my-model", &p2).is_ok());
}

#[test]
fn azure_missing_endpoint_fails() {
    let p = params(&[("azure_api_key", "SECRET-REDACTED")]);
    let r = azure(Some("gpt-4o".to_string()), "my-model", &p);
    match r {
        Err(ModelError::FailedToLoadModel { reason }) => {
            assert_eq!(reason, "Azure model 'gpt-4o' requires the 'endpoint' parameter.");
        }
        other => panic!("expected FailedToLoadModel, got {other:?}"),
    }
}

#[test]
fn azure_missing_model_id_names_the_model() {
    let p = params(&[("endpoint", "https://example.net"), ("azure_api_key", "SECRET-REDACTED")]);
    let r = azure(None, "my-model", &p);
    match r {
        Err(ModelError::FailedToLoadModel { reason }) => {
            assert_eq!(
                reason,
                "Azure model 'my-model' requires a model ID in the format `from:azure:<model_id>`."
            );
        }
        other => panic!("expected FailedToLoadModel, got {other:?}"),
    }
}

#[test]
fn openai_negative_temperature_is_invalid() {
    let p = params(&[("openai_temperature", "-1")]);
    let r = openai(None, &p);
    match r {
        Err(ModelError::InvalidParamError { param, message }) => {
            assert_eq!(param, "openai_temperature");
            assert_eq!(message, "Ensure it is a non-negative number.");
        }
        other => panic!("expected InvalidParamError, got {other:?}"),
    }
}

#[test]
fn openai_valid_temperature_succeeds() {
    let p = params(&[("openai_temperature", "0.7"), ("openai_api_key", "SECRET-REDACTED")]);
    let r = openai(Some("gpt-4o".to_string()), &p);
    match r {
        Ok(AdapterPlan::OpenAi { model_id, api_key, .. }) => {
            assert_eq!(model_id.as_deref(), Some("gpt-4o"));
            assert!(api_key.is_some());
        }
        other => panic!("expected an OpenAi plan, got {other:?}"),
    }
}

#[test]
fn openai_absent_temperature_succeeds() {
    let r = openai(None, &params(&[]));
    match r {
        Ok(AdapterPlan::OpenAi { model_id, endpoint, .. }) => {
            assert!(model_id.is_none());
            assert!(endpoint.is_none());
        }
        other => panic!("expected an OpenAi plan, got {other:?}"),
    }
}

#[test]
fn huggingface_gguf_weight_routes_quantized() {
    let c = descriptor(
        "hf",
        "huggingface:org/model",
        vec![weights_file("other/readme.txt"), weights_file("model.Q4.gguf")],
    );
    let r = huggingface(Some("org/model".to_string()), &c, &params(&[]));
    match r {
        Ok(AdapterPlan::HuggingFaceQuantized { model_id, gguf_path, .. }) => {
            assert_eq!(model_id, "org/model");
            assert_eq!(gguf_path, "model.Q4.gguf");
        }
        other => panic!("expected a quantized plan, got {other:?}"),
    }
}

#[test]
fn huggingface_without_gguf_routes_hub() {
    let c = descriptor("hf", "huggingface:org/model", vec![weights_file("model.safetensors")]);
    let p = params(&[("model_type", "llama"), ("hf_token", "SECRET-REDACTED")]);
    let r = huggingface(Some("org/model".to_string()), &c, &p);
    match r {
        Ok(AdapterPlan::HuggingFaceHub { model_id, model_type, hf_token }) => {
            assert_eq!(model_id, "org/model");
            assert_eq!(model_type.as_deref(), Some("llama"));
            assert!(hf_token.is_some());
        }
        other => panic!("expected a hub plan, got {other:?}"),
    }
}

#[test]
fn huggingface_extension_match_ignores_case() {
    let c = descriptor("hf", "huggingface:org/model", vec![weights_file("weights/model.GGUF")]);
    let r = huggingface(Some("org/model".to_string()), &c, &params(&[]));
    assert!(matches!(r, Ok(AdapterPlan::HuggingFaceQuantized { .. })));
    // A hidden file whose only dot is the leading one has no extension.
    let c2 = descriptor("hf", "huggingface:org/model", vec![weights_file(".gguf")]);
    let r2 = huggingface(Some("org/model".to_string()), &c2, &params(&[]));
    assert!(matches!(r2, Ok(AdapterPlan::HuggingFaceHub { .. })));
}

#[test]
fn huggingface_first_quantized_path_wins() {
    let c = descriptor(
        "hf",
        "huggingface:org/model",
        vec![weights_file("a.gguf"), weights_file("b.gguf")],
    );
    let r = huggingface(Some("org/model".to_string()), &c, &params(&[]));
    match r {
        Ok(AdapterPlan::HuggingFaceQuantized { gguf_path, .. }) => assert_eq!(gguf_path, "a.gguf"),
        other => panic!("expected a quantized plan, got {other:?}"),
    }
}

#[test]
fn huggingface_extension_must_be_last() {
    // The extension is what follows the last dot of the file name.
    let c = descriptor("hf", "huggingface:org/model", vec![weights_file("model.gguf.bak")]);
    let r = huggingface(Some("org/model".to_string()), &c, &params(&[]));
    assert!(matches!(r, Ok(AdapterPlan::HuggingFaceHub { .. })));
    // A dot in a directory name is not an extension of the file.
    let c2 = descriptor("hf", "huggingface:org/model", vec![weights_file("some.gguf/weights")]);
    let r2 = huggingface(Some("org/model".to_string()), &c2, &params(&[]));
    assert!(matches!(r2, Ok(AdapterPlan::HuggingFaceHub { .. })));
}

#[test]
fn huggingface_empty_id_fails() {
    let c = descriptor("hf", "huggingface:", Vec::new());
    let r = huggingface(Some(String::new()), &c, &params(&[]));
    assert!(matches!(r, Err(ModelError::FailedToLoadModel { .. })));
}

#[test]
fn huggingface_missing_id_fails() {
    let c = descriptor("hf", "huggingface", Vec::new());
    let r = huggingface(None, &c, &params(&[]));
    match r {
        Err(ModelError::FailedToLoadModel { reason }) => {
            assert_eq!(reason, "No model id for Huggingface model");
        }
        other => panic!("expected FailedToLoadModel, got {other:?}"),
    }
}

#[test]
fn xai_requires_api_key() {
    match xai(Some("grok-3"), &params(&[])) {
        Err(ModelError::FailedToLoadModel { reason }) => {
            assert_eq!(reason, "No `xai_api_key` provided for xAI model.");
        }
        other => panic!("expected FailedToLoadModel, got {other:?}"),
    }
    match xai(Some("grok-3"), &params(&[("xai_api_key", "SECRET-REDACTED")])) {
        Ok(AdapterPlan::Xai { model_id, .. }) => {
            assert_eq!(model_id.as_deref(), Some("grok-3"));
        }
        other => panic!("expected an Xai plan, got {other:?}"),
    }
}

#[test]
fn anthropic_requires_key_or_token() {
    assert!(matches!(
        anthropic(None, &params(&[])),
        Err(ModelError::FailedToLoadModel { .. })
    ));
    match anthropic(Some("sonnet-large"), &params(&[("anthropic_auth_token", "SECRET-REDACTED")])) {
        Ok(AdapterPlan::Anthropic { model_id, api_key, auth_token, .. }) => {
            assert_eq!(model_id.as_deref(), Some("sonnet-large"));
            assert!(api_key.is_none());
            assert!(auth_token.is_some());
        }
        other => panic!("expected an Anthropic plan, got {other:?}"),
    }
}

#[test]
fn file_requires_weights() {
    let c = descriptor("local", "file", Vec::new());
    match local_file(&c, &params(&[])) {
        Err(ModelError::FailedToLoadModel { reason }) => {
            assert_eq!(reason, "No 'weights_path' parameter provided");
        }
        other => panic!("expected FailedToLoadModel, got {other:?}"),
    }
}

#[test]
fn file_collects_paths_in_order() {
    let c = descriptor(
        "local",
        "file",
        vec![
            weights_file("a.bin"),
            ModelFile { kind: FileKind::Tokenizer, path: "tok.json".to_string() },
            weights_file("b.bin"),
            ModelFile { kind: FileKind::Config, path: "cfg.json".to_string() },
        ],
    );
    let p = params(&[("chat_template", "{{messages}}")]);
    match local_file(&c, &p) {
        Ok(AdapterPlan::LocalFile { weights, config, tokenizer, tokenizer_config, chat_template }) => {
            assert_eq!(weights, vec!["a.bin".to_string(), "b.bin".to_string()]);
            assert_eq!(config.as_deref(), Some("cfg.json"));
            assert_eq!(tokenizer.as_deref(), Some("tok.json"));
            assert!(tokenizer_config.is_none());
            assert_eq!(chat_template.as_deref(), Some("{{messages}}"));
        }
        other => panic!("expected a LocalFile plan, got {other:?}"),
    }
}

#[test]
fn dispatch_openai_bad_temperature_scenario() {
    let c = descriptor("my-openai", "openai", Vec::new());
    let p = params(&[("openai_temperature", "abc")]);
    match construct_model(&c, &p) {
        Err(ModelError::InvalidParamError { param, .. }) => {
            assert_eq!(param, "openai_temperature");
        }
        other => panic!("expected InvalidParamError, got {other:?}"),
    }
}

#[test]
fn dispatch_unknown_source_fails() {
    let c = descriptor("m", "mystery:thing", Vec::new());
    match construct_model(&c, &params(&[])) {
        Err(ModelError::ModelSourceUnknown { from }) => assert_eq!(from, "mystery:thing"),
        other => panic!("expected ModelSourceUnknown, got {other:?}"),
    }
}

#[test]
fn dispatch_spiceai_source_is_unsupported() {
    let c = descriptor("m", "spiceai:anything", Vec::new());
    match construct_model(&c, &params(&[])) {
        Err(ModelError::UnsupportedTaskForModel { from, task }) => {
            assert_eq!(from, "spiceai");
            assert_eq!(task, "llm");
        }
        other => panic!("expected UnsupportedTaskForModel, got {other:?}"),
    }
}

#[test]
fn dispatch_builds_wrapper_config() {
    let mut c = descriptor("my-model", "openai:gpt-4o", Vec::new());
    c.params.insert("system_prompt".to_string(), "be brief".to_string());
    c.defaults.push(chat_runtime::wrapper::DefaultEntry {
        key: "seed".to_string(),
        value: chat_runtime::values::ParamValue::Int(7),
    });
    let m = construct_model(&c, &params(&[])).expect("dispatch should succeed");
    assert_eq!(m.wrapper.public_name, "my-model");
    assert_eq!(m.wrapper.system_prompt.as_deref(), Some("be brief"));
    assert_eq!(m.wrapper.defaults.len(), 1);
    assert!(matches!(m.adapter, AdapterPlan::OpenAi { .. }));
}

#[test]
fn tool_gate_enables_and_disables() {
    let c = descriptor("m", "openai", Vec::new());
    let enabled = try_to_chat_model(&c, &params(&[("tools", "auto")])).unwrap();
    match enabled.tools {
        ToolPlan::WithTools { options, recursion_limit } => {
            assert_eq!(options, "auto");
            assert!(recursion_limit.is_none());
        }
        ToolPlan::Plain => panic!("tools should be enabled"),
    }
    let disabled = try_to_chat_model(&c, &params(&[("tools", "disabled")])).unwrap();
    assert!(matches!(disabled.tools, ToolPlan::Plain));
    let absent = try_to_chat_model(&c, &params(&[])).unwrap();
    assert!(matches!(absent.tools, ToolPlan::Plain));
}

#[test]
fn tool_gate_first_key_wins() {
    let c = descriptor("m", "openai", Vec::new());
    let r = try_to_chat_model(&c, &params(&[("tools", "disabled"), ("spice_tools", "auto")]))
        .unwrap();
    assert!(matches!(r.tools, ToolPlan::Plain));
    let r2 = try_to_chat_model(&c, &params(&[("spice_tools", "nsql")])).unwrap();
    assert!(matches!(r2.tools, ToolPlan::WithTools { .. }));
}

#[test]
fn tool_recursion_limit_parses_or_fails() {
    let c = descriptor("m", "openai", Vec::new());
    let ok = try_to_chat_model(&c, &params(&[("tools", "auto"), ("tool_recursion_limit", "3")]))
        .unwrap();
    match ok.tools {
        ToolPlan::WithTools { recursion_limit, .. } => assert_eq!(recursion_limit, Some(3)),
        ToolPlan::Plain => panic!("tools should be enabled"),
    }
    let bad = try_to_chat_model(&c, &params(&[("tool_recursion_limit", "abc")]));
    match bad {
        Err(ModelError::FailedToLoadModel { reason }) => {
            assert_eq!(reason, "Invalid value specified for `tool_recursion_limit`: abc.");
        }
        other => panic!("expected FailedToLoadModel, got {other:?}"),
    }
    let negative = try_to_chat_model(&c, &params(&[("tool_recursion_limit", "-1")]));
    match negative {
        Err(ModelError::FailedToLoadModel { reason }) => {
            assert_eq!(reason, "Invalid value specified for `tool_recursion_limit`: -1.");
        }
        other => panic!("expected FailedToLoadModel, got {other:?}"),
    }
}

#[test]
fn registration_keeps_the_error_taxonomy() {
    // The top-level entry point returns the construction error unchanged,
    // so a registrant can tell the taxonomy apart without reaching into
    // the dispatcher.
    let unknown = descriptor("m", "mystery:thing", Vec::new());
    match try_to_chat_model(&unknown, &params(&[])) {
        Err(ModelError::ModelSourceUnknown { from }) => assert_eq!(from, "mystery:thing"),
        other => panic!("expected ModelSourceUnknown, got {other:?}"),
    }
    let unsupported = descriptor("m", "spiceai", Vec::new());
    match try_to_chat_model(&unsupported, &params(&[])) {
        Err(ModelError::UnsupportedTaskForModel { from, task }) => {
            assert_eq!(from, "spiceai");
            assert_eq!(task, "llm");
        }
        other => panic!("expected UnsupportedTaskForModel, got {other:?}"),
    }
    let bad_temp = descriptor("m", "openai", Vec::new());
    match try_to_chat_model(&bad_temp, &params(&[("openai_temperature", "abc")])) {
        Err(ModelError::InvalidParamError { param, .. }) => {
            assert_eq!(param, "openai_temperature");
        }
        other => panic!("expected InvalidParamError, got {other:?}"),
    }
    let no_key = descriptor("m", "xai:grok-3", Vec::new());
    match try_to_chat_model(&no_key, &params(&[])) {
        Err(ModelError::FailedToLoadModel { reason }) => {
            assert_eq!(reason, "No `xai_api_key` provided for xAI model.");
        }
        other => panic!("expected FailedToLoadModel, got {other:?}"),
    }
    let azure_bad = descriptor("my-model", "azure:gpt-4o", Vec::new());
    match try_to_chat_model(&azure_bad, &params(&[])) {
        Err(ModelError::FailedToLoadModel { reason }) => {
            assert_eq!(reason, "Azure model 'gpt-4o' requires the 'endpoint' parameter.");
        }
        other => panic!("expected FailedToLoadModel, got {other:?}"),
    }
}

#[test]
fn param_map_first_entry_wins() {
    let p = params(&[("endpoint", "first"), ("endpoint", "second")]);
    assert_eq!(p.get("endpoint").map(String::as_str), Some("first"));
    assert!(p.get("missing").is_none());
    assert!(p.contains("endpoint"));
}
