use llm_infer_cal_core::auth::{
    get_hf_token_from_values, get_modelscope_token_from_values, hf_auth_error_message,
    modelscope_auth_error_message,
};
use llm_infer_cal_core::json::{JsonNumber, JsonValue};
use llm_infer_cal_core::sources::{
    find_builtin, AuthRequiredError, BuiltinModel, ModelNotFoundError, ModelSourceError, SiblingFile,
    SourceUnavailableError,
};

#[test]
fn auth_token_priority_matches_rust_contract() {
    let hf = [
        ("HF_TOKEN", Some("hf-primary")),
        ("HUGGING_FACE_HUB_TOKEN", Some("hf-legacy")),
    ];
    let hf_fallback = [
        ("HF_TOKEN", None),
        ("HUGGING_FACE_HUB_TOKEN", Some("hf-legacy")),
    ];
    let ms = [
        ("MODELSCOPE_API_TOKEN", Some("ms-primary")),
        ("MODELSCOPE_TOKEN", Some("ms-legacy")),
    ];
    let ms_fallback = [
        ("MODELSCOPE_API_TOKEN", None),
        ("MODELSCOPE_TOKEN", Some("ms-legacy")),
    ];

    assert_eq!(
        get_hf_token_from_values(&hf),
        Some("hf-primary".to_string())
    );
    assert_eq!(
        get_hf_token_from_values(&hf_fallback),
        Some("hf-legacy".to_string())
    );
    assert_eq!(
        get_modelscope_token_from_values(&ms),
        Some("ms-primary".to_string())
    );
    assert_eq!(
        get_modelscope_token_from_values(&ms_fallback),
        Some("ms-legacy".to_string())
    );
}

#[test]
fn empty_tokens_count_as_unset() {
    let empty_primary = [("HF_TOKEN", Some("")), ("HUGGING_FACE_HUB_TOKEN", Some("hf-legacy"))];
    let nothing = [("HF_TOKEN", Some("")), ("HUGGING_FACE_HUB_TOKEN", Some(""))];
    assert_eq!(get_hf_token_from_values(&empty_primary), Some("hf-legacy".to_string()));
    assert_eq!(get_hf_token_from_values(&nothing), None);
    assert_eq!(get_modelscope_token_from_values(&[]), None);
}

#[test]
fn auth_error_messages_match_user_facing_text() {
    let hf = hf_auth_error_message("meta/llama");
    let ms = modelscope_auth_error_message("Qwen/Qwen3");

    assert!(hf.contains("Model 'meta/llama' requires authentication"));
    assert!(hf.contains("HF_TOKEN"));
    assert!(ms.contains("模型 'Qwen/Qwen3' 需要登录"));
    assert!(ms.contains("MODELSCOPE_API_TOKEN"));
}

#[test]
fn model_source_errors_display_message() {
    assert_eq!(
        ModelNotFoundError("missing".to_string()).to_string(),
        "missing"
    );
    assert_eq!(
        AuthRequiredError("private".to_string()).to_string(),
        "private"
    );
    assert_eq!(
        SourceUnavailableError("timeout".to_string()).to_string(),
        "timeout"
    );
    assert_eq!(
        ModelSourceError::AuthRequired(AuthRequiredError("gated".to_string())).to_string(),
        "gated"
    );
}

fn builtin(id: &str, aliases: &[&str], layers: u64) -> BuiltinModel {
    BuiltinModel {
        id: id.to_string(),
        aliases: aliases.iter().map(|a| a.to_string()).collect(),
        commit_sha: Some(format!("sha-{id}")),
        config: JsonValue::Object(vec![(
            "num_hidden_layers".to_string(),
            JsonValue::Number(JsonNumber::Unsigned(layers)),
        )]),
        siblings: vec![SiblingFile { filename: "model.safetensors".to_string(), size: Some(layers) }],
    }
}

fn catalog() -> Vec<BuiltinModel> {
    vec![
        builtin("Qwen/Qwen3.6-35B-A3B", &[], 40),
        builtin("ZhipuAI/GLM-5.2", &["zai-org/GLM-5.2"], 78),
        builtin("zai-org/GLM-5.2", &[], 1),
    ]
}

#[test]
fn builtin_lookup_by_id_and_alias() {
    let a = find_builtin(catalog(), "Qwen/Qwen3.6-35B-A3B").ok().unwrap();
    assert_eq!(a.source, "builtin");
    assert_eq!(a.model_id, "Qwen/Qwen3.6-35B-A3B");
    assert_eq!(a.commit_sha.as_deref(), Some("sha-Qwen/Qwen3.6-35B-A3B"));
    assert_eq!(a.siblings[0].size, Some(40));

    // The alias of an earlier model wins over a later model's id.
    let b = find_builtin(catalog(), "zai-org/GLM-5.2").ok().unwrap();
    assert_eq!(b.model_id, "ZhipuAI/GLM-5.2");
    assert_eq!(b.siblings[0].size, Some(78));
}

#[test]
fn builtin_lookup_reports_missing_models() {
    match find_builtin(catalog(), "meta/Llama-4") {
        Err(ModelSourceError::NotFound(e)) => {
            assert_eq!(e.0, "Model 'meta/Llama-4' is not in the built-in catalog.")
        }
        _ => panic!("expected a not-found error"),
    }
    assert!(find_builtin(Vec::new(), "x").is_err());
}
