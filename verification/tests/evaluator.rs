use llm_infer_cal_core::detector::detect;
use llm_infer_cal_core::evaluation::{
    chosen_gpu_count, evaluate_artifact, evaluation_fits_check, fingerprint_matches_bytes,
    config_fingerprint_stands, sample_revision, select_context_lengths, settle_fingerprint, EvaluationOptions,
};
use llm_infer_cal_core::fingerprint::{QuantFingerprint, SourceType};
use llm_infer_cal_core::hardware::{lookup_in, GPUDatabase, GPUSpec};
use llm_infer_cal_core::json::{JsonNumber, JsonValue};
use llm_infer_cal_core::quant::QuantizationScheme;
use llm_infer_cal_core::sources::{ModelArtifact, SiblingFile};

fn obj(members: Vec<(&str, JsonValue)>) -> JsonValue {
    JsonValue::Object(members.into_iter().map(|(k, v)| (k.to_string(), v)).collect())
}

fn num(value: u64) -> JsonValue {
    JsonValue::Number(JsonNumber::Unsigned(value))
}

fn text(value: &str) -> JsonValue {
    JsonValue::Text(value.to_string())
}

fn database() -> GPUDatabase {
    GPUDatabase {
        schema_version: 1,
        gpus: vec![GPUSpec {
            id: "H800".to_string(),
            aliases: Vec::new(),
            memory_gb: 80,
            nvlink_bandwidth_gbps: 400,
            memory_bandwidth_gbps: Some(3350),
            fp16_tflops_milli: 989_000,
            fp8_support: true,
            fp4_support: false,
            notes_en: None,
            notes_zh: None,
            spec_source: Some("test".to_string()),
        }],
    }
}

fn llama_artifact() -> ModelArtifact {
    ModelArtifact {
        source: "huggingface".to_string(),
        model_id: "test/llama-mini".to_string(),
        commit_sha: Some("abc1234def".to_string()),
        config: obj(vec![
            ("model_type", text("llama")),
            ("architectures", JsonValue::Array(vec![text("LlamaForCausalLM")])),
            ("num_hidden_layers", num(2)),
            ("hidden_size", num(16)),
            ("vocab_size", num(100)),
            ("num_attention_heads", num(4)),
            ("num_key_value_heads", num(2)),
            ("intermediate_size", num(64)),
            ("max_position_embeddings", num(8192)),
        ]),
        siblings: vec![
            SiblingFile {
                filename: "model-00001-of-00002.safetensors".to_string(),
                size: Some(5_472),
            },
            SiblingFile {
                filename: "model-00002-of-00002.safetensors".to_string(),
                size: Some(5_472),
            },
            SiblingFile {
                filename: "tokenizer.json".to_string(),
                size: Some(100),
            },
        ],
    }
}

#[test]
fn evaluate_composes_python_pipeline_for_known_gpu() {
    let artifact = llama_artifact();
    let db = database();
    let profile = detect(&artifact.config);
    let options = EvaluationOptions {
        gpu_count: Some(2),
        context_length: Some(4096),
        refresh: false,
        input_tokens: Some(123),
        output_tokens: Some(45),
    };
    assert!(evaluation_fits_check(&profile, &artifact.siblings, options.context_length));
    let report = evaluate_artifact(
        &artifact,
        "test/llama-mini",
        "H800",
        "sglang",
        profile,
        None,
        lookup_in(&db, "H800"),
        None,
        &options,
    );

    assert_eq!(report.model_id, "test/llama-mini");
    assert_eq!(report.source, "huggingface");
    assert_eq!(report.commit_sha.as_deref(), Some("abc1234def"));
    assert_eq!(report.engine, "sglang");
    assert_eq!(report.profile.model_type, "llama");
    assert_eq!(report.weight.total_bytes.value, 10_944);
    assert_eq!(report.total_params_estimate.value, 10_944);
    assert_eq!(
        report.kv_cache_by_context.iter().map(|(ctx, _)| *ctx).collect::<Vec<_>>(),
        vec![4096]
    );
    assert_eq!(report.gpu_spec.unwrap().id, "H800");
    assert_eq!(report.fleet.as_ref().unwrap().options.len(), 1);
    assert_eq!(report.fleet.as_ref().unwrap().options[0].gpu_count, 2);
    assert!(report.generated_command.as_deref().unwrap().contains("--context-length 4096"));
    assert!(report.generated_command.as_deref().unwrap().contains("--tp 2"));
    assert_eq!(report.perf_input_tokens, Some(123));
    assert_eq!(report.perf_output_tokens, Some(45));
}

#[test]
fn evaluate_embeds_unknown_gpu_error_without_aborting() {
    let artifact = llama_artifact();
    let db = database();
    let profile = detect(&artifact.config);
    let options = EvaluationOptions::default();
    let report = evaluate_artifact(
        &artifact,
        "test/llama-mini",
        "ImaginaryGPU",
        "vllm",
        profile,
        None,
        lookup_in(&db, "ImaginaryGPU"),
        None,
        &options,
    );

    assert!(report.gpu_spec.is_none());
    assert!(report.gpu_error.as_deref().unwrap_or("").contains("Unknown GPU"));
    assert!(report.fleet.is_none());
    assert!(report.generated_command.is_none());
    assert_eq!(report.perf_input_tokens, None);
}

#[test]
fn default_context_lengths_stop_at_the_model_maximum() {
    let artifact = llama_artifact();
    let profile = detect(&artifact.config);
    assert_eq!(select_context_lengths(&profile, None), vec![4096]);
    let long = detect(&obj(vec![
        ("model_type", text("llama")),
        ("num_hidden_layers", num(2)),
        ("hidden_size", num(16)),
        ("max_position_embeddings", num(1_048_576)),
    ]));
    assert_eq!(select_context_lengths(&long, None), vec![4096, 32768, 131_072, 1_048_576]);
    assert_eq!(select_context_lengths(&long, Some(100)), vec![100]);
}

#[test]
fn vllm_command_uses_the_chosen_layout() {
    let artifact = llama_artifact();
    let db = database();
    let profile = detect(&artifact.config);
    let options = EvaluationOptions::default();
    let report = evaluate_artifact(
        &artifact,
        "test/llama-mini",
        "h800",
        " VLLM ",
        profile,
        None,
        lookup_in(&db, "h800"),
        None,
        &options,
    );
    let fleet = report.fleet.as_ref().unwrap();
    let n = chosen_gpu_count(fleet, None);
    assert!(report
        .generated_command
        .as_deref()
        .unwrap()
        .starts_with("vllm serve test/llama-mini"));
    assert!(report
        .generated_command
        .as_deref()
        .unwrap()
        .contains(&format!("--tensor-parallel-size {}", n)));
    assert!(report.generated_command.as_deref().unwrap().contains("--max-model-len 8192"));
}

#[test]
fn fingerprint_agreement_and_revision() {
    let fp = QuantFingerprint {
        scheme: QuantizationScheme::Fp8,
        source_type: SourceType::ConfigJson,
        evidence: "fp8".to_string(),
    };
    assert!(fingerprint_matches_bytes(&fp, 1_100, 1_000));
    assert!(!fingerprint_matches_bytes(&fp, 2_000, 1_000));
    assert!(fingerprint_matches_bytes(&fp, 0, 1_000));
    let mut artifact = llama_artifact();
    assert_eq!(sample_revision(&artifact), "abc1234def");
    artifact.commit_sha = None;
    assert_eq!(sample_revision(&artifact), "main");
    artifact.source = "modelscope".to_string();
    assert_eq!(sample_revision(&artifact), "master");
}

#[test]
fn settle_fingerprint_prefers_the_header() {
    let config_fp = || QuantFingerprint {
        scheme: QuantizationScheme::Fp8,
        source_type: SourceType::ConfigJson,
        evidence: "config".to_string(),
    };
    let gptq = vec![
        ("model.layers.0.qweight".to_string(), "I32".to_string()),
        ("model.layers.0.g_idx".to_string(), "I32".to_string()),
    ];
    let settled = settle_fingerprint(Some(config_fp()), Some(gptq)).unwrap();
    assert_eq!(settled.scheme, QuantizationScheme::GptqInt4);
    assert_eq!(settled.source_type, SourceType::SafetensorsHeader);

    let kept = settle_fingerprint(Some(config_fp()), None).unwrap();
    assert_eq!(kept.scheme, QuantizationScheme::Fp8);
    assert_eq!(kept.source_type, SourceType::ConfigJson);

    let silent = vec![("model.layers.0.weight".to_string(), "F32".to_string())];
    assert!(settle_fingerprint(None, Some(silent)).is_none());
}

#[test]
fn config_fingerprint_stands_when_bytes_agree() {
    let artifact = llama_artifact();
    let profile = detect(&artifact.config);
    let total = llm_infer_cal_core::weight::estimate_total_params(&profile).value;
    assert!(!config_fingerprint_stands(&None, &profile, &artifact.siblings));
    for scheme in [QuantizationScheme::Fp16, QuantizationScheme::Fp8, QuantizationScheme::Int4] {
        let fp = QuantFingerprint { scheme, source_type: SourceType::ConfigJson, evidence: String::new() };
        let expected = fingerprint_matches_bytes(&fp, 10_944, total);
        assert_eq!(config_fingerprint_stands(&Some(fp), &profile, &artifact.siblings), expected);
    }
}
