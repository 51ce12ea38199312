use llm_infer_cal_core::detector::detect;
use llm_infer_cal_core::evaluation::{evaluate_artifact, EvaluationOptions, EvaluationReport};
use llm_infer_cal_core::explain::{build, explain_fits_check, ExplainInput};
use llm_infer_cal_core::hardware::{lookup_in, GPUDatabase, GPUSpec};
use llm_infer_cal_core::json::{JsonNumber, JsonValue};
use llm_infer_cal_core::sources::{ModelArtifact, SiblingFile};

fn obj(members: Vec<(&str, JsonValue)>) -> JsonValue {
    JsonValue::Object(members.into_iter().map(|(k, v)| (k.to_string(), v)).collect())
}

fn num(value: u64) -> JsonValue {
    JsonValue::Number(JsonNumber::Unsigned(value))
}

fn text(value: &str) -> JsonValue {
    JsonValue::Text(value.to_string())
}

fn database() -> GPUDatabase {
    GPUDatabase {
        schema_version: 1,
        gpus: vec![GPUSpec {
            id: "H800".to_string(),
            aliases: Vec::new(),
            memory_gb: 80,
            nvlink_bandwidth_gbps: 400,
            memory_bandwidth_gbps: Some(3350),
            fp16_tflops_milli: 989_000,
            fp8_support: true,
            fp4_support: false,
            notes_en: None,
            notes_zh: None,
            spec_source: Some("test".to_string()),
        }],
    }
}

fn artifact() -> ModelArtifact {
    ModelArtifact {
        source: "huggingface".to_string(),
        model_id: "test/llama-mini".to_string(),
        commit_sha: Some("abc1234def".to_string()),
        config: obj(vec![
            ("model_type", text("llama")),
            ("architectures", JsonValue::Array(vec![text("LlamaForCausalLM")])),
            ("num_hidden_layers", num(2)),
            ("hidden_size", num(16)),
            ("vocab_size", num(100)),
            ("num_attention_heads", num(4)),
            ("num_key_value_heads", num(2)),
            ("intermediate_size", num(64)),
            ("max_position_embeddings", num(8192)),
        ]),
        siblings: vec![
            SiblingFile {
                filename: "model-00001-of-00002.safetensors".to_string(),
                size: Some(5_472),
            },
            SiblingFile {
                filename: "model-00002-of-00002.safetensors".to_string(),
                size: Some(5_472),
            },
        ],
    }
}

fn report<'a>(artifact: &ModelArtifact, db: &'a GPUDatabase) -> EvaluationReport<'a> {
    let options = EvaluationOptions {
        gpu_count: None,
        context_length: Some(4096),
        refresh: false,
        input_tokens: Some(512),
        output_tokens: None,
    };
    evaluate_artifact(
        artifact,
        "test/llama-mini",
        "H800",
        "vllm",
        detect(&artifact.config),
        None,
        lookup_in(db, "H800"),
        None,
        &options,
    )
}

#[test]
fn build_emits_explain_entries_in_report_order() {
    let a = artifact();
    let db = database();
    let r = report(&a, &db);
    assert!(explain_fits_check(&r));
    let entries = build(&r);
    let headings = entries.iter().map(|entry| entry.heading.as_str()).collect::<Vec<_>>();

    assert_eq!(
        headings,
        vec![
            "Weight bytes (safetensors file sum)",
            "Quantization scheme (reconciliation)",
            "KV cache @ 4K context",
            "Fleet tier: min (1 GPUs)",
            "Fleet tier: dev (1 GPUs)",
            "Fleet tier: prod (1 GPUs)",
        ]
    );

    assert_eq!(
        entries[0].formula,
        "sum(file.size for file in model_source.file_metadata if file.endswith('.safetensors'))"
    );
    assert_eq!(entries[0].inputs[0].value, "source=huggingface, sha=abc1234def");
    assert_eq!(entries[0].steps[0], "Raw value from API = 10,944 bytes");
    assert_eq!(entries[0].result, "10,944 bytes [verified]");

    assert_eq!(entries[1].inputs[0].name, "observed_bytes");
    assert!(entries[1].steps[1].contains("FP8"));
    assert_eq!(entries[2].inputs[0].name, "num_kv_heads");
    assert_eq!(entries[2].result, "262,144 bytes = 0.00 GB [estimated]");
}

#[test]
fn build_skips_fleet_and_perf_sections_when_gpu_is_unknown() {
    let a = artifact();
    let db = database();
    let mut r = report(&a, &db);
    r.gpu_spec = None;
    r.fleet = None;

    let headings = build(&r).into_iter().map(|entry| entry.heading).collect::<Vec<_>>();

    assert_eq!(
        headings,
        vec![
            "Weight bytes (safetensors file sum)",
            "Quantization scheme (reconciliation)",
            "KV cache @ 4K context",
        ]
    );
}

#[test]
fn explain_entries_carry_exact_steps() {
    let a = artifact();
    let db = database();
    let r = report(&a, &db);
    let entries = build(&r);
    assert_eq!(entries[0].steps[1], "= 0.00 GB");
    assert_eq!(entries[2].steps[0], "per_tok_per_layer = 32 bytes");
    assert_eq!(entries[2].steps[2], "result = baseline = 262,144 bytes");
    assert_eq!(entries[3].steps[1], "parallel layout = TP1");
    assert_eq!(entries[3].result, "1 GPUs, fit=true");
    assert_eq!(entries[3].inputs[1].value, "[1, 2, 4]");
    assert!(entries[1].steps[1].starts_with("      FP8              predicted=0.00 GB  error="));
    let input = ExplainInput::with_note("a", "b", "c", "d");
    assert_eq!(input.note, "d");
}
