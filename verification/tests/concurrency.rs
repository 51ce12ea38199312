use llm_infer_cal_core::concurrency::{analyze_bounds, concurrency_inputs, reference_kv_bytes, Bottleneck};
use llm_infer_cal_core::detector::detect;
use llm_infer_cal_core::evaluation::{chosen_gpu_count, evaluate_artifact, evaluation_fits_check, EvaluationOptions};
use llm_infer_cal_core::hardware::{lookup_in, GPUDatabase, GPUSpec};
use llm_infer_cal_core::json::{JsonNumber, JsonValue};
use llm_infer_cal_core::sources::{ModelArtifact, SiblingFile};
use llm_infer_cal_core::labels::{AnnotatedValue, Label};

fn l_bound(cluster_tps: f64, target: f64, degradation: f64) -> AnnotatedValue<u64> {
    AnnotatedValue {
        value: (cluster_tps / target / degradation).floor() as u64,
        label: Label::Estimated,
        source: None,
    }
}

#[test]
fn concurrency_analysis_picks_tighter_bound() {
    let memory_bound = analyze_bounds(10_000, 1_000, l_bound(100.0, 1.0, 1.0));
    let bandwidth_bound = analyze_bounds(1_000_000, 1_000, l_bound(100.0, 25.0, 1.0));

    assert_eq!(memory_bound.max_concurrent.value, 10);
    assert_eq!(memory_bound.bottleneck, Bottleneck::MemoryCapacity);
    assert!(memory_bound.bottleneck_reason_zh.contains("≤"));
    assert!(memory_bound.bottleneck_reason_zh.contains("→"));
    assert_eq!(bandwidth_bound.max_concurrent.value, 4);
    assert_eq!(bandwidth_bound.bottleneck, Bottleneck::MemoryBandwidth);
    assert!(bandwidth_bound.bottleneck_reason_zh.contains("→ 带宽/算力瓶颈"));
}

#[test]
fn concurrency_without_bounds_is_insufficient_data() {
    let r = analyze_bounds(10, 0, l_bound(0.0, 1.0, 1.0));
    assert_eq!(r.k_bound.label, Label::Unknown);
    assert_eq!(r.bottleneck, Bottleneck::InsufficientData);
    assert_eq!(r.max_concurrent.value, 0);
    assert_eq!(r.max_concurrent.label, Label::Unknown);
    assert_eq!(r.max_concurrent.source.as_deref(), Some("min(K=0, L=0)"));
    let k = analyze_bounds(2_500_000, 1_000, l_bound(1e9, 1.0, 1.0));
    assert_eq!(k.k_bound.source.as_deref(), Some("2,500,000 bytes headroom / 1,000 bytes per request"));
    assert_eq!(k.bottleneck.as_str(), "memory_capacity");
}

fn obj(members: Vec<(&str, JsonValue)>) -> JsonValue {
    JsonValue::Object(members.into_iter().map(|(k, v)| (k.to_string(), v)).collect())
}

fn num(value: u64) -> JsonValue {
    JsonValue::Number(JsonNumber::Unsigned(value))
}

#[test]
fn memory_bound_inputs_come_from_the_chosen_option() {
    let db = GPUDatabase {
        schema_version: 1,
        gpus: vec![GPUSpec {
            id: "H800".to_string(),
            aliases: Vec::new(),
            memory_gb: 80,
            nvlink_bandwidth_gbps: 400,
            memory_bandwidth_gbps: Some(3350),
            fp16_tflops_milli: 989_000,
            fp8_support: true,
            fp4_support: false,
            notes_en: None,
            notes_zh: None,
            spec_source: None,
        }],
    };
    let artifact = ModelArtifact {
        source: "huggingface".to_string(),
        model_id: "t/m".to_string(),
        commit_sha: None,
        config: obj(vec![
            ("model_type", JsonValue::Text("llama".to_string())),
            ("num_hidden_layers", num(2)),
            ("hidden_size", num(16)),
            ("vocab_size", num(100)),
            ("num_attention_heads", num(4)),
            ("num_key_value_heads", num(2)),
            ("intermediate_size", num(64)),
            ("max_position_embeddings", num(8192)),
        ]),
        siblings: vec![SiblingFile { filename: "model.safetensors".to_string(), size: Some(10_944) }],
    };
    let options = EvaluationOptions {
        gpu_count: Some(4),
        context_length: Some(4096),
        refresh: false,
        input_tokens: None,
        output_tokens: None,
    };
    let profile = detect(&artifact.config);
    assert!(evaluation_fits_check(&profile, &artifact.siblings, options.context_length));
    let report = evaluate_artifact(&artifact, "t/m", "H800", "vllm", profile, None, lookup_in(&db, "H800"), None, &options);
    assert_eq!(reference_kv_bytes(&report.kv_cache_by_context), Some(262_144));
    let fleet = report.fleet.as_ref().unwrap();
    assert_eq!(chosen_gpu_count(fleet, Some(4)), 4);
    let (headroom, kv) = concurrency_inputs(&report, Some(4)).unwrap();
    assert_eq!(kv, 262_144 / 2);
    let o = fleet.options.iter().find(|o| o.gpu_count == 4).unwrap_or(fleet.options.last().unwrap());
    assert_eq!(headroom, o.usable_bytes_per_gpu - o.weight_bytes_per_gpu);

    let unknown = evaluate_artifact(
        &artifact,
        "t/m",
        "B300",
        "vllm",
        detect(&artifact.config),
        None,
        lookup_in(&db, "B300"),
        None,
        &options,
    );
    assert!(concurrency_inputs(&unknown, Some(4)).is_none());
}
