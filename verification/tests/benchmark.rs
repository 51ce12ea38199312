use llm_infer_cal_core::benchmark::{
    entry_checks, evaluate_field, exit_code_from, fmt_expected, BenchmarkEntry, CheckResult, Expectation,
    ExpectedValue, Status,
};
use llm_infer_cal_core::evaluation::EvaluationReport;
use llm_infer_cal_core::labels::{AnnotatedValue, Label};
use llm_infer_cal_core::planner::{FleetOption, FleetRecommendation};
use llm_infer_cal_core::profile::{
    ArchitectureProfile, AttentionTraits, AttentionVariant, Confidence, Family, MoeTraits,
};
use llm_infer_cal_core::quant::{QuantizationScheme, WeightReport};
use llm_infer_cal_core::reconciler::ReconciliationReport;
use llm_infer_cal_core::sources::{ModelSourceError, SourceUnavailableError};

#[test]
fn exit_code_matches_rust_contract_rules() {
    assert_eq!(
        exit_code_from(&[
            CheckResult::new("a", "f1", Status::Pass, "", "", "src"),
            CheckResult::new("a", "f2", Status::Pass, "", "", "src"),
        ]),
        0
    );
    assert_eq!(
        exit_code_from(&[CheckResult::new("a", "f1", Status::Skip, "", "", "src")]),
        0
    );
    assert_eq!(
        exit_code_from(&[
            CheckResult::new("a", "f1", Status::Pass, "", "", "src"),
            CheckResult::new("a", "f2", Status::Fail, "", "", "src"),
        ]),
        1
    );
}

#[test]
fn expectation_text_covers_values_ranges_and_unspecified() {
    assert_eq!(
        fmt_expected(&Expectation::expected("is_moe", ExpectedValue::Bool(true), "s")),
        "True"
    );
    assert_eq!(
        fmt_expected(&Expectation::expected("n", ExpectedValue::Int(-42), "s")),
        "-42"
    );
    assert_eq!(
        fmt_expected(&Expectation::range("w", Some(150_000_000_000), None, "s")),
        "[150,000,000,000, +∞]"
    );
    assert_eq!(
        fmt_expected(&Expectation::range("w", None, Some(1_000), "s")),
        "[-∞, 1,000]"
    );
    assert_eq!(
        fmt_expected(&Expectation::range("w", None, None, "s")),
        "(unspecified)"
    );
}

fn fake_report(
    attention_variant: AttentionVariant,
    quantization: QuantizationScheme,
    weight_bytes: u64,
    is_moe: bool,
    fleet: Option<FleetRecommendation>,
) -> EvaluationReport<'static> {
    let moe = if is_moe {
        Some(MoeTraits {
            num_routed_experts: 256,
            num_shared_experts: 1,
            num_experts_per_tok: 6,
            moe_intermediate_size: 2048,
        })
    } else {
        None
    };
    let mut profile = ArchitectureProfile::default();
    profile.model_type = "fake".to_string();
    profile.family = Family::Transformer;
    profile.num_hidden_layers = 43;
    profile.hidden_size = 4096;
    profile.vocab_size = 129_280;
    profile.confidence = Confidence::High;
    profile.attention = Some(AttentionTraits {
        variant: attention_variant,
        num_heads: 64,
        num_kv_heads: 1,
        head_dim: 512,
        q_lora_rank: None,
        kv_lora_rank: None,
        qk_rope_head_dim: None,
        compress_ratios: None,
        nsa_topk: None,
    });
    profile.moe = moe;
    EvaluationReport {
        model_id: "fake".to_string(),
        source: "huggingface".to_string(),
        commit_sha: None,
        gpu: "H800".to_string(),
        gpu_spec: None,
        gpu_error: None,
        engine: "vllm".to_string(),
        profile,
        weight: WeightReport {
            total_bytes: AnnotatedValue::new(weight_bytes, Label::Verified, None),
            bits_per_param: Some(AnnotatedValue::new((9, 16), Label::Inferred, None)),
            quantization_guess: AnnotatedValue::new(quantization, Label::Inferred, None),
        },
        total_params_estimate: AnnotatedValue::new(284_000_000_000, Label::Estimated, None),
        reconciliation: ReconciliationReport {
            observed_bytes: weight_bytes,
            total_params: 284_000_000_000,
            candidates: Vec::new(),
            best: AnnotatedValue::new(quantization, Label::Inferred, None),
        },
        kv_cache_by_context: Vec::new(),
        engine_match: None,
        fleet,
        generated_command: None,
        perf_input_tokens: None,
        perf_output_tokens: None,
    }
}

fn prod_fleet(gpu_count: u64) -> FleetRecommendation {
    FleetRecommendation {
        options: vec![FleetOption {
            tier: "prod",
            gpu_count,
            tensor_parallel_size: gpu_count,
            pipeline_parallel_size: 1,
            node_count: 1,
            main_weight_bytes_before_offload_per_gpu: 1,
            main_weight_bytes_per_gpu: 1,
            expert_offload_bytes_per_gpu: 0,
            speculative_weight_bytes_per_gpu: 0,
            cpu_offload_bytes_per_gpu: 0,
            weight_bytes_per_gpu: 1,
            kv_bytes_per_request: 1,
            kv_bytes_per_request_per_gpu: 1,
            activation_bytes_per_request: 0,
            activation_bytes_per_request_per_gpu: 0,
            kv_reference_context_tokens: 131_072,
            tier_concurrent_requests: 16,
            decode_required_bytes_per_gpu_at_tier: 17,
            prefill_activation_bytes_per_gpu_at_tier: 0,
            prefill_required_bytes_per_gpu_at_tier: 17,
            required_bytes_per_gpu_at_tier: 17,
            max_concurrent_at_reference_ctx: 1,
            max_concurrent_by_context: Vec::new(),
            usable_bytes_per_gpu: 1,
            reserved_bytes_per_gpu: 0,
            fits: true,
            reason_en: "test".to_string(),
            reason_zh: "test".to_string(),
        }],
        best_tier: Some("prod"),
        valid_tp_sizes: vec![1, 2, 4, 8],
        constraint_note_en: String::new(),
        constraint_note_zh: String::new(),
    }
}

#[test]
fn evaluate_field_matches_rust_contract_pass_fail_skip_rules() {
    let report = fake_report(
        AttentionVariant::CsaHca,
        QuantizationScheme::Fp4Fp8Mixed,
        160_000_000_000,
        true,
        Some(prod_fleet(8)),
    );

    let (predicted, status) = evaluate_field(
        &report,
        &Expectation::expected("attention_variant", ExpectedValue::String("CSA_HCA".to_string()), "test"),
    );
    assert_eq!(predicted, "CSA_HCA");
    assert_eq!(status, Status::Pass);

    let (_, status) = evaluate_field(
        &report,
        &Expectation::expected("quantization", ExpectedValue::String("FP4_FP8_MIXED".to_string()), "test"),
    );
    assert_eq!(status, Status::Pass);

    let (_, status) = evaluate_field(
        &report,
        &Expectation::range("weight_bytes", Some(150_000_000_000), Some(170_000_000_000), "test"),
    );
    assert_eq!(status, Status::Pass);

    let (_, status) = evaluate_field(&report, &Expectation::range("weight_bytes", Some(1), Some(2), "test"));
    assert_eq!(status, Status::Fail);

    let (_, status) = evaluate_field(&report, &Expectation::expected("is_moe", ExpectedValue::Bool(true), "test"));
    assert_eq!(status, Status::Pass);

    let (predicted, status) = evaluate_field(
        &report,
        &Expectation::expected("nonexistent_field", ExpectedValue::String("x".to_string()), "test"),
    );
    assert_eq!(predicted, "(unknown field)");
    assert_eq!(status, Status::Skip);
}

#[test]
fn evaluate_field_handles_fleet_checks_like_rust_contract() {
    let no_fleet = fake_report(AttentionVariant::Gqa, QuantizationScheme::Fp16, 10, false, None);
    let prod_4 = fake_report(AttentionVariant::Gqa, QuantizationScheme::Fp16, 10, false, Some(prod_fleet(4)));

    let (predicted, status) =
        evaluate_field(&no_fleet, &Expectation::expected("fleet_prod_gpus", ExpectedValue::Int(4), "test"));
    assert_eq!(predicted, "(no fleet)");
    assert_eq!(status, Status::Skip);

    let (predicted, status) =
        evaluate_field(&prod_4, &Expectation::expected("fleet_prod_gpus", ExpectedValue::Int(4), "test"));
    assert_eq!(predicted, "4");
    assert_eq!(status, Status::Pass);

    let (predicted, status) = evaluate_field(
        &prod_4,
        &Expectation::expected("fleet_prod_gpus_at_most", ExpectedValue::Int(8), "test"),
    );
    assert_eq!(predicted, "4 (max 8)");
    assert_eq!(status, Status::Pass);
}

#[test]
fn weight_range_and_prod_tier_edges() {
    let report = fake_report(AttentionVariant::Gqa, QuantizationScheme::Fp16, 1_234_567, false, Some(prod_fleet(4)));
    let (predicted, status) = evaluate_field(&report, &Expectation::range("weight_bytes", None, None, "t"));
    assert_eq!(predicted, "1,234,567");
    assert_eq!(status, Status::Pass);
    let (_, status) = evaluate_field(&report, &Expectation::range("weight_bytes", Some(1_234_568), None, "t"));
    assert_eq!(status, Status::Fail);
    let (predicted, status) = evaluate_field(&report, &Expectation::expected("is_moe", ExpectedValue::Bool(true), "t"));
    assert_eq!(predicted, "false");
    assert_eq!(status, Status::Fail);
    let (_, status) = evaluate_field(
        &report,
        &Expectation::expected("fleet_prod_gpus", ExpectedValue::String("4".to_string()), "t"),
    );
    assert_eq!(status, Status::Pass);
    let (predicted, status) = evaluate_field(
        &report,
        &Expectation::expected("fleet_prod_gpus_at_most", ExpectedValue::Int(2), "t"),
    );
    assert_eq!(predicted, "4 (max 2)");
    assert_eq!(status, Status::Fail);
    let mut dev_only = prod_fleet(4);
    dev_only.options[0].tier = "dev";
    let report = fake_report(AttentionVariant::Gqa, QuantizationScheme::Fp16, 10, false, Some(dev_only));
    let (predicted, status) =
        evaluate_field(&report, &Expectation::expected("fleet_prod_gpus", ExpectedValue::Int(4), "t"));
    assert_eq!(predicted, "(no prod tier)");
    assert_eq!(status, Status::Skip);
}

#[test]
fn failed_evaluation_skips_every_expectation_with_the_error() {
    let entry = BenchmarkEntry {
        name: "e".to_string(),
        model_id: "m".to_string(),
        gpu: "H800".to_string(),
        engine: "vllm".to_string(),
        expectations: vec![
            Expectation::expected("quantization", ExpectedValue::String("FP8".to_string()), "src"),
            Expectation::range("weight_bytes", Some(1), None, "src"),
        ],
    };
    let err = ModelSourceError::SourceUnavailable(SourceUnavailableError("offline".to_string()));
    let checks = entry_checks(&entry, Err(&err));
    assert_eq!(checks.len(), 2);
    assert!(checks.iter().all(|c| c.status == Status::Skip && c.predicted == "(evaluation failed)"));
    assert_eq!(checks[0].note.as_deref(), Some("offline"));
    assert_eq!(checks[1].expected, "[1, +∞]");

    let report = fake_report(AttentionVariant::Gqa, QuantizationScheme::Fp8, 10, false, None);
    let checks = entry_checks(&entry, Ok(&report));
    assert_eq!(checks[0].status, Status::Pass);
    assert_eq!(checks[0].predicted, "FP8");
    assert_eq!(checks[1].status, Status::Pass);
    assert!(checks[1].note.is_none());
}
