use llm_infer_cal_core::explain::{ExplainEntry, ExplainInput};
use llm_infer_cal_core::formatter::{render_explain_text, render_gpu_list_text, render_llm_review_text};
use llm_infer_cal_core::hardware::{GPUDatabase, GPUSpec};
use llm_infer_cal_core::reviewer::LlmReviewResult;
use llm_infer_cal_core::formatter::{fmt_bytes, fmt_params, format_tag};
use llm_infer_cal_core::i18n::{set_locale, LocaleState};
use llm_infer_cal_core::labels::{AnnotatedValue, Label};
use llm_infer_cal_core::concurrency::analyze_bounds;
use llm_infer_cal_core::detector::detect;
use llm_infer_cal_core::evaluation::{evaluate_artifact, evaluation_fits_check, EvaluationOptions, EvaluationReport};
use llm_infer_cal_core::hardware::lookup_in;
use llm_infer_cal_core::json::{JsonNumber, JsonValue};
use llm_infer_cal_core::report::{render_report_text, select_concurrency_columns, sha_cut_check, PerformanceTexts};
use llm_infer_cal_core::sources::{ModelArtifact, SiblingFile};

#[test]
fn helper_formatting_matches_rust_contract_formatter() {
    let mut state = LocaleState::new();
    set_locale(&mut state, "en");
    assert_eq!(fmt_bytes(999), "999 B");
    assert_eq!(fmt_bytes(12_345), "12.35 KB");
    assert_eq!(fmt_bytes(12_345_678), "12.35 MB");
    assert_eq!(fmt_bytes(12_345_678_900), "12.35 GB");
    assert_eq!(fmt_params(999), "999");
    assert_eq!(fmt_params(12_345_678), "12.35M");
    assert_eq!(fmt_params(12_345_678_900), "12.35B");
    assert_eq!(
        format_tag(&state, &AnnotatedValue::new(1_u64, Label::Verified, None)),
        "[verified]"
    );

    set_locale(&mut state, "zh");
    assert_eq!(
        format_tag(&state, &AnnotatedValue::new(1_u64, Label::Estimated, None)),
        "[估算]"
    );
}

#[test]
fn byte_thresholds_switch_units_exactly() {
    assert_eq!(fmt_bytes(1_000), "1.00 KB");
    assert_eq!(fmt_bytes(999_999), "1000.00 KB");
    assert_eq!(fmt_bytes(1_000_000_000), "1.00 GB");
    assert_eq!(fmt_params(1_000_000), "1.00M");
    assert_eq!(fmt_params(284_000_000_000), "284.00B");
}

#[test]
fn render_explain_and_llm_review_text_match_visible_contract() {
    let mut state = LocaleState::new();
    set_locale(&mut state, "en");
    let entries = vec![ExplainEntry {
        heading: "Weight bytes".to_string(),
        formula: "sum(safetensors.size)".to_string(),
        inputs: vec![ExplainInput::new("api", "HF siblings", "[verified]")],
        steps: vec!["result = 160 GB".to_string()],
        result: "160 GB [verified]".to_string(),
        source: "HF API".to_string(),
        methodology_anchor: "#weight-bytes".to_string(),
    }];
    let explain = render_explain_text(&state, &entries);
    assert!(explain.contains("Full derivation traces (--explain)"));
    assert!(explain.contains("Formula:"));
    assert!(explain.contains("api = HF siblings [verified]"));
    assert!(explain.contains("docs/methodology.md#weight-bytes"));

    let unavailable = render_llm_review_text(
        &state,
        &LlmReviewResult {
            ok: false,
            content: None,
            error: Some("missing".to_string()),
            model: "gpt-4o".to_string(),
            base_url: "https://api.openai.com/v1".to_string(),
        },
    );
    assert!(unavailable.contains("LLM review unavailable: missing"));
    assert!(unavailable.contains("LLM_CAL_REVIEWER_API_KEY"));

    let ok = render_llm_review_text(
        &state,
        &LlmReviewResult {
            ok: true,
            content: Some("No issues".to_string()),
            error: None,
            model: "gpt-4o".to_string(),
            base_url: "https://api.openai.com/v1".to_string(),
        },
    );
    assert!(ok.contains("[llm-opinion]"));
    assert!(ok.contains("No issues"));
}

#[test]
fn render_gpu_list_preserves_database_order_and_boolean_words() {
    let mut state = LocaleState::new();
    set_locale(&mut state, "en");
    let gpu = |id: &str, mem: u64, nvlink: u64, tflops_milli: u64, fp4: bool, aliases: Vec<&str>| GPUSpec {
        id: id.to_string(),
        aliases: aliases.into_iter().map(|a| a.to_string()).collect(),
        memory_gb: mem,
        nvlink_bandwidth_gbps: nvlink,
        memory_bandwidth_gbps: None,
        fp16_tflops_milli: tflops_milli,
        fp8_support: true,
        fp4_support: fp4,
        notes_en: None,
        notes_zh: None,
        spec_source: None,
    };
    let db = GPUDatabase {
        schema_version: 1,
        gpus: vec![
            gpu("B200", 192, 1800, 2_250_000, true, vec![]),
            gpu("H800", 80, 400, 989_000, false, vec!["H800-SXM5", "H800-80G"]),
        ],
    };
    let rendered = render_gpu_list_text(&state, &db);

    assert!(rendered.starts_with("Supported GPUs"));
    assert!(rendered.contains("B200 | 192 GB | 1800 GB/s | 2250 | yes | yes"));
    assert!(rendered.contains("H800-SXM5, H800-80G"));
    assert!(rendered.contains(&format!("Total: {} GPUs", db.gpus.len())));
}

#[test]
fn explain_text_keeps_multiline_steps_indented() {
    let state = LocaleState::new();
    let entries = vec![ExplainEntry {
        heading: "H".to_string(),
        formula: "a\nb".to_string(),
        inputs: vec![],
        steps: vec!["x\r\ny\n".to_string()],
        result: "r".to_string(),
        source: String::new(),
        methodology_anchor: String::new(),
    }];
    assert_eq!(
        render_explain_text(&state, &entries),
        "Full derivation traces (--explain)\nEach entry below shows the formula used, the inputs that went in, every computation step, and the primary source.\n\nH\nFormula:\n  a\n  b\nComputation:\n  x\n  y\nResult: r\n"
    );
}

fn obj(members: Vec<(&str, JsonValue)>) -> JsonValue {
    JsonValue::Object(members.into_iter().map(|(k, v)| (k.to_string(), v)).collect())
}

fn num(value: u64) -> JsonValue {
    JsonValue::Number(JsonNumber::Unsigned(value))
}

fn text(value: &str) -> JsonValue {
    JsonValue::Text(value.to_string())
}

fn gpu(id: &str, nvlink: u64) -> GPUSpec {
    GPUSpec {
        id: id.to_string(),
        aliases: Vec::new(),
        memory_gb: 80,
        nvlink_bandwidth_gbps: nvlink,
        memory_bandwidth_gbps: Some(3350),
        fp16_tflops_milli: 989_000,
        fp8_support: true,
        fp4_support: false,
        notes_en: None,
        notes_zh: None,
        spec_source: None,
    }
}

fn database() -> GPUDatabase {
    GPUDatabase { schema_version: 1, gpus: vec![gpu("H800", 400), gpu("H100", 900)] }
}

fn evaluate<'a>(
    db: &'a GPUDatabase,
    artifact: &ModelArtifact,
    gpu_name: &str,
    options: &EvaluationOptions,
) -> EvaluationReport<'a> {
    let profile = detect(&artifact.config);
    assert!(evaluation_fits_check(&profile, &artifact.siblings, options.context_length));
    evaluate_artifact(
        artifact,
        &artifact.model_id,
        gpu_name,
        "vllm",
        profile,
        None,
        lookup_in(db, gpu_name),
        None,
        options,
    )
}

fn mini_llama() -> ModelArtifact {
    ModelArtifact {
        source: "huggingface".to_string(),
        model_id: "test/llama-mini".to_string(),
        commit_sha: Some("abc1234def".to_string()),
        config: obj(vec![
            ("model_type", text("llama")),
            ("architectures", JsonValue::Array(vec![text("LlamaForCausalLM")])),
            ("num_hidden_layers", num(2)),
            ("hidden_size", num(16)),
            ("vocab_size", num(100)),
            ("num_attention_heads", num(4)),
            ("num_key_value_heads", num(2)),
            ("intermediate_size", num(64)),
            ("max_position_embeddings", num(8192)),
        ]),
        siblings: vec![
            SiblingFile { filename: "model-00001-of-00002.safetensors".to_string(), size: Some(5_472) },
            SiblingFile { filename: "model-00002-of-00002.safetensors".to_string(), size: Some(5_472) },
        ],
    }
}

fn perf_texts() -> PerformanceTexts {
    PerformanceTexts {
        target_tps: format!("{:.1}", 20.0_f64),
        prefill_util: format!("{:.0}%", 0.40_f64 * 100.0),
        decode_util: format!("{:.0}%", 0.50_f64 * 100.0),
        degradation: format!("{:.2}", 1.0_f64),
        prefill_latency: AnnotatedValue::new("0.1 ms".to_string(), Label::Estimated, None),
        per_gpu_tps: AnnotatedValue::new("1000.0 tok/s".to_string(), Label::Estimated, None),
        cluster_tps: AnnotatedValue::new("1800.0 tok/s".to_string(), Label::Estimated, None),
        moe_active_tps: None,
    }
}

#[test]
fn render_report_text_contains_core_sections_and_localized_values() {
    let mut state = LocaleState::new();
    set_locale(&mut state, "zh");
    let db = database();
    let options = EvaluationOptions {
        gpu_count: None,
        context_length: Some(4096),
        refresh: false,
        input_tokens: Some(512),
        output_tokens: None,
    };
    let report = evaluate(&db, &mini_llama(), "H800", &options);
    assert!(sha_cut_check(&report.commit_sha));
    let bounds = analyze_bounds(1_000_000, 1_000, AnnotatedValue::new(90, Label::Estimated, None));
    let perf = perf_texts();
    let rendered = render_report_text(&state, &report, Some((&perf, &bounds)));

    assert!(rendered.contains("test/llama-mini"));
    assert!(rendered.contains("来源 huggingface @ abc1234"));
    assert!(rendered.contains("架构"));
    assert!(rendered.contains("模型类型: llama [已验证]"));
    assert!(rendered.contains("权重"));
    assert!(rendered.contains("safetensors 总字节: 10.94 KB [已验证]"));
    assert!(rendered.contains("单请求 KV Cache"));
    assert!(rendered.contains("4,096 tokens: 262.14 KB [估算]"));
    assert!(rendered.contains("目标硬件 - H800"));
    assert!(rendered.contains("推荐 GPU 张数 - H800"));
    assert!(rendered.contains("假设输入 512 tokens"));
    assert!(!rendered.contains("Assumptions:"));
    assert!(rendered.contains("生成的启动命令"));
    assert!(rendered.contains("标签："));
}

#[test]
fn render_report_text_does_not_quote_warning_strings() {
    let mut state = LocaleState::new();
    set_locale(&mut state, "zh");
    let db = database();
    let artifact = ModelArtifact {
        source: "huggingface".to_string(),
        model_id: "test/unknown".to_string(),
        commit_sha: Some("abc1234def".to_string()),
        config: obj(vec![("model_type", text("gpt2")), ("vocab_size", num(50257))]),
        siblings: vec![],
    };
    let report = evaluate(&db, &artifact, "H800", &EvaluationOptions::default());
    let rendered = render_report_text(&state, &report, None);

    assert!(rendered.contains("WARNING: No recognizable model_type"));
    assert!(!rendered.contains("WARNING: \"No recognizable model_type"));
}

#[test]
fn render_report_text_does_not_recommend_or_generate_command_when_no_candidate_fits() {
    let mut state = LocaleState::new();
    set_locale(&mut state, "zh");
    let db = database();
    let artifact = ModelArtifact {
        source: "modelscope".to_string(),
        model_id: "test/giant-llama".to_string(),
        commit_sha: Some("giantsha".to_string()),
        config: obj(vec![
            ("model_type", text("llama")),
            ("architectures", JsonValue::Array(vec![text("LlamaForCausalLM")])),
            ("num_hidden_layers", num(80)),
            ("hidden_size", num(8192)),
            ("vocab_size", num(128256)),
            ("num_attention_heads", num(64)),
            ("num_key_value_heads", num(8)),
            ("intermediate_size", num(28672)),
            ("max_position_embeddings", num(1048576)),
        ]),
        siblings: vec![SiblingFile {
            filename: "model-00001-of-00001.safetensors".to_string(),
            size: Some(6_000_000_000_000),
        }],
    };
    let report = evaluate(&db, &artifact, "H100", &EvaluationOptions::default());
    let rendered = render_report_text(&state, &report, None);

    assert!(rendered.contains("推荐 GPU 张数 - H100"));
    assert!(rendered.contains("没有推荐档位：模型无法放入当前 TP/PP 候选配置。"));
    assert!(!rendered.contains("生产 *"));
    assert!(!rendered.contains("= 推荐档位"));
    assert!(!rendered.contains("性能分析"));
    assert!(!rendered.contains("生成的启动命令"));
}

#[test]
fn report_sections_render_in_english_with_fleet_columns() {
    let mut state = LocaleState::new();
    set_locale(&mut state, "en");
    let db = database();
    let options = EvaluationOptions {
        gpu_count: None,
        context_length: Some(4096),
        refresh: false,
        input_tokens: Some(512),
        output_tokens: Some(64),
    };
    let report = evaluate(&db, &mini_llama(), "H800", &options);
    let bounds = analyze_bounds(1_000_000, 1_000, AnnotatedValue::new(90, Label::Estimated, None));
    let perf = perf_texts();
    let rendered = render_report_text(&state, &report, Some((&perf, &bounds)));
    let lines: Vec<&str> = rendered.lines().collect();
    assert!(lines[0].starts_with("test/llama-mini  "));
    assert!(lines[0].ends_with(" huggingface @ abc1234"));
    assert!(rendered.contains("output=64 tokens"));
    assert!(rendered.contains("target 20.0 tok/s per user"));
    assert!(rendered.contains(": 1000 [estimated]"));
    assert!(rendered.contains(": 90 [estimated]"));
    assert!(rendered.contains("  - "));
    let cols = select_concurrency_columns(report.fleet.as_ref().unwrap());
    assert_eq!(cols, vec![4096]);
    assert!(rendered.contains("@4K") || rendered.contains("4K"));
}

#[test]
fn commit_cut_needs_a_character_boundary() {
    assert!(sha_cut_check(&None));
    assert!(sha_cut_check(&Some("abc1234def".to_string())));
    assert!(sha_cut_check(&Some("abc".to_string())));
    assert!(sha_cut_check(&Some("abcdé".to_string())));
    assert!(!sha_cut_check(&Some("abcdeféz".to_string())));
}

#[test]
fn byte_and_param_decimals_follow_the_float_quotient() {
    assert_eq!(fmt_bytes(1_005), "1.00 KB");
    assert_eq!(fmt_bytes(1_125), "1.12 KB");
    assert_eq!(fmt_bytes(1_375), "1.38 KB");
    let mut samples: Vec<u64> = Vec::new();
    for base in [1_000u64, 1_000_000, 1_000_000_000] {
        for k in 0..2_000u64 {
            samples.push(base + k * 5);
            samples.push(base * 7 + k * 125 * (base / 1_000));
        }
    }
    samples.extend([
        9_007_199_254_740_993,
        18_446_744_073_709_551_615,
        123_456_789_012_345_678,
        1_234_567_890_123_456_789,
    ]);
    for n in samples {
        let expected_bytes = if n >= 1_000_000_000 {
            format!("{:.2} GB", n as f64 / 1_000_000_000.0)
        } else if n >= 1_000_000 {
            format!("{:.2} MB", n as f64 / 1_000_000.0)
        } else {
            format!("{:.2} KB", n as f64 / 1_000.0)
        };
        assert_eq!(fmt_bytes(n), expected_bytes, "bytes {n}");
        if n >= 1_000_000 {
            let expected_params = if n >= 1_000_000_000 {
                format!("{:.2}B", n as f64 / 1_000_000_000.0)
            } else {
                format!("{:.2}M", n as f64 / 1_000_000.0)
            };
            assert_eq!(fmt_params(n), expected_params, "params {n}");
        }
    }
}
