use llm_infer_cal_core::command::{
    format_gib, generate_sglang_command, generate_sglang_command_with_options, generate_vllm_command,
    generate_vllm_command_with_speculative_tokens, shell_single_quote, Parallelism,
};
use llm_infer_cal_core::engine_compat::{EngineCompatEntry, EngineEnv, EngineFlag};
use llm_infer_cal_core::profile::{ArchitectureProfile, PositionTraits};

fn profile(model_type: &str, max_position_embeddings: Option<u64>) -> ArchitectureProfile {
    let mut p = ArchitectureProfile::default();
    p.model_type = model_type.to_string();
    p.position = max_position_embeddings.map(|max| PositionTraits {
        rope_type: Some("rope".to_string()),
        rope_theta: None,
        rope_scaling_factor: None,
        max_position_embeddings: Some(max),
    });
    p
}

fn flag(name: &str, value: Option<&str>) -> EngineFlag {
    let mut f = EngineFlag::default();
    f.flag = name.to_string();
    f.value = value.map(|v| v.to_string());
    f
}

#[test]
fn vllm_basic_shape_matches_rust_contract() {
    let cmd = generate_vllm_command(
        "meta-llama/Llama-3.3-70B",
        &profile("llama", Some(131_072)),
        Parallelism::single(2),
        None,
        None,
    );

    assert!(cmd.contains("vllm serve meta-llama/Llama-3.3-70B"));
    assert!(cmd.contains("--tensor-parallel-size 2"));
    assert!(cmd.contains("--max-model-len 131072"));
    assert!(cmd.contains("--gpu-memory-utilization 0.9"));
}

#[test]
fn vllm_trust_remote_code_heuristic_matches_rust_contract() {
    let llama = generate_vllm_command(
        "meta-llama/Llama-3.3-70B",
        &profile("llama", Some(131_072)),
        Parallelism::single(2),
        None,
        None,
    );
    let deepseek = generate_vllm_command(
        "deepseek-ai/DeepSeek-V4-Flash",
        &profile("deepseek_v4", Some(1_048_576)),
        Parallelism::single(8),
        None,
        None,
    );

    assert!(!llama.contains("--trust-remote-code"));
    assert!(deepseek.contains("--trust-remote-code"));
    assert!(deepseek.contains("--max-model-len 1048576"));
}

#[test]
fn vllm_max_model_len_override_matches_rust_contract() {
    let cmd = generate_vllm_command(
        "foo/bar",
        &profile("llama", Some(131_072)),
        Parallelism::single(2),
        None,
        Some(32_768),
    );

    assert!(cmd.contains("--max-model-len 32768"));
    assert!(!cmd.contains("--max-model-len 131072"));
}

#[test]
fn vllm_entry_flags_are_appended_verbatim() {
    let mut entry = EngineCompatEntry::default();
    entry.required_flags = vec![];
    entry.optional_flags = vec![flag("--attention-backend", Some("auto"))];

    let cmd = generate_vllm_command(
        "deepseek-ai/DeepSeek-V4-Flash",
        &profile("deepseek_v4", Some(1_048_576)),
        Parallelism::single(8),
        Some(&entry),
        None,
    );

    assert!(cmd.contains("--attention-backend auto"));
}

#[test]
fn sglang_basic_shape_matches_rust_contract() {
    let cmd = generate_sglang_command(
        "deepseek-ai/DeepSeek-V3.2",
        &profile("deepseek_v3_2", Some(131_072)),
        Parallelism::single(8),
        None,
        None,
    );

    assert!(cmd.contains("python -m sglang.launch_server"));
    assert!(cmd.contains("--model-path deepseek-ai/DeepSeek-V3.2"));
    assert!(cmd.contains("--tp 8"));
    assert!(cmd.contains("--context-length 131072"));
}

#[test]
fn sglang_entry_required_flags_are_appended_verbatim() {
    let mut entry = EngineCompatEntry::default();
    entry.required_flags = vec![flag("--attention-backend", Some("nsa"))];
    entry.optional_flags = vec![];

    let cmd = generate_sglang_command(
        "deepseek-ai/DeepSeek-V3.2",
        &profile("deepseek_v3_2", Some(131_072)),
        Parallelism::single(8),
        Some(&entry),
        None,
    );

    assert!(cmd.contains("--attention-backend nsa"));
}

#[test]
fn vllm_multinode_command_uses_tp_per_node_and_pp_nodes() {
    let cmd = generate_vllm_command(
        "ZhipuAI/GLM-5.2",
        &profile("glm_moe_dsa", Some(1_048_576)),
        Parallelism {
            total_gpus: 48,
            tensor_parallel_size: 8,
            pipeline_parallel_size: 6,
        },
        None,
        Some(1_048_576),
    );

    assert!(cmd.contains("--tensor-parallel-size 8"));
    assert!(cmd.contains("--pipeline-parallel-size 6"));
    assert!(cmd.contains("--distributed-executor-backend ray"));
}

#[test]
fn sglang_multinode_command_uses_total_tp_and_node_bootstrap_flags() {
    let cmd = generate_sglang_command(
        "ZhipuAI/GLM-5.2",
        &profile("glm_moe_dsa", Some(1_048_576)),
        Parallelism {
            total_gpus: 16,
            tensor_parallel_size: 8,
            pipeline_parallel_size: 2,
        },
        None,
        Some(1_048_576),
    );

    assert!(cmd.contains("--tp 16"));
    assert!(cmd.contains("--nnodes 2"));
    assert!(cmd.contains("--node-rank ${NODE_RANK:-0}"));
    assert!(cmd.contains("--dist-init-addr ${NODE0_IP:-<node0-ip>}:20000"));
}

#[test]
fn vllm_full_command_text_is_exact() {
    let cmd = generate_vllm_command(
        "meta-llama/Llama-3.3-70B",
        &profile("llama", Some(131_072)),
        Parallelism::single(2),
        None,
        None,
    );
    assert_eq!(
        cmd,
        "vllm serve meta-llama/Llama-3.3-70B \\\n  --tensor-parallel-size 2 \\\n  --max-model-len 131072 \\\n  --gpu-memory-utilization 0.9"
    );
}

#[test]
fn vllm_options_add_concurrency_offload_and_draft_model() {
    let cmd = generate_vllm_command_with_speculative_tokens(
        "Qwen/Qwen3-30B-A3B",
        &profile("qwen3_moe", Some(40_960)),
        Parallelism::single(1),
        None,
        None,
        Some(2),
        Some(13_421_772_800),
        Some(" Qwen/Qwen3-0.6B "),
        Some(9),
    );
    assert!(cmd.contains("--max-num-seqs 2"));
    assert!(cmd.contains("--cpu-offload-gb 12.5"));
    assert!(cmd.contains(
        "--speculative-config '{\"model\":\"Qwen/Qwen3-0.6B\",\"num_speculative_tokens\":9}'"
    ));
    assert!(cmd.contains("--trust-remote-code"));
}

#[test]
fn vllm_entry_flag_suppresses_generated_duplicate() {
    let mut entry = EngineCompatEntry::default();
    entry.required_flags = vec![flag("--max-num-seqs", Some("64"))];
    let cmd = generate_vllm_command_with_speculative_tokens(
        "foo/bar",
        &profile("llama", None),
        Parallelism::single(1),
        Some(&entry),
        None,
        Some(2),
        None,
        None,
        None,
    );
    assert!(!cmd.contains("--max-num-seqs 2"));
    assert!(cmd.contains("--max-num-seqs 64"));
    assert!(!cmd.contains("--max-model-len"));
}

#[test]
fn sglang_env_prefix_and_draft_flags() {
    let mut entry = EngineCompatEntry::default();
    entry.env = vec![EngineEnv { name: "SGLANG_ENABLE_SPEC_V2".to_string(), value: "1".to_string() }];
    entry.required_flags = vec![flag("--mem-fraction-static", Some("0.8"))];
    let cmd = generate_sglang_command_with_options(
        "Qwen/Qwen3.6-35B-A3B",
        &profile("qwen3_5_moe_text", Some(262_144)),
        Parallelism::single(1),
        Some(&entry),
        None,
        Some(25),
        None,
        Some("draft/model"),
    );
    assert!(cmd.starts_with("SGLANG_ENABLE_SPEC_V2=1 python -m sglang.launch_server"));
    assert!(cmd.contains("--max-running-requests 25"));
    assert!(cmd.contains("--mem-fraction-static 0.8"));
    assert!(!cmd.contains("--mem-fraction-static 0.9"));
    assert!(cmd.contains("--speculative-algorithm STANDALONE"));
    assert!(cmd.contains("--speculative-draft-model-path draft/model"));
    assert!(cmd.contains("--context-length 262144"));
}

#[test]
fn gb_and_shell_quote_helpers() {
    assert_eq!(format_gib(12 * 1_073_741_824), "12");
    assert_eq!(format_gib(1_073_741_824 + 268_435_456), "1.25");
    assert_eq!(format_gib(1_000_000_000), "0.931");
    assert_eq!(shell_single_quote("it's"), "'it'\"'\"'s'");
}

#[test]
fn node_count_covers_gpus_and_stages() {
    let p = Parallelism { total_gpus: 48, tensor_parallel_size: 8, pipeline_parallel_size: 6 };
    assert_eq!(p.node_count(), 6);
    let q = Parallelism { total_gpus: 4, tensor_parallel_size: 1, pipeline_parallel_size: 4 };
    assert_eq!(q.node_count(), 4);
    assert_eq!(Parallelism::single(8).node_count(), 1);
}
