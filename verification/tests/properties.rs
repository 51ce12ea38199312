use llm_infer_cal_core::cache::{is_fresh, ArtifactCache, CacheKey};
use llm_infer_cal_core::command::{generate_vllm_command, Parallelism};
use llm_infer_cal_core::engine_compat::{EngineCompatEntry, EngineFlag};
use llm_infer_cal_core::hardware::GPUSpec;
use llm_infer_cal_core::i18n::{get_locale, set_locale, LocaleState};
use llm_infer_cal_core::kv_cache::{compute_kv_cache_bits, compute_kv_cache_bytes};
use llm_infer_cal_core::layout::{kv_shards, valid_tp_sizes};
use llm_infer_cal_core::planner::{plan_with_memory_options, FleetMemoryOptions};
use llm_infer_cal_core::profile::{
    ArchitectureProfile, AttentionTraits, AttentionVariant, Confidence, Family, MoeTraits,
};
use llm_infer_cal_core::reconciler::reconcile;
use llm_infer_cal_core::weight::{estimate_active_params, estimate_total_params};
use llm_infer_cal_core::report::select_concurrency_columns;

fn moe_profile(variant: AttentionVariant, kv_heads: u64) -> ArchitectureProfile {
    let mut p = ArchitectureProfile::default();
    p.model_type = "deepseek_v3".to_string();
    p.family = Family::Transformer;
    p.confidence = Confidence::High;
    p.num_hidden_layers = 8;
    p.hidden_size = 1024;
    p.vocab_size = 32_000;
    p.attention = Some(AttentionTraits {
        variant,
        num_heads: 48,
        num_kv_heads: kv_heads,
        head_dim: 64,
        q_lora_rank: None,
        kv_lora_rank: if variant == AttentionVariant::Mla { Some(512) } else { None },
        qk_rope_head_dim: if variant == AttentionVariant::Mla { Some(64) } else { None },
        compress_ratios: if variant == AttentionVariant::CsaHca {
            Some([vec![0], vec![4; 6], vec![128]].concat())
        } else {
            None
        },
        nsa_topk: None,
    });
    p.moe = Some(MoeTraits {
        num_routed_experts: 16,
        num_shared_experts: 1,
        num_experts_per_tok: 2,
        moe_intermediate_size: 512,
    });
    p
}

#[test]
fn kv_cache_at_sixteen_bits_equals_two_bytes() {
    for variant in [AttentionVariant::Gqa, AttentionVariant::Mla, AttentionVariant::CsaHca] {
        let p = moe_profile(variant, 4);
        for ctx in [1_u64, 4096, 131_071] {
            assert_eq!(
                compute_kv_cache_bits(&p, ctx, 16).value,
                compute_kv_cache_bytes(&p, ctx, 2).value
            );
            assert_eq!(
                compute_kv_cache_bits(&p, ctx, 8).value,
                compute_kv_cache_bytes(&p, ctx, 1).value
            );
        }
    }
}

#[test]
fn csa_cache_grows_linearly_up_to_rounding() {
    let p = moe_profile(AttentionVariant::CsaHca, 1);
    let small = compute_kv_cache_bytes(&p, 1000, 2).value;
    let large = compute_kv_cache_bytes(&p, 7000, 2).value;
    assert!(7 * small <= large && large <= 7 * small + 6);
}

#[test]
fn expert_and_manual_offload_conserve_weight() {
    let gpu = GPUSpec {
        id: "H100".to_string(),
        aliases: Vec::new(),
        memory_gb: 80,
        nvlink_bandwidth_gbps: 900,
        memory_bandwidth_gbps: Some(3350),
        fp16_tflops_milli: 989_000,
        fp8_support: true,
        fp4_support: false,
        notes_en: None,
        notes_zh: None,
        spec_source: None,
    };
    let p = moe_profile(AttentionVariant::Gqa, 4);
    let mut options = FleetMemoryOptions::default();
    options.expert_offloading = true;
    options.experts_on_gpu = Some(4);
    options.cpu_offload_bytes_per_gpu = 1_000_000_000;
    let rec = plan_with_memory_options(
        &p,
        60_000_000_000,
        1_000_000,
        0,
        131_072,
        &gpu,
        Some(2),
        &[(131_072, 1_000_000)],
        &[],
        options,
    );
    let o = &rec.options[0];
    assert!(o.expert_offload_bytes_per_gpu > 0);
    assert_eq!(
        o.main_weight_bytes_per_gpu + o.cpu_offload_bytes_per_gpu,
        o.main_weight_bytes_before_offload_per_gpu
    );
}

#[test]
fn active_parameters_never_exceed_total() {
    let p = moe_profile(AttentionVariant::Gqa, 4);
    assert!(estimate_active_params(&p).value <= estimate_total_params(&p).value);
}

#[test]
fn tp_sizes_divide_heads_and_kv_shards_stay_within_tp() {
    let p = moe_profile(AttentionVariant::Gqa, 4);
    for tp in valid_tp_sizes(&p) {
        assert_eq!(48 % tp, 0);
        assert!(tp <= 8);
        let shards = kv_shards(&p, tp);
        assert!(1 <= shards && shards <= tp && shards <= 4);
    }
    let mla = moe_profile(AttentionVariant::Mla, 48);
    assert_eq!(kv_shards(&mla, 8), 1);
}

#[test]
fn locale_round_trips() {
    let mut state = LocaleState::new();
    for requested in ["zh", "fr", "en", ""] {
        set_locale(&mut state, requested);
        let read = get_locale(&state);
        set_locale(&mut state, &read);
        assert_eq!(get_locale(&state), read);
    }
}

#[test]
fn cache_entries_live_exactly_their_ttl() {
    let cache = ArtifactCache::new("/tmp/x", 60);
    let key = CacheKey::new("huggingface", "m", Some("sha"));
    assert!(cache.may_store(&key));
    let e = cache.expiry(1_000);
    assert!(is_fresh(e, 1_000));
    assert!(is_fresh(e, 1_059));
    assert!(!is_fresh(e, 1_060));
    assert!(!ArtifactCache::new("/tmp/x", 0).may_store(&key));
}

#[test]
fn best_match_has_the_smallest_error() {
    let r = reconcile(700_000_000, 1_000_000_000, None);
    let err = |i: usize| {
        let c = &r.candidates[i];
        c.abs_delta_bytes as f64 / c.predicted_bytes as f64
    };
    for i in 1..r.candidates.len() {
        assert!(err(i - 1) <= err(i));
    }
}

#[test]
fn entry_flags_close_the_command() {
    let mut entry = EngineCompatEntry::default();
    let mut flag = EngineFlag::default();
    flag.flag = "--enable-expert-parallel".to_string();
    entry.optional_flags = vec![flag];
    let mut p = ArchitectureProfile::default();
    p.model_type = "qwen3_moe".to_string();
    let cmd = generate_vllm_command("a/b", &p, Parallelism::single(4), Some(&entry), Some(8192));
    assert!(cmd.ends_with(" \\\n  --enable-expert-parallel"));
}

fn h100() -> GPUSpec {
    GPUSpec {
        id: "H100".to_string(),
        aliases: Vec::new(),
        memory_gb: 80,
        nvlink_bandwidth_gbps: 900,
        memory_bandwidth_gbps: Some(3350),
        fp16_tflops_milli: 989_000,
        fp8_support: true,
        fp4_support: false,
        notes_en: None,
        notes_zh: None,
        spec_source: None,
    }
}

#[test]
fn fleet_columns_come_from_evaluated_contexts() {
    let p = moe_profile(AttentionVariant::Gqa, 4);
    let by_ctx = [(4_096, 1_000), (131_072, 32_000), (262_144, 64_000)];
    let rec = plan_with_memory_options(
        &p,
        60_000_000_000,
        32_000,
        0,
        131_072,
        &h100(),
        None,
        &by_ctx,
        &[],
        FleetMemoryOptions::default(),
    );
    let cols = select_concurrency_columns(&rec);
    assert_eq!(cols, vec![131_072, 262_144]);

    let short = [(4_096, 1_000), (32_768, 8_000)];
    let rec = plan_with_memory_options(
        &p,
        60_000_000_000,
        8_000,
        0,
        32_768,
        &h100(),
        None,
        &short,
        &[],
        FleetMemoryOptions::default(),
    );
    assert_eq!(select_concurrency_columns(&rec), vec![32_768]);

    let only_small = [(4_096, 1_000), (8_192, 2_000)];
    let rec = plan_with_memory_options(
        &p,
        60_000_000_000,
        2_000,
        0,
        8_192,
        &h100(),
        None,
        &only_small,
        &[],
        FleetMemoryOptions::default(),
    );
    assert_eq!(select_concurrency_columns(&rec), vec![8_192]);
}
