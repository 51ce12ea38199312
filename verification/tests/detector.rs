use llm_infer_cal_core::detector::{
    detect, detect_attention, detect_moe, detect_position, detect_sliding_window, fallback_unknown,
    stringify_value,
};
use llm_infer_cal_core::json::{to_json_string, JsonNumber, JsonValue};
use llm_infer_cal_core::profile::{AttentionVariant, Confidence, Family, JsonScalar};

fn obj(members: Vec<(&str, JsonValue)>) -> JsonValue {
    JsonValue::Object(
        members
            .into_iter()
            .map(|(key, value)| (key.to_string(), value))
            .collect(),
    )
}

fn text(value: &str) -> JsonValue {
    JsonValue::Text(value.to_string())
}

fn num(value: u64) -> JsonValue {
    JsonValue::Number(JsonNumber::Unsigned(value))
}

fn arr(values: Vec<JsonValue>) -> JsonValue {
    JsonValue::Array(values)
}

fn base(extra: Vec<(&str, JsonValue)>) -> JsonValue {
    let mut members = vec![
        ("model_type", text("foo")),
        ("hidden_size", num(4096)),
        ("num_hidden_layers", num(32)),
        ("num_attention_heads", num(32)),
        ("vocab_size", num(10)),
    ];
    members.extend(extra);
    obj(members)
}

#[test]
fn state_space_and_unknown_fallback_match_python() {
    let mamba = detect(&obj(vec![
        ("model_type", text("mamba")),
        ("hidden_size", num(768)),
        ("num_hidden_layers", num(24)),
        ("vocab_size", num(50280)),
    ]));
    let unknown = detect(&obj(vec![("model_type", text("mystery")), ("vocab_size", num(10))]));
    let empty = detect(&obj(vec![]));

    assert_eq!(mamba.family, Family::StateSpace);
    assert_eq!(mamba.auxiliary[0].0, "v0_1_unsupported");
    assert_eq!(mamba.auxiliary[0].1, JsonScalar::Bool(true));
    assert_eq!(unknown.family, Family::Unknown);
    assert_eq!(unknown.confidence, Confidence::Low);
    assert!(unknown.auxiliary.iter().any(|(k, _)| k == "warning"));
    assert_eq!(empty.family, Family::Unknown);
}

#[test]
fn future_complete_config_is_medium_confidence_transformer() {
    let profile = detect(&obj(vec![
        ("model_type", text("hypothetical_v1")),
        ("architectures", arr(vec![text("HypotheticalForCausalLM")])),
        ("hidden_size", num(4096)),
        ("num_hidden_layers", num(32)),
        ("num_attention_heads", num(32)),
        ("vocab_size", num(32000)),
    ]));

    assert_eq!(profile.family, Family::Transformer);
    assert_eq!(profile.confidence, Confidence::Medium);
}

#[test]
fn csa_hca_length_rules_match_python() {
    let mismatch = detect(&obj(vec![
        ("model_type", text("hypothetical")),
        ("architectures", arr(vec![text("Hypothetical")])),
        ("hidden_size", num(4096)),
        ("num_hidden_layers", num(32)),
        ("num_attention_heads", num(32)),
        ("num_key_value_heads", num(8)),
        ("vocab_size", num(32000)),
        ("compress_ratios", arr(vec![num(4), num(128), num(4)])),
    ]));
    let mtp_extra = detect(&obj(vec![
        ("model_type", text("deepseek_v4")),
        ("architectures", arr(vec![text("DeepseekV4ForCausalLM")])),
        ("hidden_size", num(4096)),
        ("num_hidden_layers", num(43)),
        ("num_nextn_predict_layers", num(1)),
        ("num_attention_heads", num(64)),
        ("num_key_value_heads", num(1)),
        ("vocab_size", num(129280)),
        ("compress_ratios", arr((0..44).map(|_| num(0)).collect())),
        ("q_lora_rank", num(1024)),
    ]));

    assert_eq!(mismatch.attention.unwrap().variant, AttentionVariant::Gqa);
    assert_eq!(mtp_extra.attention.unwrap().variant, AttentionVariant::CsaHca);
}

#[test]
fn attention_ordering_and_direct_trait_detectors_match_python() {
    let mla = detect(&obj(vec![
        ("model_type", text("deepseek_v2")),
        ("hidden_size", num(4096)),
        ("num_hidden_layers", num(32)),
        ("num_attention_heads", num(32)),
        ("num_key_value_heads", num(1)),
        ("q_lora_rank", num(1024)),
        ("vocab_size", num(10)),
    ]));
    let mqa = base(vec![("num_key_value_heads", num(1))]);
    let gqa = base(vec![("num_key_value_heads", num(8))]);
    let mha = base(vec![("num_key_value_heads", num(32))]);

    assert_eq!(mla.attention.unwrap().variant, AttentionVariant::Mla);
    assert_eq!(detect_attention(&mqa).variant, AttentionVariant::Mqa);
    assert_eq!(detect_attention(&gqa).variant, AttentionVariant::Gqa);
    assert_eq!(detect_attention(&mha).variant, AttentionVariant::Mha);
    assert!(detect_moe(&base(vec![])).is_none());
    assert_eq!(
        detect_moe(&base(vec![("n_routed_experts", num(256)), ("n_shared_experts", num(1))]))
            .unwrap()
            .num_routed_experts,
        256
    );
    assert_eq!(detect_sliding_window(&obj(vec![("sliding_window", num(0))])), None);
}

#[test]
fn fallback_unknown_preserves_basic_shape() {
    let profile = fallback_unknown(&obj(vec![]));

    assert_eq!(profile.family, Family::Unknown);
    assert_eq!(profile.confidence, Confidence::Low);
    assert_eq!(profile.num_hidden_layers, 0);
}

#[test]
fn moe_defaults_and_fallback_keys() {
    let moe = detect_moe(&obj(vec![
        ("num_local_experts", num(8)),
        ("num_experts_per_tok", num(2)),
        ("intermediate_size", num(14336)),
    ]))
    .unwrap();
    assert_eq!(moe.num_routed_experts, 8);
    assert_eq!(moe.num_shared_experts, 0);
    assert_eq!(moe.num_experts_per_tok, 2);
    assert_eq!(moe.moe_intermediate_size, 14336);
    let zero = detect_moe(&obj(vec![("n_routed_experts", num(0)), ("num_experts", num(4))])).unwrap();
    assert_eq!(zero.num_routed_experts, 4);
    assert_eq!(zero.num_experts_per_tok, 1);
}

#[test]
fn nsa_block_sets_topk_and_head_dim_falls_back_to_hidden_over_heads() {
    let nsa = detect_attention(&base(vec![(
        "nsa_config",
        obj(vec![("index_topk", num(2048))]),
    )]));
    assert_eq!(nsa.variant, AttentionVariant::Nsa);
    assert_eq!(nsa.nsa_topk, Some(2048));
    assert_eq!(nsa.head_dim, 128);
    let mla = detect_attention(&base(vec![("kv_lora_rank", num(512)), ("qk_rope_head_dim", num(64))]));
    assert_eq!(mla.variant, AttentionVariant::Mla);
    assert_eq!(mla.kv_lora_rank, Some(512));
    assert_eq!(mla.qk_rope_head_dim, Some(64));
    let explicit = detect_attention(&base(vec![("head_dim", num(256))]));
    assert_eq!(explicit.head_dim, 256);
    assert_eq!(explicit.num_kv_heads, 32);
}

#[test]
fn position_reads_rope_kind_and_keeps_truthy_values() {
    let yarn = detect_position(&obj(vec![
        ("rope_scaling", obj(vec![("type", text("YaRN")), ("factor", num(4))])),
        ("rope_theta", num(0)),
        ("max_position_embeddings", num(163840)),
    ]));
    assert_eq!(yarn.rope_type.as_deref(), Some("yarn"));
    assert_eq!(yarn.rope_theta, None);
    assert_eq!(yarn.rope_scaling_factor, Some(JsonScalar::Number(JsonNumber::Unsigned(4))));
    assert_eq!(yarn.max_position_embeddings, Some(163840));
    let other = detect_position(&obj(vec![("rope_scaling", obj(vec![("rope_type", text("dynamic"))]))]));
    assert_eq!(other.rope_type.as_deref(), Some("rope"));
}

#[test]
fn transformer_profile_records_auxiliary_facts() {
    let p = detect(&base(vec![
        ("architectures", arr(vec![text("FooForCausalLM")])),
        ("intermediate_size", num(11008)),
        ("tie_word_embeddings", JsonValue::Bool(true)),
        ("sliding_window", num(4096)),
    ]));
    assert_eq!(p.family, Family::Transformer);
    assert_eq!(p.architectures, vec!["fooforcausallm".to_string()]);
    assert_eq!(p.intermediate_size, Some(11008));
    assert!(p.tie_word_embeddings);
    assert_eq!(p.sliding_window, Some(4096));
    assert_eq!(p.auxiliary.len(), 2);
    assert_eq!(p.auxiliary[0].0, "intermediate_size");
    assert_eq!(p.auxiliary[1].1, JsonScalar::Bool(true));
}

#[test]
fn non_string_values_are_stringified_as_compact_json() {
    assert_eq!(stringify_value(&JsonValue::Null), "None");
    assert_eq!(stringify_value(&num(7)), "7");
    assert_eq!(
        to_json_string(&obj(vec![("a", arr(vec![num(1), JsonValue::Bool(false)])), ("b", text("x\"y"))])),
        "{\"a\":[1,false],\"b\":\"x\\\"y\"}"
    );
    let p = detect(&obj(vec![("model_type", num(3)), ("num_hidden_layers", num(1)), ("hidden_size", num(1))]));
    assert_eq!(p.model_type, "3");
}
