//! Shape detection on `config.json`: attention, mixture of experts, position
//! encoding, and the profile that gathers them.
use vstd::prelude::*;
use crate::json::{
    get, get_truthy_u64, get_u64, has_key, is_truthy, json_text, spec_get, spec_get_truthy_u64,
    spec_get_u64, spec_value_to_u64, to_json_string, truthy, value_to_u64, JsonNumber, JsonValue,
};
use crate::profile::{
    ArchitectureProfile, AttentionTraits, AttentionVariant, Confidence, Family, JsonScalar, MoeTraits,
    PositionTraits,
};
use crate::text::{lemma_views_push, spec_to_lowercase, str_eq, to_lowercase, views};

verus! {

pub open spec fn or_else_u64(a: Option<u64>, b: Option<u64>) -> Option<u64> {
    match a {
        Some(x) => Some(x),
        None => b,
    }
}

pub open spec fn unwrap_or_u64(a: Option<u64>, d: u64) -> u64 {
    match a {
        Some(x) => x,
        None => d,
    }
}

/// Mixture-of-experts traits: present when a routed-expert count is set
/// (`n_routed_experts`, `num_local_experts` or `num_experts`, first truthy
/// one); one expert per token and no shared experts by default.
pub open spec fn spec_detect_moe(config: JsonValue) -> Option<MoeTraits> {
    let routed = or_else_u64(
        spec_get_truthy_u64(config, "n_routed_experts"@),
        or_else_u64(spec_get_truthy_u64(config, "num_local_experts"@), spec_get_truthy_u64(config, "num_experts"@)),
    );
    match routed {
        Some(r) => Some(
            MoeTraits {
                num_routed_experts: r,
                num_shared_experts: unwrap_or_u64(spec_get_u64(config, "n_shared_experts"@), 0),
                num_experts_per_tok: unwrap_or_u64(
                    or_else_u64(
                        spec_get_truthy_u64(config, "num_experts_per_tok"@),
                        spec_get_truthy_u64(config, "num_experts_per_token"@),
                    ),
                    1,
                ),
                moe_intermediate_size: unwrap_or_u64(
                    or_else_u64(
                        spec_get_truthy_u64(config, "moe_intermediate_size"@),
                        spec_get_truthy_u64(config, "intermediate_size"@),
                    ),
                    0,
                ),
            },
        ),
        None => None,
    }
}

fn first_truthy_u64(config: &JsonValue, a: &str, b: &str) -> (r: Option<u64>)
    ensures
        r == or_else_u64(spec_get_truthy_u64(*config, a@), spec_get_truthy_u64(*config, b@)),
{
    match get_truthy_u64(config, a) {
        Some(x) => Some(x),
        None => get_truthy_u64(config, b),
    }
}

pub fn detect_moe(config: &JsonValue) -> (res: Option<MoeTraits>)
    ensures
        res == spec_detect_moe(*config),
{
    let routed = match get_truthy_u64(config, "n_routed_experts") {
        Some(x) => Some(x),
        None => first_truthy_u64(config, "num_local_experts", "num_experts"),
    };
    match routed {
        Some(r) => Some(
            MoeTraits {
                num_routed_experts: r,
                num_shared_experts: match get_u64(config, "n_shared_experts") {
                    Some(x) => x,
                    None => 0,
                },
                num_experts_per_tok: match first_truthy_u64(config, "num_experts_per_tok", "num_experts_per_token") {
                    Some(x) => x,
                    None => 1,
                },
                moe_intermediate_size: match first_truthy_u64(config, "moe_intermediate_size", "intermediate_size") {
                    Some(x) => x,
                    None => 0,
                },
            },
        ),
        None => None,
    }
}

/// The sliding-window length, when set and truthy.
pub fn detect_sliding_window(config: &JsonValue) -> (res: Option<u64>)
    ensures
        res == spec_get_truthy_u64(*config, "sliding_window"@),
{
    get_truthy_u64(config, "sliding_window")
}

/// The items of a JSON array that read as counts, in order.
pub open spec fn count_items(a: Seq<JsonValue>) -> Seq<u64>
    decreases a.len(),
{
    if a.len() == 0 {
        Seq::empty()
    } else {
        let rest = count_items(a.drop_last());
        match spec_value_to_u64(a.last()) {
            Some(n) => rest.push(n),
            None => rest,
        }
    }
}

/// `compress_ratios`, when it is an array: its items that read as counts.
pub open spec fn spec_compress_ratios(config: JsonValue) -> Option<Seq<u64>> {
    match spec_get(config, "compress_ratios"@) {
        Some(JsonValue::Array(a)) => Some(count_items(a@)),
        _ => None,
    }
}

fn compress_ratios(config: &JsonValue) -> (res: Option<Vec<u64>>)
    ensures
        match res {
            Some(v) => spec_compress_ratios(*config) == Some(v@),
            None => spec_compress_ratios(*config) is None,
        },
{
    match get(config, "compress_ratios") {
        Some(JsonValue::Array(a)) => {
            let mut out: Vec<u64> = Vec::new();
            let mut i: usize = 0;
            while i < a.len()
                invariant
                    i <= a@.len(),
                    out@ == count_items(a@.subrange(0, i as int)),
                decreases a.len() - i,
            {
                assert(a@.subrange(0, i + 1).drop_last() =~= a@.subrange(0, i as int));
                match value_to_u64(&a[i]) {
                    Some(n) => out.push(n),
                    None => {},
                }
                i = i + 1;
            }
            assert(a@.subrange(0, a@.len() as int) =~= a@);
            Some(out)
        },
        _ => None,
    }
}

/// The sparse-attention block: `nsa_config`, else `sparse_attention_cfg`,
/// provided the one found is an object.
pub open spec fn spec_nsa_config(config: JsonValue) -> Option<JsonValue> {
    let found = match spec_get(config, "nsa_config"@) {
        Some(v) => Some(v),
        None => spec_get(config, "sparse_attention_cfg"@),
    };
    match found {
        Some(JsonValue::Object(m)) => Some(JsonValue::Object(m)),
        _ => None,
    }
}

/// The sparse-attention top-k: `topk`, else `index_topk`, of the block, when
/// it reads as a positive count.
pub open spec fn spec_nsa_topk(config: JsonValue) -> Option<u64> {
    match spec_nsa_config(config) {
        Some(cfg) => {
            let t = match spec_get(cfg, "topk"@) {
                Some(v) => Some(v),
                None => spec_get(cfg, "index_topk"@),
            };
            match t {
                Some(v) => match spec_value_to_u64(v) {
                    Some(k) => if k > 0 {
                        Some(k)
                    } else {
                        None
                    },
                    None => None,
                },
                None => None,
            }
        },
        None => None,
    }
}

fn nsa_topk(config: &JsonValue) -> (res: Option<u64>)
    ensures
        res == spec_nsa_topk(*config),
{
    let found = match get(config, "nsa_config") {
        Some(v) => Some(v),
        None => get(config, "sparse_attention_cfg"),
    };
    match found {
        Some(cfg) => match cfg {
            JsonValue::Object(_) => {
                let t = match get(cfg, "topk") {
                    Some(v) => Some(v),
                    None => get(cfg, "index_topk"),
                };
                match t {
                    Some(v) => match value_to_u64(v) {
                        Some(k) => if k > 0 {
                            Some(k)
                        } else {
                            None
                        },
                        None => None,
                    },
                    None => None,
                }
            },
            _ => None,
        },
        None => None,
    }
}

/// Head dimension: `head_dim` when truthy, else `hidden_size / heads`, and 1
/// where that comes to 0 (or the heads are 0).
pub open spec fn spec_head_dim(config: JsonValue, num_heads: u64) -> u64 {
    match spec_get_truthy_u64(config, "head_dim"@) {
        Some(d) => d,
        None => {
            let hidden = unwrap_or_u64(spec_get_u64(config, "hidden_size"@), 0);
            let computed = if num_heads == 0 {
                0
            } else {
                (hidden / num_heads) as u64
            };
            if computed == 0 {
                1
            } else {
                computed
            }
        },
    }
}

/// Which attention a config describes. In order: CSA+HCA when the compress
/// ratios cover the layers (with or without the next-token layers), NSA
/// when a sparse-attention block is present, MLA when a LoRA rank is set,
/// then MQA or GQA when there are fewer KV heads than heads, else MHA.
pub open spec fn spec_attention_variant(config: JsonValue) -> AttentionVariant {
    let num_heads = unwrap_or_u64(spec_get_u64(config, "num_attention_heads"@), 1);
    let num_kv_heads = unwrap_or_u64(spec_get_u64(config, "num_key_value_heads"@), num_heads);
    let num_layers = unwrap_or_u64(spec_get_u64(config, "num_hidden_layers"@), 0);
    let nextn = unwrap_or_u64(spec_get_u64(config, "num_nextn_predict_layers"@), 0);
    let csa = match spec_compress_ratios(config) {
        Some(r) => num_layers > 0 && (r.len() == num_layers || r.len() == num_layers + nextn),
        None => false,
    };
    if csa {
        AttentionVariant::CsaHca
    } else if spec_get(config, "nsa_config"@) is Some || spec_get(config, "sparse_attention_cfg"@) is Some {
        AttentionVariant::Nsa
    } else if spec_get_truthy_u64(config, "q_lora_rank"@) is Some || spec_get_truthy_u64(config, "kv_lora_rank"@) is Some {
        AttentionVariant::Mla
    } else if num_kv_heads < num_heads {
        if num_kv_heads == 1 {
            AttentionVariant::Mqa
        } else {
            AttentionVariant::Gqa
        }
    } else {
        AttentionVariant::Mha
    }
}

pub open spec fn ratios_view(r: Option<Vec<u64>>) -> Option<Seq<u64>> {
    match r {
        Some(v) => Some(v@),
        None => None,
    }
}

/// The attention traits of a config: the variant above, head counts (one
/// head, and as many KV heads as heads, by default), and the fields that
/// belong to the variant: LoRA ranks and the decoupled RoPE dimension for
/// MLA and CSA+HCA, the ratios for CSA+HCA, the top-k for NSA.
pub open spec fn detects_attention(t: AttentionTraits, config: JsonValue) -> bool {
    let num_heads = unwrap_or_u64(spec_get_u64(config, "num_attention_heads"@), 1);
    let v = spec_attention_variant(config);
    let low_rank = v == AttentionVariant::Mla || v == AttentionVariant::CsaHca;
    &&& t.variant == v
    &&& t.num_heads == num_heads
    &&& t.num_kv_heads == unwrap_or_u64(spec_get_u64(config, "num_key_value_heads"@), num_heads)
    &&& t.head_dim == spec_head_dim(config, num_heads)
    &&& t.q_lora_rank == (if low_rank { spec_get_truthy_u64(config, "q_lora_rank"@) } else { None })
    &&& t.kv_lora_rank == (if low_rank { spec_get_truthy_u64(config, "kv_lora_rank"@) } else { None })
    &&& t.qk_rope_head_dim == (if low_rank { spec_get_truthy_u64(config, "qk_rope_head_dim"@) } else { None })
    &&& ratios_view(t.compress_ratios) == (if v == AttentionVariant::CsaHca { spec_compress_ratios(config) } else { None })
    &&& t.nsa_topk == (if v == AttentionVariant::Nsa { spec_nsa_topk(config) } else { None })
}

pub fn detect_attention(config: &JsonValue) -> (t: AttentionTraits)
    ensures
        detects_attention(t, *config),
{
    let num_heads = match get_u64(config, "num_attention_heads") {
        Some(x) => x,
        None => 1,
    };
    let num_kv_heads = match get_u64(config, "num_key_value_heads") {
        Some(x) => x,
        None => num_heads,
    };
    let head_dim = match get_truthy_u64(config, "head_dim") {
        Some(d) => d,
        None => {
            let hidden = match get_u64(config, "hidden_size") {
                Some(x) => x,
                None => 0,
            };
            let computed = if num_heads == 0 {
                0
            } else {
                hidden / num_heads
            };
            if computed == 0 {
                1
            } else {
                computed
            }
        },
    };
    let num_layers = match get_u64(config, "num_hidden_layers") {
        Some(x) => x,
        None => 0,
    };
    let q_lora = get_truthy_u64(config, "q_lora_rank");
    let kv_lora = get_truthy_u64(config, "kv_lora_rank");
    let rope_dim = get_truthy_u64(config, "qk_rope_head_dim");
    let nextn = match get_u64(config, "num_nextn_predict_layers") {
        Some(x) => x,
        None => 0,
    };
    let ratios = compress_ratios(config);
    let csa = match &ratios {
        Some(r) => num_layers > 0 && (r.len() as u64 == num_layers || r.len() as u128 == num_layers as u128
            + nextn as u128),
        None => false,
    };
    if csa {
        return AttentionTraits {
            variant: AttentionVariant::CsaHca,
            num_heads,
            num_kv_heads,
            head_dim,
            q_lora_rank: q_lora,
            kv_lora_rank: kv_lora,
            qk_rope_head_dim: rope_dim,
            compress_ratios: ratios,
            nsa_topk: None,
        };
    }
    if has_key(config, "nsa_config") || has_key(config, "sparse_attention_cfg") {
        return AttentionTraits {
            variant: AttentionVariant::Nsa,
            num_heads,
            num_kv_heads,
            head_dim,
            q_lora_rank: None,
            kv_lora_rank: None,
            qk_rope_head_dim: None,
            compress_ratios: None,
            nsa_topk: nsa_topk(config),
        };
    }
    if q_lora.is_some() || kv_lora.is_some() {
        return AttentionTraits {
            variant: AttentionVariant::Mla,
            num_heads,
            num_kv_heads,
            head_dim,
            q_lora_rank: q_lora,
            kv_lora_rank: kv_lora,
            qk_rope_head_dim: rope_dim,
            compress_ratios: None,
            nsa_topk: None,
        };
    }
    let variant = if num_kv_heads < num_heads {
        if num_kv_heads == 1 {
            AttentionVariant::Mqa
        } else {
            AttentionVariant::Gqa
        }
    } else {
        AttentionVariant::Mha
    };
    AttentionTraits {
        variant,
        num_heads,
        num_kv_heads,
        head_dim,
        q_lora_rank: None,
        kv_lora_rank: None,
        qk_rope_head_dim: None,
        compress_ratios: None,
        nsa_topk: None,
    }
}

fn copy_number(n: &JsonNumber) -> (r: JsonNumber)
    ensures
        r == *n,
{
    match n {
        JsonNumber::Unsigned(x) => JsonNumber::Unsigned(*x),
        JsonNumber::Negative(x) => JsonNumber::Negative(*x),
        JsonNumber::Float { nonzero, nonneg_trunc, text } => JsonNumber::Float {
            nonzero: *nonzero,
            nonneg_trunc: *nonneg_trunc,
            text: text.clone(),
        },
    }
}

/// A JSON value that is not a container, as a scalar.
pub open spec fn spec_scalar(v: JsonValue) -> Option<JsonScalar> {
    match v {
        JsonValue::Null => Some(JsonScalar::Null),
        JsonValue::Bool(b) => Some(JsonScalar::Bool(b)),
        JsonValue::Number(n) => Some(JsonScalar::Number(n)),
        JsonValue::Text(s) => Some(JsonScalar::Text(s)),
        _ => None,
    }
}

/// A value kept as written, provided it is truthy and not a container.
pub open spec fn truthy_scalar(v: Option<JsonValue>) -> Option<JsonScalar> {
    match v {
        Some(x) => if truthy(x) {
            spec_scalar(x)
        } else {
            None
        },
        None => None,
    }
}

fn truthy_scalar_of(v: Option<&JsonValue>) -> (r: Option<JsonScalar>)
    ensures
        r == truthy_scalar(crate::json::deref_opt(v)),
{
    match v {
        Some(x) => if is_truthy(x) {
            match x {
                JsonValue::Null => Some(JsonScalar::Null),
                JsonValue::Bool(b) => Some(JsonScalar::Bool(*b)),
                JsonValue::Number(n) => Some(JsonScalar::Number(copy_number(n))),
                JsonValue::Text(s) => Some(JsonScalar::Text(s.clone())),
                _ => None,
            }
        } else {
            None
        },
        None => None,
    }
}

/// `rope_scaling`, when it is an object.
pub open spec fn spec_rope_scaling(config: JsonValue) -> Option<JsonValue> {
    match spec_get(config, "rope_scaling"@) {
        Some(JsonValue::Object(m)) => Some(JsonValue::Object(m)),
        _ => None,
    }
}

/// The RoPE kind as written: `rope_scaling.type`, else
/// `rope_scaling.rope_type`, when that is a string; `rope` otherwise.
pub open spec fn raw_rope_type(config: JsonValue) -> Seq<char> {
    match spec_rope_scaling(config) {
        Some(scaling) => {
            let t = match spec_get(scaling, "type"@) {
                Some(v) => Some(v),
                None => spec_get(scaling, "rope_type"@),
            };
            match t {
                Some(JsonValue::Text(x)) => x@,
                _ => "rope"@,
            }
        },
        None => "rope"@,
    }
}

pub open spec fn is_rope_kind(t: Seq<char>) -> bool {
    t == "rope"@ || t == "yarn"@ || t == "alibi"@ || t == "none"@
}

/// The RoPE kind, lower-cased; kinds other than rope, yarn, alibi and none
/// read as rope.
pub open spec fn rope_type_name(config: JsonValue) -> Seq<char> {
    let l = spec_to_lowercase(raw_rope_type(config));
    if is_rope_kind(l) {
        l
    } else {
        "rope"@
    }
}

/// The position traits of a config.
pub open spec fn detects_position(p: PositionTraits, config: JsonValue) -> bool {
    &&& p.rope_type matches Some(t) && t@ == rope_type_name(config)
    &&& p.rope_theta == truthy_scalar(spec_get(config, "rope_theta"@))
    &&& p.rope_scaling_factor == (match spec_rope_scaling(config) {
        Some(scaling) => truthy_scalar(spec_get(scaling, "factor"@)),
        None => None,
    })
    &&& p.max_position_embeddings == spec_get_truthy_u64(config, "max_position_embeddings"@)
}

fn is_rope_kind_exec(t: &str) -> (b: bool)
    ensures
        b == is_rope_kind(t@),
{
    str_eq(t, "rope") || str_eq(t, "yarn") || str_eq(t, "alibi") || str_eq(t, "none")
}

pub fn detect_position(config: &JsonValue) -> (p: PositionTraits)
    ensures
        detects_position(p, *config),
{
    let scaling = match get(config, "rope_scaling") {
        Some(v) => match v {
            JsonValue::Object(_) => Some(v),
            _ => None,
        },
        None => None,
    };
    let raw: &str = match scaling {
        Some(sc) => {
            let t = match get(sc, "type") {
                Some(v) => Some(v),
                None => get(sc, "rope_type"),
            };
            match t {
                Some(JsonValue::Text(x)) => x.as_str(),
                _ => "rope",
            }
        },
        None => "rope",
    };
    let lower = to_lowercase(raw);
    let rope_type = if is_rope_kind_exec(lower.as_str()) {
        lower
    } else {
        "rope".to_string()
    };
    let factor = match scaling {
        Some(sc) => truthy_scalar_of(get(sc, "factor")),
        None => None,
    };
    PositionTraits {
        rope_type: Some(rope_type),
        rope_theta: truthy_scalar_of(get(config, "rope_theta")),
        rope_scaling_factor: factor,
        max_position_embeddings: get_truthy_u64(config, "max_position_embeddings"),
    }
}

/// A config value as text: a string as it is, null as `None`, anything else
/// as compact JSON.
pub open spec fn stringified(v: JsonValue) -> Seq<char> {
    match v {
        JsonValue::Text(s) => s@,
        JsonValue::Null => "None"@,
        _ => json_text(v),
    }
}

pub fn stringify_value(v: &JsonValue) -> (s: String)
    ensures
        s@ == stringified(*v),
{
    match v {
        JsonValue::Text(t) => t.clone(),
        JsonValue::Null => "None".to_string(),
        _ => to_json_string(v),
    }
}

/// `model_type`, as text and lower-cased; empty when absent.
pub open spec fn spec_model_type(config: JsonValue) -> Seq<char> {
    spec_to_lowercase(
        match spec_get(config, "model_type"@) {
            Some(v) => stringified(v),
            None => ""@,
        },
    )
}

pub fn model_type(config: &JsonValue) -> (s: String)
    ensures
        s@ == spec_model_type(*config),
{
    match get(config, "model_type") {
        Some(v) => to_lowercase(stringify_value(v).as_str()),
        None => to_lowercase(""),
    }
}

pub open spec fn lowered_text(v: JsonValue) -> Seq<char> {
    spec_to_lowercase(stringified(v))
}

/// `architectures`, each as text and lower-cased; empty unless an array.
pub open spec fn spec_architectures(config: JsonValue) -> Seq<Seq<char>> {
    match spec_get(config, "architectures"@) {
        Some(JsonValue::Array(a)) => a@.map_values(|v: JsonValue| lowered_text(v)),
        _ => Seq::empty(),
    }
}

pub fn architectures(config: &JsonValue) -> (r: Vec<String>)
    ensures
        views(r@) == spec_architectures(*config),
{
    let mut out: Vec<String> = Vec::new();
    match get(config, "architectures") {
        Some(JsonValue::Array(a)) => {
            let mut i: usize = 0;
            while i < a.len()
                invariant
                    i <= a@.len(),
                    views(out@) == a@.subrange(0, i as int).map_values(|v: JsonValue| lowered_text(v)),
                decreases a.len() - i,
            {
                let t = to_lowercase(stringify_value(&a[i]).as_str());
                proof {
                    lemma_views_push(out@, t);
                    assert(a@.subrange(0, i + 1).map_values(|v: JsonValue| lowered_text(v)) =~= a@.subrange(
                        0,
                        i as int,
                    ).map_values(|v: JsonValue| lowered_text(v)).push(lowered_text(a@[i as int])));
                }
                out.push(t);
                i = i + 1;
            }
            assert(a@.subrange(0, a@.len() as int) =~= a@);
        },
        _ => {
            assert(views(out@) =~= Seq::<Seq<char>>::empty());
        },
    }
    out
}

/// Model types whose detection rules are known to hold.
pub open spec fn is_known_type(t: Seq<char>) -> bool {
    t == "llama"@ || t == "mistral"@ || t == "mixtral"@ || t == "qwen2"@ || t == "qwen2_moe"@ || t == "qwen3"@
        || t == "qwen3_moe"@ || t == "deepseek_v2"@ || t == "deepseek_v3"@ || t == "deepseek_v3_2"@
        || t == "deepseek_v4"@ || t == "gemma"@ || t == "gemma2"@ || t == "gemma3"@ || t == "phi"@
        || t == "phi3"@
}

fn is_known_type_exec(t: &str) -> (b: bool)
    ensures
        b == is_known_type(t@),
{
    str_eq(t, "llama") || str_eq(t, "mistral") || str_eq(t, "mixtral") || str_eq(t, "qwen2") || str_eq(
        t,
        "qwen2_moe",
    ) || str_eq(t, "qwen3") || str_eq(t, "qwen3_moe") || str_eq(t, "deepseek_v2") || str_eq(t, "deepseek_v3")
        || str_eq(t, "deepseek_v3_2") || str_eq(t, "deepseek_v4") || str_eq(t, "gemma") || str_eq(t, "gemma2")
        || str_eq(t, "gemma3") || str_eq(t, "phi") || str_eq(t, "phi3")
}

/// State-space model types.
pub open spec fn is_state_space_type(t: Seq<char>) -> bool {
    t == "mamba"@ || t == "mamba2"@ || t == "falcon_mamba"@ || t == "jamba"@
}

fn is_state_space_type_exec(t: &str) -> (b: bool)
    ensures
        b == is_state_space_type(t@),
{
    str_eq(t, "mamba") || str_eq(t, "mamba2") || str_eq(t, "falcon_mamba") || str_eq(t, "jamba")
}

/// The warning an unknown profile carries.
pub open spec fn unknown_warning() -> Seq<char> {
    "No recognizable model_type or missing essential config fields. Weight estimate from safetensors file size only; KV cache cannot be estimated; engine compatibility unknown."@
}

/// The fields every profile takes from the config the same way.
pub open spec fn basic_shape(p: ArchitectureProfile, config: JsonValue) -> bool {
    &&& p.model_type@ == spec_model_type(config)
    &&& views(p.architectures@) == spec_architectures(config)
    &&& p.vocab_size == unwrap_or_u64(spec_get_u64(config, "vocab_size"@), 0)
}

/// A profile with nothing detected beyond the basic shape.
pub open spec fn bare_shape(p: ArchitectureProfile, config: JsonValue) -> bool {
    &&& basic_shape(p, config)
    &&& p.num_hidden_layers == unwrap_or_u64(spec_get_u64(config, "num_hidden_layers"@), 0)
    &&& p.hidden_size == unwrap_or_u64(spec_get_u64(config, "hidden_size"@), 0)
    &&& p.attention is None
    &&& p.moe is None
    &&& p.position is None
    &&& p.sliding_window is None
    &&& p.intermediate_size is None
    &&& !p.tie_word_embeddings
}

/// The fallback: unknown family, low confidence, and a warning that only
/// the file sizes can be used.
pub open spec fn is_fallback(p: ArchitectureProfile, config: JsonValue) -> bool {
    &&& bare_shape(p, config)
    &&& p.family == Family::Unknown
    &&& p.confidence == Confidence::Low
    &&& p.auxiliary@.len() == 1
    &&& p.auxiliary@[0].0@ == "warning"@
    &&& p.auxiliary@[0].1 matches JsonScalar::Text(w) && w@ == unknown_warning()
}

pub fn fallback_unknown(config: &JsonValue) -> (p: ArchitectureProfile)
    ensures
        is_fallback(p, *config),
{
    let mut auxiliary: Vec<(String, JsonScalar)> = Vec::new();
    auxiliary.push(("warning".to_string(), JsonScalar::Text(
        "No recognizable model_type or missing essential config fields. Weight estimate from safetensors file size only; KV cache cannot be estimated; engine compatibility unknown.".to_string(),
    )));
    ArchitectureProfile {
        model_type: model_type(config),
        architectures: architectures(config),
        family: Family::Unknown,
        num_hidden_layers: match get_u64(config, "num_hidden_layers") {
            Some(x) => x,
            None => 0,
        },
        hidden_size: match get_u64(config, "hidden_size") {
            Some(x) => x,
            None => 0,
        },
        vocab_size: match get_u64(config, "vocab_size") {
            Some(x) => x,
            None => 0,
        },
        confidence: Confidence::Low,
        attention: None,
        moe: None,
        position: None,
        sliding_window: None,
        intermediate_size: None,
        tie_word_embeddings: false,
        auxiliary,
    }
}

/// `intermediate_size` when written as a non-negative integer.
pub open spec fn spec_intermediate_size(config: JsonValue) -> Option<u64> {
    match spec_get(config, "intermediate_size"@) {
        Some(JsonValue::Number(JsonNumber::Unsigned(n))) => Some(n),
        _ => None,
    }
}

/// `tie_word_embeddings`, by its truth value, when present.
pub open spec fn spec_tie(config: JsonValue) -> Option<bool> {
    match spec_get(config, "tie_word_embeddings"@) {
        Some(v) => Some(truthy(v)),
        None => None,
    }
}

/// The facts a transformer profile keeps by name: `intermediate_size` and
/// `tie_word_embeddings`, each when present, in that order.
pub open spec fn transformer_auxiliary(aux: Seq<(String, JsonScalar)>, config: JsonValue) -> bool {
    let a = match spec_intermediate_size(config) {
        Some(n) => seq![("intermediate_size"@, JsonScalar::Number(JsonNumber::Unsigned(n)))],
        None => Seq::empty(),
    };
    let b = match spec_tie(config) {
        Some(t) => seq![("tie_word_embeddings"@, JsonScalar::Bool(t))],
        None => Seq::empty(),
    };
    aux.map_values(|e: (String, JsonScalar)| (e.0@, e.1)) == a + b
}

/// Whether a config is a state-space model: a state-space model type or an
/// `ssm_cfg` block.
pub open spec fn is_state_space_config(config: JsonValue) -> bool {
    is_state_space_type(spec_model_type(config)) || spec_get(config, "ssm_cfg"@) is Some
}

/// What `detect` makes of a config. A state-space model is reported as
/// such, with high confidence and marked unsupported. A config with neither
/// a model type nor architectures, or without a truthy layer count or
/// hidden size, falls back to the unknown profile. Anything else is a
/// transformer: high confidence for known model types, medium otherwise,
/// with its attention, experts, position encoding and sliding window.
pub open spec fn detects_profile(p: ArchitectureProfile, config: JsonValue) -> bool {
    if is_state_space_config(config) {
        &&& bare_shape(p, config)
        &&& p.family == Family::StateSpace
        &&& p.confidence == Confidence::High
        &&& p.auxiliary@.len() == 1
        &&& p.auxiliary@[0].0@ == "v0_1_unsupported"@
        &&& p.auxiliary@[0].1 == JsonScalar::Bool(true)
    } else if (spec_model_type(config).len() == 0 && spec_architectures(config).len() == 0)
        || spec_get_truthy_u64(config, "num_hidden_layers"@) is None
        || spec_get_truthy_u64(config, "hidden_size"@) is None {
        is_fallback(p, config)
    } else {
        &&& basic_shape(p, config)
        &&& p.family == Family::Transformer
        &&& p.num_hidden_layers == spec_get_truthy_u64(config, "num_hidden_layers"@)->0
        &&& p.hidden_size == spec_get_truthy_u64(config, "hidden_size"@)->0
        &&& p.confidence == (if is_known_type(spec_model_type(config)) {
            Confidence::High
        } else {
            Confidence::Medium
        })
        &&& p.attention matches Some(a) && detects_attention(a, config)
        &&& p.moe == spec_detect_moe(config)
        &&& p.position matches Some(pos) && detects_position(pos, config)
        &&& p.sliding_window == spec_get_truthy_u64(config, "sliding_window"@)
        &&& p.intermediate_size == spec_intermediate_size(config)
        &&& p.tie_word_embeddings == (spec_tie(config) == Some(true))
        &&& transformer_auxiliary(p.auxiliary@, config)
    }
}

fn push_aux(aux: &mut Vec<(String, JsonScalar)>, key: String, value: JsonScalar)
    ensures
        final(aux)@.map_values(|e: (String, JsonScalar)| (e.0@, e.1)) == old(aux)@.map_values(
            |e: (String, JsonScalar)| (e.0@, e.1),
        ).push((key@, value)),
{
    aux.push((key, value));
    assert(aux@.map_values(|e: (String, JsonScalar)| (e.0@, e.1)) =~= old(aux)@.map_values(
        |e: (String, JsonScalar)| (e.0@, e.1),
    ).push((key@, value)));
}

/// Builds the architecture profile of a `config.json`.
pub fn detect(config: &JsonValue) -> (p: ArchitectureProfile)
    ensures
        detects_profile(p, *config),
{
    let mt = model_type(config);
    let archs = architectures(config);
    if is_state_space_type_exec(mt.as_str()) || has_key(config, "ssm_cfg") {
        let mut auxiliary: Vec<(String, JsonScalar)> = Vec::new();
        auxiliary.push(("v0_1_unsupported".to_string(), JsonScalar::Bool(true)));
        return ArchitectureProfile {
            model_type: mt,
            architectures: archs,
            family: Family::StateSpace,
            num_hidden_layers: match get_u64(config, "num_hidden_layers") {
                Some(x) => x,
                None => 0,
            },
            hidden_size: match get_u64(config, "hidden_size") {
                Some(x) => x,
                None => 0,
            },
            vocab_size: match get_u64(config, "vocab_size") {
                Some(x) => x,
                None => 0,
            },
            confidence: Confidence::High,
            attention: None,
            moe: None,
            position: None,
            sliding_window: None,
            intermediate_size: None,
            tie_word_embeddings: false,
            auxiliary,
        };
    }
    if mt.as_str().unicode_len() == 0 && archs.len() == 0 {
        return fallback_unknown(config);
    }
    let num_hidden_layers = match get_truthy_u64(config, "num_hidden_layers") {
        Some(x) => x,
        None => {
            return fallback_unknown(config);
        },
    };
    let hidden_size = match get_truthy_u64(config, "hidden_size") {
        Some(x) => x,
        None => {
            return fallback_unknown(config);
        },
    };
    let confidence = if is_known_type_exec(mt.as_str()) {
        Confidence::High
    } else {
        Confidence::Medium
    };
    let intermediate_size = match get(config, "intermediate_size") {
        Some(JsonValue::Number(JsonNumber::Unsigned(n))) => Some(*n),
        _ => None,
    };
    let tie = match get(config, "tie_word_embeddings") {
        Some(v) => Some(is_truthy(v)),
        None => None,
    };
    let mut auxiliary: Vec<(String, JsonScalar)> = Vec::new();
    match intermediate_size {
        Some(n) => push_aux(&mut auxiliary, "intermediate_size".to_string(), JsonScalar::Number(JsonNumber::Unsigned(n))),
        None => {},
    }
    match tie {
        Some(t) => push_aux(&mut auxiliary, "tie_word_embeddings".to_string(), JsonScalar::Bool(t)),
        None => {},
    }
    proof {
        assert(auxiliary@.map_values(|e: (String, JsonScalar)| (e.0@, e.1)) =~= (match spec_intermediate_size(*config) {
            Some(n) => seq![("intermediate_size"@, JsonScalar::Number(JsonNumber::Unsigned(n)))],
            None => Seq::empty(),
        }) + (match spec_tie(*config) {
            Some(t) => seq![("tie_word_embeddings"@, JsonScalar::Bool(t))],
            None => Seq::empty(),
        }));
    }
    ArchitectureProfile {
        model_type: mt,
        architectures: archs,
        family: Family::Transformer,
        num_hidden_layers,
        hidden_size,
        vocab_size: match get_u64(config, "vocab_size") {
            Some(x) => x,
            None => 0,
        },
        confidence,
        attention: Some(detect_attention(config)),
        moe: detect_moe(config),
        position: Some(detect_position(config)),
        sliding_window: detect_sliding_window(config),
        intermediate_size,
        tie_word_embeddings: match tie {
            Some(t) => t,
            None => false,
        },
        auxiliary,
    }
}

} // verus!
