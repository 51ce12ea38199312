//! Parameter-count and weight-byte formulas.
use vstd::prelude::*;
use crate::labels::{AnnotatedValue, Label, opt_string};
use crate::profile::{ArchitectureProfile, AttentionVariant};
use crate::quant::{QuantizationScheme, scheme_of_name, spec_bpp_ratio};
use crate::capped::{cap_add, cap_mul, cap_of, capped};
use crate::text::{dec, grouped, fmt_u64, u64_to_string};

verus! {

/// Attention projection parameters of one layer (q, k, v, o; MLA through its
/// low-rank factors).
pub open spec fn attention_params(p: ArchitectureProfile) -> int {
    match p.attention {
        None => 0,
        Some(a) => {
            let hidden = p.hidden_size as int;
            if a.variant == AttentionVariant::Mla && a.q_lora_rank is Some && a.q_lora_rank->0 > 0 {
                let q = a.q_lora_rank->0 as int;
                let kv = match a.kv_lora_rank {
                    Some(k) => k as int,
                    None => q,
                };
                let head_total = a.num_heads * a.head_dim;
                hidden * q + q * head_total + hidden * kv * 2 + kv * head_total + head_total * q
                    + q * hidden
            } else {
                let q_out = a.num_heads * a.head_dim;
                let kv_out = a.num_kv_heads * a.head_dim;
                hidden * q_out + hidden * kv_out * 2 + q_out * hidden
            }
        },
    }
}

/// The intermediate width of a dense FFN: the configured one, else 4x hidden.
pub open spec fn dense_intermediate(p: ArchitectureProfile) -> int {
    match p.intermediate_size {
        Some(i) => if i > 0 { i as int } else { 4 * p.hidden_size },
        None => 4 * p.hidden_size,
    }
}

/// Parameters of one expert (gate, up and down projections).
pub open spec fn single_expert_params(p: ArchitectureProfile) -> int {
    match p.moe {
        Some(m) => 3 * p.hidden_size * m.moe_intermediate_size,
        None => 0,
    }
}

/// FFN parameters of one layer: every expert plus the router for MoE.
pub open spec fn ffn_params(p: ArchitectureProfile) -> int {
    match p.moe {
        Some(m) => single_expert_params(p) * (m.num_routed_experts + m.num_shared_experts)
            + p.hidden_size * m.num_routed_experts,
        None => 3 * p.hidden_size * dense_intermediate(p),
    }
}

/// FFN parameters that one token touches: routed top-k plus shared experts
/// plus the router.
pub open spec fn active_ffn_params(p: ArchitectureProfile) -> int {
    match p.moe {
        Some(m) => single_expert_params(p) * (m.num_experts_per_tok + m.num_shared_experts)
            + p.hidden_size * m.num_routed_experts,
        None => ffn_params(p),
    }
}

pub open spec fn embedding_params(p: ArchitectureProfile) -> int {
    p.vocab_size * p.hidden_size + if p.tie_word_embeddings {
        0
    } else {
        p.vocab_size * p.hidden_size
    }
}

/// Total parameter count: embeddings, output head and every layer.
pub open spec fn total_params(p: ArchitectureProfile) -> int {
    embedding_params(p) + (attention_params(p) + ffn_params(p) + 2 * p.hidden_size)
        * p.num_hidden_layers
}

/// Parameters touched per token.
pub open spec fn active_params(p: ArchitectureProfile) -> int {
    embedding_params(p) + (attention_params(p) + active_ffn_params(p) + 2 * p.hidden_size)
        * p.num_hidden_layers
}

pub open spec fn has_shape(p: ArchitectureProfile) -> bool {
    p.num_hidden_layers > 0 && p.hidden_size > 0
}

/// The parameter formulas evaluate within `u64` for this profile.
pub open spec fn params_fit(p: ArchitectureProfile) -> bool {
    has_shape(p) ==> total_params(p) <= u64::MAX
}

proof fn lemma_mul_ge(x: int, y: int)
    requires
        x >= 0,
        y >= 1,
    ensures
        x <= x * y,
{
    assert(x <= x * y) by (nonlinear_arith)
        requires
            x >= 0,
            y >= 1,
    ;
}

proof fn lemma_mul_nonneg(x: int, y: int)
    requires
        x >= 0,
        y >= 0,
    ensures
        x * y >= 0,
{
    assert(x * y >= 0) by (nonlinear_arith)
        requires
            x >= 0,
            y >= 0,
    ;
}

proof fn lemma_mul_mono(x: int, y: int, z: int)
    requires
        0 <= x <= y,
        z >= 0,
    ensures
        x * z <= y * z,
{
    assert(x * z <= y * z) by (nonlinear_arith)
        requires
            0 <= x <= y,
            z >= 0,
    ;
}

/// Every term of the formulas is non-negative.
proof fn lemma_params_parts(p: ArchitectureProfile)
    ensures
        attention_params(p) >= 0,
        ffn_params(p) >= 0,
        active_ffn_params(p) >= 0,
        single_expert_params(p) >= 0,
        p.vocab_size * p.hidden_size >= 0,
        embedding_params(p) >= p.vocab_size * p.hidden_size,
        total_params(p) >= embedding_params(p),
        active_params(p) >= embedding_params(p),
{
    let h = p.hidden_size as int;
    lemma_mul_nonneg(p.vocab_size as int, h);
    match p.attention {
        None => {},
        Some(a) => {
            lemma_mul_nonneg(a.num_heads as int, a.head_dim as int);
            lemma_mul_nonneg(a.num_kv_heads as int, a.head_dim as int);
            let head_total = a.num_heads * a.head_dim;
            let kv_out = a.num_kv_heads * a.head_dim;
            lemma_mul_nonneg(h, head_total);
            lemma_mul_nonneg(h, kv_out);
            lemma_mul_nonneg(h * kv_out, 2);
            lemma_mul_nonneg(head_total, h);
            if a.variant == AttentionVariant::Mla && a.q_lora_rank is Some && a.q_lora_rank->0
                > 0 {
                let q = a.q_lora_rank->0 as int;
                let kv = match a.kv_lora_rank {
                    Some(k) => k as int,
                    None => q,
                };
                lemma_mul_nonneg(h, q);
                lemma_mul_nonneg(q, head_total);
                lemma_mul_nonneg(h, kv);
                lemma_mul_nonneg(h * kv, 2);
                lemma_mul_nonneg(kv, head_total);
                lemma_mul_nonneg(head_total, q);
                lemma_mul_nonneg(q, h);
            }
        },
    }
    match p.moe {
        Some(m) => {
            lemma_mul_nonneg(3 * h, m.moe_intermediate_size as int);
            let single = single_expert_params(p);
            lemma_mul_nonneg(single, (m.num_routed_experts + m.num_shared_experts) as int);
            lemma_mul_nonneg(single, (m.num_experts_per_tok + m.num_shared_experts) as int);
            lemma_mul_nonneg(h, m.num_routed_experts as int);
        },
        None => {
            lemma_mul_nonneg(3 * h, dense_intermediate(p));
        },
    }
    lemma_mul_nonneg(attention_params(p) + ffn_params(p) + 2 * h, p.num_hidden_layers as int);
    lemma_mul_nonneg(attention_params(p) + active_ffn_params(p) + 2 * h, p.num_hidden_layers as int);
}

proof fn lemma_factor_le(x: int, y: int, b: int)
    requires
        x >= 0,
        y >= 1,
        x * y <= b,
    ensures
        x <= b,
        y * x <= b,
{
    assert(x <= b && y * x <= b) by (nonlinear_arith)
        requires
            x >= 0,
            y >= 1,
            x * y <= b,
    ;
}

/// `a * b`, for operands whose product fits.
pub fn prod(a: u64, b: u64) -> (r: u64)
    requires
        a * b <= u64::MAX,
    ensures
        r == a * b,
{
    a * b
}

fn attention_params_exec(p: &ArchitectureProfile) -> (r: u64)
    requires
        p.hidden_size > 0,
        attention_params(*p) <= u64::MAX,
    ensures
        r == attention_params(*p),
{
    match &p.attention {
        None => 0,
        Some(a) => {
            let h = p.hidden_size;
            proof {
                lemma_mul_nonneg(a.num_heads as int, a.head_dim as int);
                lemma_mul_nonneg(a.num_kv_heads as int, a.head_dim as int);
            }
            let ghost head_total: int = a.num_heads * a.head_dim;
            let ghost kv_out: int = a.num_kv_heads * a.head_dim;
            let is_mla = match a.variant {
                AttentionVariant::Mla => true,
                _ => false,
            };
            let q_lora: u64 = match a.q_lora_rank {
                Some(q) => q,
                None => 0,
            };
            if is_mla && q_lora > 0 {
                let q = q_lora;
                let kv: u64 = match a.kv_lora_rank {
                    Some(k) => k,
                    None => q,
                };
                let ghost total: int = attention_params(*p);
                proof {
                    lemma_mul_nonneg(h as int, q as int);
                    lemma_mul_nonneg(q as int, head_total);
                    lemma_mul_nonneg(h as int, kv as int);
                    lemma_mul_nonneg(h * kv, 2);
                    lemma_mul_nonneg(kv as int, head_total);
                    lemma_mul_nonneg(head_total, q as int);
                    lemma_mul_nonneg(q as int, h as int);
                    lemma_factor_le(head_total, q as int, total);
                }
                let ht = prod(a.num_heads, a.head_dim);
                let t1 = prod(h, q);
                let t2 = prod(q, ht);
                proof {
                    lemma_factor_le(h * kv, 2, total);
                }
                let hk = prod(h, kv);
                let t3 = prod(hk, 2);
                let t4 = prod(kv, ht);
                let t5 = prod(ht, q);
                let t6 = prod(q, h);
                t1 + t2 + t3 + t4 + t5 + t6
            } else {
                let ghost total: int = attention_params(*p);
                proof {
                    lemma_mul_nonneg(h as int, head_total);
                    lemma_mul_nonneg(h as int, kv_out);
                    lemma_mul_nonneg(h * kv_out, 2);
                    lemma_mul_nonneg(head_total, h as int);
                    lemma_factor_le(head_total, h as int, total);
                    lemma_factor_le(h * kv_out, 2, total);
                    lemma_factor_le(kv_out, h as int, h * kv_out);
                }
                let q_out = prod(a.num_heads, a.head_dim);
                let kv_o = prod(a.num_kv_heads, a.head_dim);
                let t1 = prod(h, q_out);
                let hk = prod(h, kv_o);
                let t2 = prod(hk, 2);
                let t3 = prod(q_out, h);
                t1 + t2 + t3
            }
        },
    }
}

fn ffn_params_exec(p: &ArchitectureProfile, active: bool) -> (r: u64)
    requires
        p.hidden_size > 0,
        (if active { active_ffn_params(*p) } else { ffn_params(*p) }) <= u64::MAX,
    ensures
        r == (if active { active_ffn_params(*p) } else { ffn_params(*p) }),
{
    let h = p.hidden_size;
    match &p.moe {
        Some(m) => {
            let ghost total: int = if active { active_ffn_params(*p) } else { ffn_params(*p) };
            let ghost single: int = single_expert_params(*p);
            proof {
                lemma_mul_nonneg(3 * h, m.moe_intermediate_size as int);
                lemma_mul_nonneg(single, (m.num_routed_experts + m.num_shared_experts) as int);
                lemma_mul_nonneg(single, (m.num_experts_per_tok + m.num_shared_experts) as int);
                lemma_mul_nonneg(h as int, m.num_routed_experts as int);
            }
            let t_router = prod(h, m.num_routed_experts);
            let experts_u: u128 = if active {
                m.num_experts_per_tok as u128 + m.num_shared_experts as u128
            } else {
                m.num_routed_experts as u128 + m.num_shared_experts as u128
            };
            if m.moe_intermediate_size == 0 || experts_u == 0 {
                proof {
                    if m.moe_intermediate_size == 0 {
                        assert(single == 0) by (nonlinear_arith)
                            requires
                                single == 3 * h * m.moe_intermediate_size,
                                m.moe_intermediate_size == 0,
                        ;
                    }
                    assert(single * experts_u == 0) by (nonlinear_arith)
                        requires
                            single == 0 || experts_u == 0,
                    ;
                }
                t_router
            } else {
                proof {
                    assert(single >= 3) by (nonlinear_arith)
                        requires
                            single == 3 * h * m.moe_intermediate_size,
                            h >= 1,
                            m.moe_intermediate_size >= 1,
                    ;
                    lemma_factor_le(experts_u as int, single, total);
                    lemma_factor_le(single, experts_u as int, total);
                    assert(3 * h * m.moe_intermediate_size == (h * m.moe_intermediate_size) * 3)
                        by (nonlinear_arith);
                    lemma_factor_le(h * m.moe_intermediate_size, 3, single);
                }
                let experts = experts_u as u64;
                let hi = prod(h, m.moe_intermediate_size);
                let single_x = prod(3, hi);
                let t_experts = prod(single_x, experts);
                t_experts + t_router
            }
        },
        None => {
            let ghost total: int = ffn_params(*p);
            let ghost inter_s: int = dense_intermediate(*p);
            proof {
                assert(inter_s >= 0);
                lemma_mul_nonneg(3 * h, inter_s);
                if inter_s > 0 {
                    lemma_factor_le(inter_s, 3 * h, total);
                }
                assert(3 * h * inter_s == 3 * (h * inter_s)) by (nonlinear_arith);
                lemma_mul_nonneg(h as int, inter_s);
            }
            let inter: u64 = match p.intermediate_size {
                Some(i) => if i > 0 { i } else { 4 * h },
                None => 4 * h,
            };
            proof {
                if inter > 0 {
                    lemma_factor_le(h * inter, 3, total);
                } else {
                    assert(h * inter == 0) by (nonlinear_arith) requires inter == 0;
                }
            }
            let hi = prod(h, inter);
            prod(3, hi)
        },
    }
}

pub open spec fn params_note(p: ArchitectureProfile, ffn: int, ffn_word: Seq<char>) -> Seq<char> {
    dec(p.vocab_size as nat) + " vocab * "@ + dec(p.hidden_size as nat)
        + " hidden * 2 (embed+head) + "@ + dec(p.num_hidden_layers as nat) + " layers * ("@
        + grouped(attention_params(p) as nat) + " attn + "@ + grouped(ffn as nat) + ffn_word
        + " + norms)"@
}

pub open spec fn total_params_note(p: ArchitectureProfile) -> Seq<char> {
    params_note(p, ffn_params(p), " ffn"@)
}

pub open spec fn active_params_note(p: ArchitectureProfile) -> Seq<char> {
    params_note(p, active_ffn_params(p), " active ffn"@)
}

fn params_note_exec(p: &ArchitectureProfile, attn: u64, ffn: u64, ffn_word: &str) -> (s: String)
    requires
        attn == attention_params(*p),
    ensures
        s@ == params_note(*p, ffn as int, ffn_word@),
{
    let mut s = u64_to_string(p.vocab_size);
    s.append(" vocab * ");
    s.append(u64_to_string(p.hidden_size).as_str());
    s.append(" hidden * 2 (embed+head) + ");
    s.append(u64_to_string(p.num_hidden_layers).as_str());
    s.append(" layers * (");
    s.append(fmt_u64(attn).as_str());
    s.append(" attn + ");
    s.append(fmt_u64(ffn).as_str());
    s.append(ffn_word);
    s.append(" + norms)");
    s
}

fn params_exec(p: &ArchitectureProfile, active: bool) -> (r: (u64, u64, u64))
    requires
        has_shape(*p),
        (if active { active_params(*p) } else { total_params(*p) }) <= u64::MAX,
    ensures
        r.0 == (if active { active_params(*p) } else { total_params(*p) }),
        r.1 == attention_params(*p),
        r.2 == (if active { active_ffn_params(*p) } else { ffn_params(*p) }),
{
    proof {
        lemma_params_parts(*p);
    }
    let ghost t: int = if active { active_params(*p) } else { total_params(*p) };
    let ghost f: int = if active { active_ffn_params(*p) } else { ffn_params(*p) };
    let ghost per_layer: int = attention_params(*p) + f + 2 * p.hidden_size;
    proof {
        lemma_mul_nonneg(per_layer, p.num_hidden_layers as int);
        lemma_factor_le(per_layer, p.num_hidden_layers as int, t - embedding_params(*p));
    }
    let attn = attention_params_exec(p);
    let ffn = ffn_params_exec(p, active);
    let embed = prod(p.vocab_size, p.hidden_size);
    let head: u64 = if p.tie_word_embeddings {
        0
    } else {
        embed
    };
    let layer = attn + ffn + 2 * p.hidden_size;
    let body = prod(layer, p.num_hidden_layers);
    (embed + head + body, attn, ffn)
}

/// Estimated total parameter count from the profile's shape.
pub fn estimate_total_params(profile: &ArchitectureProfile) -> (res: AnnotatedValue<u64>)
    requires
        params_fit(*profile),
    ensures
        !has_shape(*profile) ==> res.value == 0 && res.label == Label::Unknown && opt_string(
            res.source,
        ) == Some("insufficient shape info in profile"@),
        has_shape(*profile) ==> res.value == total_params(*profile) && res.label
            == Label::Estimated && opt_string(res.source) == Some(total_params_note(*profile)),
{
    if profile.num_hidden_layers == 0 || profile.hidden_size == 0 {
        return AnnotatedValue::new(0, Label::Unknown, Some("insufficient shape info in profile"));
    }
    let (total, attn, ffn) = params_exec(profile, false);
    let note = params_note_exec(profile, attn, ffn, " ffn");
    AnnotatedValue::new(total, Label::Estimated, Some(note.as_str()))
}

/// Estimated parameters touched per token: equal to the total for dense
/// models; for MoE only the routed top-k, the shared experts and the router
/// count in each layer's FFN.
pub fn estimate_active_params(profile: &ArchitectureProfile) -> (res: AnnotatedValue<u64>)
    requires
        has_shape(*profile) ==> active_params(*profile) <= u64::MAX,
    ensures
        !has_shape(*profile) ==> res.value == 0 && res.label == Label::Unknown && opt_string(
            res.source,
        ) == Some("insufficient shape info in profile"@),
        has_shape(*profile) ==> res.value == active_params(*profile) && res.label
            == Label::Estimated && opt_string(res.source) == Some(active_params_note(*profile)),
{
    if profile.num_hidden_layers == 0 || profile.hidden_size == 0 {
        return AnnotatedValue::new(0, Label::Unknown, Some("insufficient shape info in profile"));
    }
    let (total, attn, ffn) = params_exec(profile, true);
    let note = params_note_exec(profile, attn, ffn, " active ffn");
    AnnotatedValue::new(total, Label::Estimated, Some(note.as_str()))
}

/// Bytes that `total_params` parameters take under the named scheme.
pub open spec fn predicted_bytes(total_params: u64, scheme: Seq<char>) -> Option<int> {
    match scheme_of_name(scheme) {
        Some(s) => match spec_bpp_ratio(s) {
            Some((n, d)) => Some((total_params * n) as int / d as int),
            None => None,
        },
        None => None,
    }
}

/// The product `total_params * numerator` of the scheme's ratio fits in `u64`.
pub open spec fn predicted_bytes_fit(total_params: u64, scheme: Seq<char>) -> bool {
    match scheme_of_name(scheme) {
        Some(s) => match spec_bpp_ratio(s) {
            Some((n, d)) => total_params * n <= u64::MAX,
            None => true,
        },
        None => true,
    }
}

pub fn predicted_bytes_under_quant(total_params: u64, scheme: &str) -> (res: AnnotatedValue<u64>)
    requires
        predicted_bytes_fit(total_params, scheme@),
    ensures
        predicted_bytes(total_params, scheme@) is Some ==> res.value == predicted_bytes(
            total_params,
            scheme@,
        )->0 && res.label == Label::Estimated && opt_string(res.source) == Some(
            "params multiplied by quantization bytes-per-param"@,
        ),
        predicted_bytes(total_params, scheme@) is None ==> res.value == 0 && res.label
            == Label::Unknown && opt_string(res.source) == Some("no bytes-per-param mapping"@),
{
    let parsed = QuantizationScheme::from_name(scheme);
    match parsed {
        None => AnnotatedValue::new(0, Label::Unknown, Some("no bytes-per-param mapping")),
        Some(s) => match s.bpp_ratio() {
            None => AnnotatedValue::new(0, Label::Unknown, Some("no bytes-per-param mapping")),
            Some((n, d)) => {
                let scaled = total_params * n;
                AnnotatedValue::new(
                    scaled / d,
                    Label::Estimated,
                    Some("params multiplied by quantization bytes-per-param"),
                )
            },
        },
    }
}

/// The parts of the parameter formulas are non-negative and the per-layer
/// sum is bounded by what the layers contribute to the total.
pub proof fn lemma_params_parts_pub(p: ArchitectureProfile)
    requires
        has_shape(p),
    ensures
        attention_params(p) >= 0,
        ffn_params(p) >= 0,
        active_ffn_params(p) >= 0,
        single_expert_params(p) >= 0,
        embedding_params(p) >= 0,
        attention_params(p) + ffn_params(p) + 2 * p.hidden_size <= total_params(p)
            - embedding_params(p),
{
    lemma_params_parts(p);
    let per_layer = attention_params(p) + ffn_params(p) + 2 * p.hidden_size;
    lemma_mul_ge(per_layer, p.num_hidden_layers as int);
}

fn attention_capped(p: &ArchitectureProfile) -> (r: Option<u64>)
    ensures
        r == capped(attention_params(*p)),
{
    match &p.attention {
        None => Some(0),
        Some(a) => {
            let h = cap_of(p.hidden_size);
            let ghost hs = p.hidden_size as int;
            proof {
                lemma_mul_nonneg(a.num_heads as int, a.head_dim as int);
                lemma_mul_nonneg(a.num_kv_heads as int, a.head_dim as int);
            }
            let q_lora: u64 = match a.q_lora_rank {
                Some(q) => q,
                None => 0,
            };
            let is_mla = match a.variant {
                AttentionVariant::Mla => true,
                _ => false,
            };
            if is_mla && q_lora > 0 {
                let kv: u64 = match a.kv_lora_rank {
                    Some(k) => k,
                    None => q_lora,
                };
                let ghost (qi, kvi) = (q_lora as int, kv as int);
                let ghost ht = a.num_heads * a.head_dim;
                proof {
                    lemma_mul_nonneg(hs, qi);
                    lemma_mul_nonneg(qi, ht);
                    lemma_mul_nonneg(hs, kvi);
                    lemma_mul_nonneg(hs * kvi, 2);
                    lemma_mul_nonneg(kvi, ht);
                    lemma_mul_nonneg(ht, qi);
                    lemma_mul_nonneg(qi, hs);
                }
                let head_total = cap_mul(cap_of(a.num_heads), cap_of(a.head_dim), Ghost(a.num_heads as int), Ghost(a.head_dim as int));
                let q = cap_of(q_lora);
                let k = cap_of(kv);
                let t1 = cap_mul(h, q, Ghost(hs), Ghost(qi));
                let t2 = cap_mul(q, head_total, Ghost(qi), Ghost(ht));
                let hk = cap_mul(h, k, Ghost(hs), Ghost(kvi));
                let t3 = cap_mul(hk, cap_of(2), Ghost(hs * kvi), Ghost(2));
                let t4 = cap_mul(k, head_total, Ghost(kvi), Ghost(ht));
                let t5 = cap_mul(head_total, q, Ghost(ht), Ghost(qi));
                let t6 = cap_mul(q, h, Ghost(qi), Ghost(hs));
                let s1 = cap_add(t1, t2, Ghost(hs * qi), Ghost(qi * ht));
                let s2 = cap_add(s1, t3, Ghost(hs * qi + qi * ht), Ghost(hs * kvi * 2));
                let s3 = cap_add(s2, t4, Ghost(hs * qi + qi * ht + hs * kvi * 2), Ghost(kvi * ht));
                let s4 = cap_add(s3, t5, Ghost(hs * qi + qi * ht + hs * kvi * 2 + kvi * ht), Ghost(ht * qi));
                cap_add(s4, t6, Ghost(hs * qi + qi * ht + hs * kvi * 2 + kvi * ht + ht * qi), Ghost(qi * hs))
            } else {
                let ghost qo = a.num_heads * a.head_dim;
                let ghost ko = a.num_kv_heads * a.head_dim;
                proof {
                    lemma_mul_nonneg(hs, qo);
                    lemma_mul_nonneg(hs, ko);
                    lemma_mul_nonneg(hs * ko, 2);
                    lemma_mul_nonneg(qo, hs);
                }
                let q_out = cap_mul(cap_of(a.num_heads), cap_of(a.head_dim), Ghost(a.num_heads as int), Ghost(a.head_dim as int));
                let kv_out = cap_mul(cap_of(a.num_kv_heads), cap_of(a.head_dim), Ghost(a.num_kv_heads as int), Ghost(a.head_dim as int));
                let t1 = cap_mul(h, q_out, Ghost(hs), Ghost(qo));
                let hk = cap_mul(h, kv_out, Ghost(hs), Ghost(ko));
                let t2 = cap_mul(hk, cap_of(2), Ghost(hs * ko), Ghost(2));
                let t3 = cap_mul(q_out, h, Ghost(qo), Ghost(hs));
                let s1 = cap_add(t1, t2, Ghost(hs * qo), Ghost(hs * ko * 2));
                cap_add(s1, t3, Ghost(hs * qo + hs * ko * 2), Ghost(qo * hs))
            }
        },
    }
}

fn ffn_capped(p: &ArchitectureProfile) -> (r: Option<u64>)
    ensures
        r == capped(ffn_params(*p)),
{
    let h = cap_of(p.hidden_size);
    let ghost hs = p.hidden_size as int;
    match &p.moe {
        Some(m) => {
            let ghost mi = m.moe_intermediate_size as int;
            let ghost ex = m.num_routed_experts + m.num_shared_experts;
            let ghost single = 3 * hs * mi;
            proof {
                lemma_mul_nonneg(3 * hs, mi);
                lemma_mul_nonneg(single, ex);
                lemma_mul_nonneg(hs, m.num_routed_experts as int);
            }
            let three_h = cap_mul(cap_of(3), h, Ghost(3), Ghost(hs));
            let one = cap_mul(three_h, cap_of(m.moe_intermediate_size), Ghost(3 * hs), Ghost(mi));
            let experts = cap_add(cap_of(m.num_routed_experts), cap_of(m.num_shared_experts), Ghost(m.num_routed_experts as int), Ghost(m.num_shared_experts as int));
            let all = cap_mul(one, experts, Ghost(single), Ghost(ex));
            let router = cap_mul(h, cap_of(m.num_routed_experts), Ghost(hs), Ghost(m.num_routed_experts as int));
            cap_add(all, router, Ghost(single * ex), Ghost(hs * m.num_routed_experts))
        },
        None => {
            let ghost inter = dense_intermediate(*p);
            let i: Option<u64> = match p.intermediate_size {
                Some(x) => if x > 0 {
                    Some(x)
                } else {
                    cap_mul(cap_of(4), h, Ghost(4), Ghost(hs))
                },
                None => cap_mul(cap_of(4), h, Ghost(4), Ghost(hs)),
            };
            proof {
                lemma_mul_nonneg(3 * hs, inter);
            }
            let three_h = cap_mul(cap_of(3), h, Ghost(3), Ghost(hs));
            cap_mul(three_h, i, Ghost(3 * hs), Ghost(inter))
        },
    }
}

/// Whether the parameter formulas evaluate within `u64` for a profile, so
/// that `estimate_total_params` can be called on it.
pub fn params_fit_check(p: &ArchitectureProfile) -> (b: bool)
    ensures
        b == params_fit(*p),
{
    if p.num_hidden_layers == 0 || p.hidden_size == 0 {
        return true;
    }
    let ghost hs = p.hidden_size as int;
    let ghost vs = p.vocab_size as int;
    let ghost layer = attention_params(*p) + ffn_params(*p) + 2 * hs;
    proof {
        lemma_params_parts_pub(*p);
        lemma_mul_nonneg(vs, hs);
        lemma_mul_nonneg(layer, p.num_hidden_layers as int);
    }
    let embed = cap_mul(cap_of(p.vocab_size), cap_of(p.hidden_size), Ghost(vs), Ghost(hs));
    let head: Option<u64> = if p.tie_word_embeddings {
        Some(0)
    } else {
        embed
    };
    let ghost head_v: int = if p.tie_word_embeddings { 0 } else { vs * hs };
    let e = cap_add(embed, head, Ghost(vs * hs), Ghost(head_v));
    let a = attention_capped(p);
    let f = ffn_capped(p);
    let norms = cap_mul(cap_of(2), cap_of(p.hidden_size), Ghost(2), Ghost(hs));
    let af = cap_add(a, f, Ghost(attention_params(*p)), Ghost(ffn_params(*p)));
    let per_layer = cap_add(af, norms, Ghost(attention_params(*p) + ffn_params(*p)), Ghost(2 * hs));
    let body = cap_mul(per_layer, cap_of(p.num_hidden_layers), Ghost(layer), Ghost(p.num_hidden_layers as int));
    let total = cap_add(e, body, Ghost(vs * hs + head_v), Ghost(layer * p.num_hidden_layers));
    total.is_some()
}

} // verus!
