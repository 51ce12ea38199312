//! Properties of the library that relate several of its functions, or hold
//! of every input.
use vstd::prelude::*;
use crate::command::{
    entry_lines, line_if, sglang_head, sglang_lines, sglang_options, vllm_head, vllm_lines, vllm_options, LaunchOptions,
    Parallelism, launch_context, positive, has_flag,
};
use crate::text::seq_starts_with;
use crate::json::{spec_get_truthy_u64, spec_get_u64, JsonValue};
use crate::detector::spec_detect_moe;
use crate::fingerprint::config_fingerprint;
use crate::json::{bool_at, i64_at, spec_get, str_at};
use crate::quant::{anchor_distance, closest_anchor, guess_anchors, guessed};
use crate::engine_compat::EngineCompatEntry;
use crate::cache::{expiry_of, fresh, storable, CacheKey};
use crate::i18n::normalized_locale;
use crate::evaluation::EvaluationReport;
use crate::report::{command_lines, concurrency_columns, ctx_list, recommended, seq_max};
use crate::planner::FleetOption;
use crate::layout::{heads, is_distributed_tp, is_valid_tp, kv_shards_spec, MAX_DISTRIBUTED_TP, MAX_TP_SINGLE_NODE};
use crate::profile::{ArchitectureProfile, AttentionVariant};
use crate::reconciler::{error_less, error_equal, is_candidate_list, ranks_before, ReconciliationCandidate};
use crate::weight::{active_params, has_shape, lemma_params_parts_pub, total_params};
use crate::layout::{ceil_div, layout};
use crate::reviewer::{critical_heading, prompt_text, tagged_trace, trace_text};
use crate::explain::ExplainEntry;
use crate::quant::{all_schemes, lemma_names_distinct, lemma_scheme_of_name_at, scheme_name, scheme_of_name, QuantizationScheme};
use crate::kv_cache::{
    all_divide, csa_exact, csa_value, eff_ratio, effective_seq, kv_baseline, kv_cache_value, kv_estimable, kv_fits, common_ratio,
    per_layer_per_token, ratio_units, rope_dim,
};
use crate::planner::{
    base_main_weight, expert_offload, lemma_ceil_div_le, main_weight, manual_offload, routed_fraction_is_default,
    routed_part, routed_shards, FleetMemoryOptions,
};

verus! {

/// A tensor-parallel size is a divisor of the attention heads: at most 8
/// on one node, at most 64 across nodes.
pub proof fn lemma_tp_sizes_divide_heads(p: ArchitectureProfile, t: int)
    requires
        heads(p) > 0,
        is_valid_tp(p, t) || is_distributed_tp(p, t),
    ensures
        1 <= t <= MAX_DISTRIBUTED_TP,
        heads(p) % t == 0,
        is_valid_tp(p, t) ==> t <= MAX_TP_SINGLE_NODE,
{
}

/// The cache of a request splits over at most the tensor-parallel group:
/// MLA keeps one shared latent (one shard), other variants split by KV head.
pub proof fn lemma_kv_shards_bounded(p: ArchitectureProfile, tp: int)
    requires
        tp >= 1,
    ensures
        1 <= kv_shards_spec(p, tp) <= tp,
        p.attention matches Some(a) ==> (a.variant == AttentionVariant::Mla ==> kv_shards_spec(p, tp) == 1) && (
        a.variant != AttentionVariant::Mla ==> kv_shards_spec(p, tp) <= if a.num_kv_heads < 1 {
            1
        } else {
            a.num_kv_heads as int
        }),
{
}

/// Setting the language and reading it back gives English or Chinese, and
/// setting what was read back changes nothing.
pub proof fn lemma_locale_round_trip(locale: Seq<char>)
    ensures
        normalized_locale(locale) == "en"@ || normalized_locale(locale) == "zh"@,
        normalized_locale(normalized_locale(locale)) == normalized_locale(locale),
        locale == "zh"@ ==> normalized_locale(locale) == "zh"@,
{
}

/// The best match of a bytes-only reconciliation has the smallest relative
/// error of all candidates; a candidate listed later has an error at least
/// as large.
pub proof fn lemma_best_match_is_minimal(r: Seq<ReconciliationCandidate>, observed: u64, total_params: u64)
    requires
        is_candidate_list(r, observed, total_params),
    ensures
        forall|i: int| 0 <= i < r.len() ==> !error_less(#[trigger] r[i], r[0]),
        forall|i: int, j: int| 0 <= i < j < r.len() ==> !error_less(#[trigger] r[j], #[trigger] r[i]),
{
    assert forall|i: int, j: int| 0 <= i < j < r.len() implies !error_less(#[trigger] r[j], #[trigger] r[i]) by {
        assert(ranks_before(r[i], r[j]));
        let (pi, pj) = (r[i].predicted_bytes as int, r[j].predicted_bytes as int);
        let (di, dj) = (r[i].abs_delta_bytes as int, r[j].abs_delta_bytes as int);
        if pi > 0 && pj > 0 {
            assert(!(dj * pi < di * pj && di * pj <= dj * pi)) by (nonlinear_arith);
        }
    }
    assert forall|i: int| 0 <= i < r.len() implies !error_less(#[trigger] r[i], r[0]) by {
        if i > 0 {
            assert(!error_less(r[i], r[0]));
        }
    }
}

/// Every launch command ends with the flags of the engine entry, required
/// ones first, each on its own line and in the entry's order.
pub proof fn lemma_entry_flags_come_last(
    model_id: Seq<char>,
    p: ArchitectureProfile,
    par: Parallelism,
    e: Option<&EngineCompatEntry>,
    max_model_len: Option<u64>,
    o: LaunchOptions,
)
    ensures
        vllm_lines(model_id, p, par, e, max_model_len, o).subrange(
            vllm_lines(model_id, p, par, e, max_model_len, o).len() - entry_lines(e).len(),
            vllm_lines(model_id, p, par, e, max_model_len, o).len() as int,
        ) == entry_lines(e),
        sglang_lines(model_id, p, par, e, max_model_len, o).subrange(
            sglang_lines(model_id, p, par, e, max_model_len, o).len() - entry_lines(e).len(),
            sglang_lines(model_id, p, par, e, max_model_len, o).len() as int,
        ) == entry_lines(e),
{
    let v = vllm_lines(model_id, p, par, e, max_model_len, o);
    let s = sglang_lines(model_id, p, par, e, max_model_len, o);
    assert(v.subrange(v.len() - entry_lines(e).len(), v.len() as int) =~= entry_lines(e));
    assert(s.subrange(s.len() - entry_lines(e).len(), s.len() as int) =~= entry_lines(e));
}

/// A token never touches more parameters than the model has, as long as it
/// is routed to no more experts than exist.
pub proof fn lemma_active_params_within_total(p: ArchitectureProfile)
    requires
        p.moe matches Some(m) ==> m.num_experts_per_tok <= m.num_routed_experts,
    ensures
        active_params(p) <= total_params(p),
{
    match p.moe {
        Some(m) => {
            let single = crate::weight::single_expert_params(p);
            assert(single >= 0) by (nonlinear_arith)
                requires
                    single == 3 * p.hidden_size * m.moe_intermediate_size,
            ;
            let a = crate::weight::active_ffn_params(p);
            let f = crate::weight::ffn_params(p);
            assert(single * (m.num_experts_per_tok + m.num_shared_experts) <= single * (m.num_routed_experts
                + m.num_shared_experts)) by (nonlinear_arith)
                requires
                    single >= 0,
                    m.num_experts_per_tok <= m.num_routed_experts,
            ;
            assert(a <= f);
            let base = crate::weight::attention_params(p) + 2 * p.hidden_size;
            assert((base + a) * p.num_hidden_layers <= (base + f) * p.num_hidden_layers) by (nonlinear_arith)
                requires
                    a <= f,
                    p.num_hidden_layers >= 0,
            ;
        },
        None => {},
    }
}

proof fn lemma_routed_part_within_stage(p: ArchitectureProfile, stage: int)
    requires
        stage >= 0,
    ensures
        0 <= routed_part(p, stage) <= stage,
{
    if routed_fraction_is_default(p) {
        assert(0 <= stage * 4 / 5 <= stage) by (nonlinear_arith)
            requires
                stage >= 0,
        ;
    } else {
        let r = crate::planner::routed_params(p);
        let t = total_params(p);
        assert(0 < r < t);
        assert(0 <= stage * r / t <= stage) by (nonlinear_arith)
            requires
                stage >= 0,
                0 < r < t,
        ;
    }
}

/// Offloading moves weight off the GPU without losing or inventing any:
/// the resident main weight, the experts offloaded and the manual offload
/// add up to the main weight before offload, and none is negative.
pub proof fn lemma_offload_conserves_weight(p: ArchitectureProfile, weight_bytes: u64, n: int, o: FleetMemoryOptions)
    ensures
        0 <= expert_offload(p, weight_bytes, n, o) <= base_main_weight(p, weight_bytes, n),
        0 <= manual_offload(p, weight_bytes, n, o),
        0 <= main_weight(p, weight_bytes, n, o),
        main_weight(p, weight_bytes, n, o) + expert_offload(p, weight_bytes, n, o) + manual_offload(
            p,
            weight_bytes,
            n,
            o,
        ) == base_main_weight(p, weight_bytes, n),
{
    if weight_bytes > 0 {
        crate::layout::lemma_max_tp(p);
        let (tp, pp, _) = layout(p, n);
        assert(tp >= 1 && pp >= 1);
        let stage = ceil_div(weight_bytes as int, pp);
        lemma_ceil_div_le(weight_bytes as int, pp);
        match p.moe {
            None => {
                lemma_ceil_div_le(stage, tp);
            },
            Some(m) => {
                let routed = routed_part(p, stage);
                lemma_routed_part_within_stage(p, stage);
                let shards = routed_shards(p, tp);
                assert(shards >= 1);
                lemma_ceil_div_le(routed, shards);
                lemma_ceil_div_le(stage - routed, tp);
                let per = ceil_div(routed, shards);
                if o.expert_offloading && o.experts_on_gpu is Some && m.num_routed_experts > 0 {
                    let e = m.num_routed_experts as int;
                    let keep = if o.experts_on_gpu->0 < e { o.experts_on_gpu->0 as int } else { e };
                    assert(0 <= per * (e - keep) / e <= per) by (nonlinear_arith)
                        requires
                            per >= 0,
                            e >= 1,
                            0 <= keep <= e,
                    ;
                }
            },
        }
    }
}

proof fn lemma_eighth_of_scaled_quotient(x: int, q: int)
    requires
        x >= 0,
        q > 0,
    ensures
        ((8 * x) / q) / 8 == x / q,
{
    vstd::arithmetic::div_mod::lemma_div_denominator(8 * x, q, 8);
    vstd::arithmetic::div_mod::lemma_div_multiples_vanish_quotient(8, x, q);
    assert(q * 8 == 8 * q) by (nonlinear_arith);
}

/// The cache counted in bits, over eight, is the cache counted in bytes:
/// sizing at `8 * w` bits per element gives, after division by eight, the
/// size at `w` bytes per element (16 bits agree with BF16's two bytes).
pub proof fn lemma_kv_bits_agree_with_bytes(p: ArchitectureProfile, seq_len: u64, w: u64)
    requires
        8 * w <= u64::MAX,
        kv_fits(p, seq_len, (8 * w) as u64),
    ensures
        kv_cache_value(p, seq_len, 8 * w) / 8 == kv_cache_value(p, seq_len, w as int),
{
    if seq_len == 0 || !kv_estimable(p) {
        return;
    }
    let a = p.attention->0;
    let per = per_layer_per_token(a, w as int);
    let per8 = per_layer_per_token(a, 8 * w);
    let x = if a.variant == AttentionVariant::Mla && a.kv_lora_rank is Some && a.kv_lora_rank->0 > 0 {
        a.kv_lora_rank->0 + rope_dim(a)
    } else {
        2 * a.num_kv_heads * a.head_dim
    };
    assert(x >= 0) by (nonlinear_arith)
        requires
            x == (if a.variant == AttentionVariant::Mla && a.kv_lora_rank is Some && a.kv_lora_rank->0 > 0 {
                a.kv_lora_rank->0 + rope_dim(a)
            } else {
                2 * a.num_kv_heads * a.head_dim
            }),
            rope_dim(a) >= 0,
    ;
    assert(per == x * w && per8 == x * (8 * w)) by (nonlinear_arith)
        requires
            per == (if a.variant == AttentionVariant::Mla && a.kv_lora_rank is Some && a.kv_lora_rank->0 > 0 {
                (a.kv_lora_rank->0 + rope_dim(a)) * w
            } else {
                2 * a.num_kv_heads * a.head_dim * w
            }),
            per8 == (if a.variant == AttentionVariant::Mla && a.kv_lora_rank is Some && a.kv_lora_rank->0 > 0 {
                (a.kv_lora_rank->0 + rope_dim(a)) * (8 * w)
            } else {
                2 * a.num_kv_heads * a.head_dim * (8 * w)
            }),
            x == (if a.variant == AttentionVariant::Mla && a.kv_lora_rank is Some && a.kv_lora_rank->0 > 0 {
                a.kv_lora_rank->0 + rope_dim(a)
            } else {
                2 * a.num_kv_heads * a.head_dim
            }),
    ;
    let eff = effective_seq(p, a, seq_len);
    let l = p.num_hidden_layers as int;
    let base = kv_baseline(p, a, seq_len, w as int);
    let base8 = kv_baseline(p, a, seq_len, 8 * w);
    assert(base8 == 8 * base && base >= 0) by (nonlinear_arith)
        requires
            base == per * eff * l,
            base8 == per8 * eff * l,
            per == x * w,
            per8 == x * (8 * w),
            x >= 0,
            w >= 0,
            eff >= 0,
            l >= 0,
    ;
    assert(base8 <= u64::MAX);
    if a.variant == AttentionVariant::CsaHca && a.compress_ratios is Some && a.compress_ratios->0@.len() > 0 {
        let r = a.compress_ratios->0@;
        let m = common_ratio(r);
        crate::kv_cache::lemma_common_ratio_pos(r);
        if m * r.len() <= u64::MAX {
            assert(base * (m * r.len()) <= u128::MAX && base8 * (m * r.len()) <= u128::MAX) by (nonlinear_arith)
                requires
                    0 <= base <= base8,
                    base8 <= u64::MAX,
                    0 <= m * r.len() <= u64::MAX,
            ;
        }
        assert(csa_exact(base8, r) == csa_exact(base, r));
        if csa_exact(base, r) {
            let units = ratio_units(r, m);
            let q = m * r.len();
            assert(q > 0) by (nonlinear_arith)
                requires
                    m >= 1,
                    r.len() >= 1,
                    q == m * r.len(),
            ;
            assert(units >= 0) by {
                lemma_ratio_units_nonneg(r, m);
            }
            assert(base8 * units == 8 * (base * units)) by (nonlinear_arith)
                requires
                    base8 == 8 * base,
            ;
            assert(base * units >= 0) by (nonlinear_arith)
                requires
                    base >= 0,
                    units >= 0,
            ;
            lemma_eighth_of_scaled_quotient(base * units, q);
        }
    } else if a.variant == AttentionVariant::Nsa && a.nsa_topk is Some && a.nsa_topk->0 > 0 {
        if a.nsa_topk->0 < eff {
            let k = a.nsa_topk->0 as int;
            assert(per8 * k * l == 8 * (per * k * l)) by (nonlinear_arith)
                requires
                    per == x * w,
                    per8 == x * (8 * w),
            ;
        }
    }
}

proof fn lemma_ratio_units_nonneg(s: Seq<u64>, m: int)
    requires
        m >= 0,
    ensures
        ratio_units(s, m) >= 0,
    decreases s.len(),
{
    if s.len() > 0 {
        lemma_ratio_units_nonneg(s.drop_last(), m);
        let r = crate::kv_cache::eff_ratio(s.last());
        assert(m / r >= 0) by (nonlinear_arith)
            requires
                m >= 0,
                r >= 1,
        ;
    }
}

proof fn lemma_floor_of_multiple(x: int, q: int, k: int)
    requires
        x >= 0,
        q > 0,
        k >= 1,
    ensures
        k * (x / q) <= (k * x) / q <= k * (x / q) + k - 1,
{
    let f = x / q;
    let r = x % q;
    vstd::arithmetic::div_mod::lemma_fundamental_div_mod(x, q);
    let t = (k * x) / q;
    let r2 = (k * x) % q;
    vstd::arithmetic::div_mod::lemma_fundamental_div_mod(k * x, q);
    assert(0 <= r < q && 0 <= r2 < q);
    assert(k * f <= t) by (nonlinear_arith)
        requires
            x == q * f + r,
            k * x == q * t + r2,
            0 <= r < q,
            0 <= r2 < q,
            k >= 1,
            q > 0,
    {
        assert(k * x == q * (k * f) + k * r);
        assert(q * t > q * (k * f) - q);
        if t < k * f {
            assert(q * t <= q * (k * f - 1));
        }
    }
    assert(t <= k * f + k - 1) by (nonlinear_arith)
        requires
            x == q * f + r,
            k * x == q * t + r2,
            0 <= r < q,
            0 <= r2 < q,
            k >= 1,
            q > 0,
    {
        assert(k * x == q * (k * f) + k * r);
        assert(k * r < k * q);
        assert(q * t <= k * x);
        assert(q * t < q * (k * f + k));
        if t > k * f + k - 1 {
            assert(q * t >= q * (k * f + k));
        }
    }
}

/// The CSA+HCA cache grows linearly with the context: at `k` times the
/// context it is `k` times as large, up to the rounding of the average
/// kept fraction (less than `k` bytes).
pub proof fn lemma_csa_cache_scales_with_context(p: ArchitectureProfile, seq_len: u64, k: u64, w: u64)
    requires
        p.attention matches Some(a) && a.variant == AttentionVariant::CsaHca,
        seq_len >= 1,
        k >= 1,
        k * seq_len <= u64::MAX,
        kv_fits(p, (k * seq_len) as u64, w),
    ensures
        k * kv_cache_value(p, seq_len, w as int) <= kv_cache_value(p, (k * seq_len) as u64, w as int),
        kv_cache_value(p, (k * seq_len) as u64, w as int) <= k * kv_cache_value(p, seq_len, w as int) + k - 1,
{
    let ks = (k * seq_len) as u64;
    assert(k * seq_len >= 1) by (nonlinear_arith)
        requires
            k >= 1,
            seq_len >= 1,
    ;
    assert(ks == k * seq_len && ks >= 1);
    if !kv_estimable(p) {
        return;
    }
    let a = p.attention->0;
    let per = per_layer_per_token(a, w as int);
    assert(per >= 0) by (nonlinear_arith)
        requires
            per == (if a.variant == AttentionVariant::Mla && a.kv_lora_rank is Some && a.kv_lora_rank->0 > 0 {
                (a.kv_lora_rank->0 + rope_dim(a)) * w
            } else {
                2 * a.num_kv_heads * a.head_dim * w
            }),
            rope_dim(a) >= 0,
            w >= 0,
    ;
    let l = p.num_hidden_layers as int;
    assert(effective_seq(p, a, seq_len) == seq_len);
    assert(effective_seq(p, a, ks) == ks);
    let base = kv_baseline(p, a, seq_len, w as int);
    let basek = kv_baseline(p, a, ks, w as int);
    assert(basek == k * base && base >= 0) by (nonlinear_arith)
        requires
            base == per * seq_len * l,
            basek == per * (k * seq_len) * l,
            per >= 0,
            l >= 0,
            seq_len >= 0,
    ;
    assert(base <= basek) by (nonlinear_arith)
        requires
            basek == k * base,
            base >= 0,
            k >= 1,
    ;
    if a.compress_ratios is Some && a.compress_ratios->0@.len() > 0 {
        let r = a.compress_ratios->0@;
        let m = common_ratio(r);
        crate::kv_cache::lemma_common_ratio_pos(r);
        if m * r.len() <= u64::MAX {
            assert(base * (m * r.len()) <= u128::MAX && basek * (m * r.len()) <= u128::MAX) by (nonlinear_arith)
                requires
                    0 <= base <= basek,
                    basek <= u64::MAX,
                    0 <= m * r.len() <= u64::MAX,
            ;
        }
        assert(csa_exact(basek, r) == csa_exact(base, r));
        if csa_exact(base, r) {
            let units = ratio_units(r, m);
            let q = m * r.len();
            assert(q > 0) by (nonlinear_arith)
                requires
                    m >= 1,
                    r.len() >= 1,
                    q == m * r.len(),
            ;
            lemma_ratio_units_nonneg(r, m);
            assert(basek * units == k * (base * units)) by (nonlinear_arith)
                requires
                    basek == k * base,
            ;
            assert(base * units >= 0) by (nonlinear_arith)
                requires
                    base >= 0,
                    units >= 0,
            ;
            lemma_floor_of_multiple(base * units, q, k as int);
        }
    }
}

/// A cached entry is served for exactly its lifetime: from the second it is
/// stored until `ttl` seconds later (for lifetimes that do not run past the
/// end of time); with no lifetime nothing is stored.
pub proof fn lemma_cache_entry_lifetime(ttl: u64, stored_at: u64, now: u64, key: CacheKey)
    requires
        stored_at + ttl <= u64::MAX,
        stored_at <= now,
    ensures
        fresh(expiry_of(ttl, stored_at), now) <==> now < stored_at + ttl,
        ttl == 0 ==> !storable(ttl, key),
        storable(ttl, key) ==> fresh(expiry_of(ttl, stored_at), stored_at),
{
}

proof fn lemma_max_is_member(s: Seq<u64>)
    requires
        s.len() > 0,
    ensures
        s.contains(seq_max(s)),
        forall|i: int| 0 <= i < s.len() ==> s[i] <= seq_max(s),
    decreases s.len(),
{
    let p = s.drop_last();
    let last = s[s.len() - 1];
    assert(s.last() == last);
    if s.len() == 1 {
        assert(p.len() == 0);
        assert(seq_max(p) == 0);
        assert(seq_max(s) == last);
        assert(s[0] == seq_max(s));
    } else {
        lemma_max_is_member(p);
        let w = choose|i: int| 0 <= i < p.len() && p[i] == seq_max(p);
        assert(p[w] == s[w]);
        if last > seq_max(p) {
            assert(seq_max(s) == last);
            assert(s[s.len() - 1] == seq_max(s));
        } else {
            assert(seq_max(s) == seq_max(p));
            assert(s[w] == seq_max(s));
        }
        assert forall|i: int| 0 <= i < s.len() implies s[i] <= seq_max(s) by {
            if i < s.len() - 1 {
                assert(s[i] == p[i]);
            }
        }
    }
}

/// The fleet table shows at most two context columns, each a context length
/// at which some tier reports its concurrency, and 128K whenever one does.
pub proof fn lemma_columns_are_evaluated_contexts(opts: Seq<FleetOption>)
    ensures
        concurrency_columns(opts).len() <= 2,
        forall|i: int|
            0 <= i < concurrency_columns(opts).len() ==> ctx_list(opts).contains(#[trigger] concurrency_columns(opts)[i]),
        ctx_list(opts).contains(131_072) ==> concurrency_columns(opts)[0] == 131_072,
{
    let cs = ctx_list(opts);
    if cs.len() > 0 {
        lemma_max_is_member(cs);
    }
}

/// Without a recommended tier that fits there is no launch command in the
/// report.
pub proof fn lemma_no_recommendation_no_command(locale: Seq<char>, r: EvaluationReport)
    requires
        r.fleet is Some,
        recommended(r.fleet->0) is None,
    ensures
        command_lines(locale, r) == Seq::<Seq<char>>::empty(),
{
    reveal(command_lines);
}

/// Every quantization scheme parses back from its canonical name, and two
/// different schemes never share a name.
pub proof fn lemma_scheme_names_round_trip(s: QuantizationScheme, t: QuantizationScheme)
    ensures
        scheme_of_name(scheme_name(s)) == Some(s),
        s != t ==> scheme_name(s) != scheme_name(t),
{
    lemma_names_distinct();
    let i = choose|i: int| 0 <= i < 9 && all_schemes()[i] == s;
    let j = choose|j: int| 0 <= j < 9 && all_schemes()[j] == t;
    assert(exists|i: int| 0 <= i < 9 && all_schemes()[i] == s) by {
        match s {
            QuantizationScheme::Fp16 => assert(all_schemes()[0] == s),
            QuantizationScheme::Bf16 => assert(all_schemes()[1] == s),
            QuantizationScheme::Fp8 => assert(all_schemes()[2] == s),
            QuantizationScheme::Int8 => assert(all_schemes()[3] == s),
            QuantizationScheme::Fp4Fp8Mixed => assert(all_schemes()[4] == s),
            QuantizationScheme::Int4 => assert(all_schemes()[5] == s),
            QuantizationScheme::GptqInt4 => assert(all_schemes()[6] == s),
            QuantizationScheme::AwqInt4 => assert(all_schemes()[7] == s),
            QuantizationScheme::Unknown => assert(all_schemes()[8] == s),
        }
    }
    assert(exists|j: int| 0 <= j < 9 && all_schemes()[j] == t) by {
        match t {
            QuantizationScheme::Fp16 => assert(all_schemes()[0] == t),
            QuantizationScheme::Bf16 => assert(all_schemes()[1] == t),
            QuantizationScheme::Fp8 => assert(all_schemes()[2] == t),
            QuantizationScheme::Int8 => assert(all_schemes()[3] == t),
            QuantizationScheme::Fp4Fp8Mixed => assert(all_schemes()[4] == t),
            QuantizationScheme::Int4 => assert(all_schemes()[5] == t),
            QuantizationScheme::GptqInt4 => assert(all_schemes()[6] == t),
            QuantizationScheme::AwqInt4 => assert(all_schemes()[7] == t),
            QuantizationScheme::Unknown => assert(all_schemes()[8] == t),
        }
    }
    lemma_scheme_of_name_at(i);
    if s != t {
        assert(i != j);
        assert(scheme_name(all_schemes()[i]) != scheme_name(all_schemes()[j]));
    }
}

/// `t` occurs in `s` as a contiguous piece.
pub open spec fn occurs_in(t: Seq<char>, s: Seq<char>) -> bool {
    exists|k: int| 0 <= k && k + t.len() <= s.len() && #[trigger] s.subrange(k, k + t.len()) == t
}

/// The audit prompt holds the whole derivation trace between its tags, and
/// the critical-issues heading in Chinese exactly when the locale is `zh`,
/// in English otherwise.
pub proof fn lemma_prompt_holds_trace_and_heading(entries: Seq<ExplainEntry>, locale: Seq<char>)
    ensures
        occurs_in(tagged_trace(trace_text(entries)), prompt_text(trace_text(entries), locale)),
        occurs_in(critical_heading(locale), prompt_text(trace_text(entries), locale)),
        critical_heading(locale) == if locale == "zh"@ { "## 关键错误"@ } else { "## Critical issues"@ },
{
    let trace = trace_text(entries);
    let p = prompt_text(trace, locale);
    let tagged = tagged_trace(trace);
    let heading = critical_heading(locale);
    let (intro, mid) = if locale == "zh"@ {
        (
            "下面是工具产出的一份完整推导链。请审计。\n\n"@,
            "\n\n按下面结构回复。没内容的段落写\"无\"。\n\n"@,
        )
    } else {
        (
            "The deterministic tool produced this derivation trace for one model evaluation. Audit it.\n\n"@,
            "\n\nRespond in this structure. If a section has nothing to flag, write \"none\".\n\n"@,
        )
    };
    let k1 = intro.len() as int;
    assert(p.subrange(k1, k1 + tagged.len()) =~= tagged);
    let k2 = k1 + tagged.len() + mid.len();
    assert(p.subrange(k2, k2 + heading.len()) =~= heading);
}

/// Kept fractions measured over two common multiples of the ratios agree.
proof fn lemma_units_scale(s: Seq<u64>, m: int, c: int)
    requires
        m >= 1,
        c >= 1,
        all_divide(s, m),
        all_divide(s, c),
    ensures
        ratio_units(s, m) * c == ratio_units(s, c) * m,
    decreases s.len(),
{
    if s.len() > 0 {
        let init = s.drop_last();
        assert(all_divide(init, m) && all_divide(init, c)) by {
            assert forall|i: int| 0 <= i < init.len() implies m % eff_ratio(#[trigger] init[i]) == 0 && c
                % eff_ratio(init[i]) == 0 by {
                assert(init[i] == s[i]);
            }
        }
        lemma_units_scale(init, m, c);
        let r = eff_ratio(s.last());
        assert(m % r == 0 && c % r == 0);
        assert((m / r) * c == (c / r) * m) by (nonlinear_arith)
            requires
                r >= 1,
                m % r == 0,
                c % r == 0,
        {
            let a = m / r;
            let b = c / r;
            assert(m == r * a);
            assert(c == r * b);
        }
        let um = ratio_units(init, m);
        let uc = ratio_units(init, c);
        assert((um + m / r) * c == (uc + c / r) * m) by (nonlinear_arith)
            requires
                um * c == uc * m,
                (m / r) * c == (c / r) * m,
        ;
    }
}

/// Equal fractions round down to the same integer.
proof fn lemma_equal_fractions_floor(a: int, d1: int, b: int, d2: int)
    requires
        a >= 0,
        b >= 0,
        d1 > 0,
        d2 > 0,
        a * d2 == b * d1,
    ensures
        a / d1 == b / d2,
{
    let q = a / d1;
    let r = a % d1;
    assert(a == q * d1 + r && 0 <= r < d1) by (nonlinear_arith)
        requires
            d1 > 0,
            q == a / d1,
            r == a % d1,
    ;
    assert(q * d2 * d1 <= b * d1 < (q + 1) * d2 * d1) by (nonlinear_arith)
        requires
            a == q * d1 + r,
            0 <= r < d1,
            d2 > 0,
            a * d2 == b * d1,
    ;
    assert(q * d2 <= b < (q + 1) * d2) by (nonlinear_arith)
        requires
            q * d2 * d1 <= b * d1 < (q + 1) * d2 * d1,
            d1 > 0,
    ;
    assert(b / d2 == q) by (nonlinear_arith)
        requires
            q * d2 <= b < (q + 1) * d2,
            d2 > 0,
    ;
}

/// The compressed cache is the baseline times the average of `1/ratio`
/// over the layers, rounded down, whichever common multiple of the ratios
/// that average is measured in.
pub proof fn lemma_csa_over_any_common_multiple(base: int, s: Seq<u64>, c: int)
    requires
        base >= 0,
        csa_exact(base, s),
        c >= 1,
        all_divide(s, c),
    ensures
        csa_value(base, s) == base * ratio_units(s, c) / (c * s.len()),
{
    let m = common_ratio(s);
    crate::kv_cache::lemma_common_ratio_pos(s);
    lemma_units_scale(s, m, c);
    lemma_ratio_units_nonneg(s, m);
    lemma_ratio_units_nonneg(s, c);
    let um = ratio_units(s, m);
    let uc = ratio_units(s, c);
    let n = s.len() as int;
    assert(base * um >= 0 && base * uc >= 0 && m * n > 0 && c * n > 0) by (nonlinear_arith)
        requires
            base >= 0,
            um >= 0,
            uc >= 0,
            m >= 1,
            c >= 1,
            n >= 1,
    ;
    assert((base * um) * (c * n) == (base * uc) * (m * n)) by (nonlinear_arith)
        requires
            um * c == uc * m,
    ;
    lemma_equal_fractions_floor(base * um, m * n, base * uc, c * n);
}

/// Model families that ship their own modelling code (DeepSeek, GLM, the
/// Qwen MoE lines, Mixtral) are always launched with `--trust-remote-code`,
/// on vLLM and on SGLang alike.
pub proof fn lemma_custom_code_families_trust_remote_code(
    model_id: Seq<char>,
    p: ArchitectureProfile,
    par: Parallelism,
    e: Option<&EngineCompatEntry>,
    max_model_len: Option<u64>,
    o: LaunchOptions,
)
    requires
        seq_starts_with(p.model_type@, "deepseek"@) || seq_starts_with(p.model_type@, "glm"@) || seq_starts_with(
            p.model_type@,
            "qwen2_moe"@,
        ) || seq_starts_with(p.model_type@, "qwen3_moe"@) || seq_starts_with(p.model_type@, "qwen3_5_moe"@)
            || seq_starts_with(p.model_type@, "mixtral"@),
    ensures
        vllm_lines(model_id, p, par, e, max_model_len, o).contains("  --trust-remote-code"@),
        sglang_lines(model_id, p, par, e, max_model_len, o).contains("  --trust-remote-code"@),
{
    let ctx = launch_context(p, max_model_len);
    let v = vllm_lines(model_id, p, par, e, max_model_len, o);
    let vh = vllm_head(model_id, par, ctx);
    let v0 = line_if(
        positive(o.max_concurrent_requests) && !has_flag(e, "--max-num-seqs"@),
        "  --max-num-seqs "@ + crate::text::dec(o.max_concurrent_requests->0 as nat),
    );
    let kv = vh.len() + v0.len();
    assert(v[kv as int] == "  --trust-remote-code"@);
    let g = sglang_lines(model_id, p, par, e, max_model_len, o);
    let gh = sglang_head(model_id, par, e, ctx);
    let g0 = line_if(
        positive(o.max_concurrent_requests) && !has_flag(e, "--max-running-requests"@),
        "  --max-running-requests "@ + crate::text::dec(o.max_concurrent_requests->0 as nat),
    );
    let kg = gh.len() + g0.len();
    assert(g[kg as int] == "  --trust-remote-code"@);
}

/// NSA attends to at most `nsa_topk` tokens per layer: once the context is
/// longer than that, a request's cache is the cache of `nsa_topk` tokens,
/// strictly below the dense cache of the context, and a longer context does
/// not make it larger.
pub proof fn lemma_nsa_cache_stops_growing(p: ArchitectureProfile, s1: u64, s2: u64, w: int)
    requires
        kv_estimable(p),
        p.attention->0.variant == AttentionVariant::Nsa,
        p.attention->0.nsa_topk is Some,
        0 < p.attention->0.nsa_topk->0,
        p.attention->0.nsa_topk->0 < effective_seq(p, p.attention->0, s1),
        s1 <= s2,
        w >= 1,
    ensures
        kv_cache_value(p, s1, w) == kv_cache_value(p, s2, w),
        kv_cache_value(p, s1, w) == per_layer_per_token(p.attention->0, w) * p.attention->0.nsa_topk->0
            * p.num_hidden_layers,
        per_layer_per_token(p.attention->0, w) > 0 ==> kv_cache_value(p, s1, w) < kv_baseline(
            p,
            p.attention->0,
            s1,
            w,
        ),
{
    let a = p.attention->0;
    let k = a.nsa_topk->0 as int;
    let ppt = per_layer_per_token(a, w);
    let l = p.num_hidden_layers as int;
    assert(effective_seq(p, a, s1) <= effective_seq(p, a, s2));
    if ppt > 0 {
        assert(ppt * k * l < ppt * effective_seq(p, a, s1) * l) by (nonlinear_arith)
            requires
                ppt > 0,
                l > 0,
                k < effective_seq(p, a, s1),
        ;
    }
}

/// The MoE traits read from a config take each count from its own key:
/// the routed experts from `n_routed_experts` when set, the shared experts
/// from `n_shared_experts`, the experts per token from `num_experts_per_tok`
/// when set, and each expert's width from `moe_intermediate_size` when set,
/// falling back to the dense `intermediate_size` only when it is not.
pub proof fn lemma_moe_traits_come_from_their_keys(config: JsonValue)
    ensures
        spec_get_truthy_u64(config, "n_routed_experts"@) matches Some(r) ==> spec_detect_moe(config) matches Some(m)
            && m.num_routed_experts == r,
        spec_get_truthy_u64(config, "n_routed_experts"@) is None && spec_get_truthy_u64(config, "num_local_experts"@)
            is Some ==> spec_detect_moe(config) is Some && spec_detect_moe(config)->0.num_routed_experts
            == spec_get_truthy_u64(config, "num_local_experts"@)->0,
        spec_get_truthy_u64(config, "n_routed_experts"@) is None && spec_get_truthy_u64(config, "num_local_experts"@)
            is None && spec_get_truthy_u64(config, "num_experts"@) is Some ==> spec_detect_moe(config) is Some
            && spec_detect_moe(config)->0.num_routed_experts == spec_get_truthy_u64(config, "num_experts"@)->0,
        spec_get_truthy_u64(config, "n_routed_experts"@) is None && spec_get_truthy_u64(config, "num_local_experts"@)
            is None && spec_get_truthy_u64(config, "num_experts"@) is None ==> spec_detect_moe(config) is None,
        spec_detect_moe(config) matches Some(m) ==> {
            &&& spec_get_u64(config, "n_shared_experts"@) matches Some(sh) ==> m.num_shared_experts == sh
            &&& spec_get_u64(config, "n_shared_experts"@) is None ==> m.num_shared_experts == 0
            &&& spec_get_truthy_u64(config, "num_experts_per_tok"@) matches Some(t) ==> m.num_experts_per_tok == t
            &&& spec_get_truthy_u64(config, "num_experts_per_tok"@) is None ==> match spec_get_truthy_u64(
                config,
                "num_experts_per_token"@,
            ) {
                Some(t) => m.num_experts_per_tok == t,
                None => m.num_experts_per_tok == 1,
            }
            &&& spec_get_truthy_u64(config, "moe_intermediate_size"@) matches Some(x) ==> m.moe_intermediate_size
                == x
            &&& spec_get_truthy_u64(config, "moe_intermediate_size"@) is None ==> match spec_get_truthy_u64(
                config,
                "intermediate_size"@,
            ) {
                Some(d) => m.moe_intermediate_size == d,
                None => m.moe_intermediate_size == 0,
            }
        },
{
}

/// An anchor of the guess table within its tolerance of `bytes / params`.
pub open spec fn anchor_fits(bytes: u64, params: u64, i: int) -> bool {
    anchor_distance(bytes, params, guess_anchors()[i].1) <= guess_anchors()[i].2 * params
}

proof fn lemma_closest_anchor_is_closest(bytes: u64, params: u64, k: int)
    requires
        0 <= k <= 5,
    ensures
        closest_anchor(bytes, params, k) matches Some((s, d)) ==> exists|i: int|
            0 <= i < k && #[trigger] anchor_fits(bytes, params, i) && guess_anchors()[i].0 == s && d
                == anchor_distance(bytes, params, guess_anchors()[i].1) && forall|j: int|
                0 <= j < k && #[trigger] anchor_fits(bytes, params, j) ==> d <= anchor_distance(
                    bytes,
                    params,
                    guess_anchors()[j].1,
                ),
        closest_anchor(bytes, params, k) is None ==> forall|j: int| 0 <= j < k ==> !#[trigger] anchor_fits(bytes, params, j),
    decreases k,
{
    if k > 0 {
        lemma_closest_anchor_is_closest(bytes, params, k - 1);
        let prev = closest_anchor(bytes, params, k - 1);
        let d = anchor_distance(bytes, params, guess_anchors()[k - 1].1);
        match closest_anchor(bytes, params, k) {
            Some((s, dd)) => {
                if anchor_fits(bytes, params, k - 1) && (match prev {
                    Some((_, pd)) => d < pd,
                    None => true,
                }) {
                    assert(anchor_fits(bytes, params, k - 1) && guess_anchors()[k - 1].0 == s);
                } else {
                    let (ps, pd) = prev->0;
                    let i = choose|i: int|
                        0 <= i < k - 1 && #[trigger] anchor_fits(bytes, params, i) && guess_anchors()[i].0 == ps && pd
                            == anchor_distance(bytes, params, guess_anchors()[i].1) && forall|j: int|
                            0 <= j < k - 1 && #[trigger] anchor_fits(bytes, params, j) ==> pd <= anchor_distance(
                                bytes,
                                params,
                                guess_anchors()[j].1,
                            );
                    assert(anchor_fits(bytes, params, i));
                }
            },
            None => {},
        }
    }
}

/// The scheme guessed from bytes per parameter is the closest anchor that
/// is within its tolerance: no other anchor within tolerance is strictly
/// closer, and the guess is unknown only when no anchor is within
/// tolerance. Two bytes, one byte and half a byte per parameter guess
/// FP16, FP8 and INT4.
pub proof fn lemma_guess_is_the_closest_anchor(bytes: u64, params: u64)
    requires
        params > 0,
    ensures
        guessed(bytes, params).0 != QuantizationScheme::Unknown ==> exists|i: int|
            0 <= i < 5 && #[trigger] anchor_fits(bytes, params, i) && guess_anchors()[i].0 == guessed(bytes, params).0
                && forall|j: int|
                0 <= j < 5 && #[trigger] anchor_fits(bytes, params, j) ==> anchor_distance(
                    bytes,
                    params,
                    guess_anchors()[i].1,
                ) <= anchor_distance(bytes, params, guess_anchors()[j].1),
        guessed(bytes, params).0 == QuantizationScheme::Unknown ==> forall|j: int|
            0 <= j < 5 ==> !#[trigger] anchor_fits(bytes, params, j),
        bytes == 2 * params ==> guessed(bytes, params).0 == QuantizationScheme::Fp16,
        bytes == params ==> guessed(bytes, params).0 == QuantizationScheme::Fp8,
        2 * bytes == params ==> guessed(bytes, params).0 == QuantizationScheme::Int4,
{
    lemma_closest_anchor_is_closest(bytes, params, 5);
    match closest_anchor(bytes, params, 5) {
        Some((s, d)) => {
            assert(s != QuantizationScheme::Unknown) by {
                let i = choose|i: int|
                    0 <= i < 5 && #[trigger] anchor_fits(bytes, params, i) && guess_anchors()[i].0 == s && d
                        == anchor_distance(bytes, params, guess_anchors()[i].1) && forall|j: int|
                        0 <= j < 5 && #[trigger] anchor_fits(bytes, params, j) ==> d <= anchor_distance(
                            bytes,
                            params,
                            guess_anchors()[j].1,
                        );
                assert(anchor_fits(bytes, params, i));
            }
        },
        None => {},
    }
    reveal_with_fuel(closest_anchor, 6);
}

/// The quantization a config declares follows its `quant_method`: GPTQ at
/// 4 bits is GPTQ INT4 and at 8 bits INT8, AWQ at 4 bits is AWQ INT4,
/// bitsandbytes is INT4 when loaded in 4 bits and else INT8 when loaded in
/// 8 bits, and `fp8` is FP8.
pub proof fn lemma_declared_method_names_the_scheme(config: JsonValue)
    requires
        spec_get(config, "quantization_config"@) matches Some(qc) && qc is Object,
    ensures
        ({
            let qc = spec_get(config, "quantization_config"@)->0;
            &&& str_at(qc, "quant_method"@) == Some("awq"@) && i64_at(qc, "bits"@) == Some(4i64) ==> (config_fingerprint(config) is Some && (config_fingerprint(config)->0).0 == QuantizationScheme::AwqInt4)
            &&& str_at(qc, "quant_method"@) == Some("gptq"@) && i64_at(qc, "bits"@) == Some(4i64)
                ==> (config_fingerprint(config) is Some && (config_fingerprint(config)->0).0 == QuantizationScheme::GptqInt4)
            &&& str_at(qc, "quant_method"@) == Some("gptq"@) && i64_at(qc, "bits"@) == Some(8i64)
                ==> (config_fingerprint(config) is Some && (config_fingerprint(config)->0).0 == QuantizationScheme::Int8)
            &&& str_at(qc, "quant_method"@) == Some("bitsandbytes"@) && bool_at(qc, "load_in_4bit"@) == Some(true)
                ==> (config_fingerprint(config) is Some && (config_fingerprint(config)->0).0 == QuantizationScheme::Int4)
            &&& str_at(qc, "quant_method"@) == Some("bitsandbytes"@) && bool_at(qc, "load_in_4bit"@) != Some(true)
                && bool_at(qc, "load_in_8bit"@) == Some(true) ==> (config_fingerprint(config) is Some && (
            config_fingerprint(config)->0).0 == QuantizationScheme::Int8)
            &&& str_at(qc, "quant_method"@) == Some("fp8"@) ==> (config_fingerprint(config) is Some && (config_fingerprint(config)->0).0 == QuantizationScheme::Fp8)
        }),
{
    reveal_strlit("awq");
    reveal_strlit("gptq");
    reveal_strlit("fp8");
    reveal_strlit("bitsandbytes");
    reveal_strlit("compressed-tensors");
    assert("bitsandbytes"@.len() != "gptq"@.len() && "bitsandbytes"@.len() != "awq"@.len());
    assert("bitsandbytes"@.len() != "fp8"@.len() && "bitsandbytes"@.len() != "compressed-tensors"@.len());
    assert("awq"@.len() != "gptq"@.len());
    assert("fp8"@.len() != "gptq"@.len());
    assert("fp8"@[0] != "awq"@[0]);
}

/// While the context is no longer than `nsa_topk`, NSA keeps every token:
/// the cache is the dense cache of the context.
pub proof fn lemma_nsa_short_context_is_dense(p: ArchitectureProfile, seq_len: u64, w: int)
    requires
        kv_estimable(p),
        seq_len > 0,
        p.attention->0.variant == AttentionVariant::Nsa,
        p.attention->0.nsa_topk is Some,
        0 < p.attention->0.nsa_topk->0,
        effective_seq(p, p.attention->0, seq_len) <= p.attention->0.nsa_topk->0,
    ensures
        kv_cache_value(p, seq_len, w) == per_layer_per_token(p.attention->0, w) * seq_len * p.num_hidden_layers,
{
}

} // verus!
