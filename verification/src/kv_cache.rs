//! KV-cache size formulas.
use vstd::prelude::*;
use crate::labels::{AnnotatedValue, Label, opt_string};
use crate::profile::{
    ArchitectureProfile, AttentionTraits, AttentionVariant, Confidence, Family, spec_is_sparse,
    variant_name,
};
use crate::text::{dec, fixed, fmt_fixed, u64_to_string};
use crate::weight::prod;
use crate::capped::{cap_add, cap_mul, cap_of, capped};

verus! {

/// Cached elements per layer and token, times the element width: the latent
/// plus the decoupled RoPE key for MLA, else K and V of every KV head.
pub open spec fn per_layer_per_token(a: AttentionTraits, width: int) -> int {
    if a.variant == AttentionVariant::Mla && a.kv_lora_rank is Some && a.kv_lora_rank->0 > 0 {
        (a.kv_lora_rank->0 + rope_dim(a)) * width
    } else {
        2 * a.num_kv_heads * a.head_dim * width
    }
}

pub open spec fn rope_dim(a: AttentionTraits) -> int {
    match a.qk_rope_head_dim {
        Some(r) => r as int,
        None => 0,
    }
}

/// Sliding-window attention caps the cached context; sparse variants keep
/// their own selection.
pub open spec fn effective_seq(p: ArchitectureProfile, a: AttentionTraits, seq_len: u64) -> int {
    match p.sliding_window {
        Some(w) => if w > 0 && !spec_is_sparse(a.variant) && w < seq_len {
            w as int
        } else {
            seq_len as int
        },
        None => seq_len as int,
    }
}

pub open spec fn kv_baseline(p: ArchitectureProfile, a: AttentionTraits, seq_len: u64, width: int) -> int {
    per_layer_per_token(a, width) * effective_seq(p, a, seq_len) * p.num_hidden_layers
}

/// A compress ratio of zero means the layer is not compressed.
pub open spec fn eff_ratio(r: u64) -> int {
    if r == 0 {
        1
    } else {
        r as int
    }
}

/// A common multiple of the layers' ratios: a ratio that does not divide
/// the multiple of the layers before it multiplies it.
pub open spec fn common_ratio(s: Seq<u64>) -> int
    decreases s.len(),
{
    if s.len() == 0 {
        1
    } else {
        let m = common_ratio(s.drop_last());
        if m % eff_ratio(s.last()) == 0 {
            m
        } else {
            m * eff_ratio(s.last())
        }
    }
}

/// Sum over the layers of `m / ratio`: the layers' kept fractions in units
/// of `1/m` when `m` is a common multiple of the ratios.
pub open spec fn ratio_units(s: Seq<u64>, m: int) -> int
    decreases s.len(),
{
    if s.len() == 0 {
        0
    } else {
        ratio_units(s.drop_last(), m) + m / eff_ratio(s.last())
    }
}

pub open spec fn all_divide(s: Seq<u64>, m: int) -> bool {
    forall|i: int| 0 <= i < s.len() ==> m % eff_ratio(#[trigger] s[i]) == 0
}

/// The average kept fraction `units / (m * n)` over the common multiple
/// `m` fits the machine, and so does the scaled product.
pub open spec fn csa_exact(base: int, s: Seq<u64>) -> bool {
    let m = common_ratio(s);
    &&& s.len() > 0
    &&& m * s.len() <= u64::MAX
    &&& base * (m * s.len()) <= u128::MAX
}

/// The baseline scaled by the average of `1/ratio` over the layers, rounded
/// down; the baseline itself when that fraction is too fine for 64-bit
/// numerator and denominator.
pub open spec fn csa_value(base: int, s: Seq<u64>) -> int {
    if csa_exact(base, s) {
        base * ratio_units(s, common_ratio(s)) / (common_ratio(s) * s.len())
    } else {
        base
    }
}

pub open spec fn kv_estimable(p: ArchitectureProfile) -> bool {
    &&& p.family != Family::StateSpace
    &&& p.family != Family::Unknown
    &&& p.confidence != Confidence::Low
    &&& p.attention is Some
    &&& p.num_hidden_layers > 0
}

/// KV-cache size for one request of `seq_len` tokens, in units of the
/// element width `width` (bytes per element, or bits per element).
pub open spec fn kv_cache_value(p: ArchitectureProfile, seq_len: u64, width: int) -> int {
    if seq_len == 0 || !kv_estimable(p) {
        0
    } else {
        let a = p.attention->0;
        let base = kv_baseline(p, a, seq_len, width);
        if a.variant == AttentionVariant::CsaHca && a.compress_ratios is Some
            && a.compress_ratios->0@.len() > 0 {
            csa_value(base, a.compress_ratios->0@)
        } else if a.variant == AttentionVariant::Nsa && a.nsa_topk is Some && a.nsa_topk->0 > 0 {
            if a.nsa_topk->0 >= effective_seq(p, a, seq_len) {
                base
            } else {
                per_layer_per_token(a, width) * a.nsa_topk->0 * p.num_hidden_layers
            }
        } else {
            base
        }
    }
}

pub open spec fn kv_cache_label(p: ArchitectureProfile, seq_len: u64) -> Label {
    if seq_len == 0 || kv_estimable(p) {
        Label::Estimated
    } else {
        Label::Unknown
    }
}

/// The uncompressed cache fits in `u64` (the formula's inputs are sane).
pub open spec fn kv_fits(p: ArchitectureProfile, seq_len: u64, width: u64) -> bool {
    seq_len > 0 && kv_estimable(p) ==> kv_baseline(p, p.attention->0, seq_len, width as int)
        <= u64::MAX
}

proof fn lemma_nonneg_mul(x: int, y: int)
    requires
        x >= 0,
        y >= 0,
    ensures
        x * y >= 0,
{
    assert(x * y >= 0) by (nonlinear_arith)
        requires
            x >= 0,
            y >= 0,
    ;
}

proof fn lemma_le_mul(x: int, y: int, b: int)
    requires
        x >= 0,
        y >= 1,
        x * y <= b,
    ensures
        x <= b,
{
    assert(x <= b) by (nonlinear_arith)
        requires
            x >= 0,
            y >= 1,
            x * y <= b,
    ;
}

fn per_layer_per_token_exec(a: &AttentionTraits, width: u64, Ghost(bound): Ghost<int>) -> (r: u64)
    requires
        per_layer_per_token(*a, width as int) <= bound <= u64::MAX,
    ensures
        r == per_layer_per_token(*a, width as int),
{
    let is_mla = match a.variant {
        AttentionVariant::Mla => true,
        _ => false,
    };
    let kv: u64 = match a.kv_lora_rank {
        Some(k) => k,
        None => 0,
    };
    if is_mla && kv > 0 {
        let rope: u64 = match a.qk_rope_head_dim {
            Some(r) => r,
            None => 0,
        };
        if width == 0 {
            assert((kv + rope) * 0 == 0) by (nonlinear_arith);
            return 0;
        }
        proof {
            lemma_le_mul(kv + rope, width as int, bound);
        }
        prod(kv + rope, width)
    } else {
        let ghost x: int = a.num_kv_heads * a.head_dim;
        proof {
            lemma_nonneg_mul(a.num_kv_heads as int, a.head_dim as int);
            assert(2 * a.num_kv_heads * a.head_dim * width == (2 * x) * width) by (nonlinear_arith)
                requires x == a.num_kv_heads * a.head_dim;
        }
        if width == 0 || a.num_kv_heads == 0 || a.head_dim == 0 {
            assert(2 * a.num_kv_heads * a.head_dim * width == 0) by (nonlinear_arith)
                requires
                    width == 0 || a.num_kv_heads == 0 || a.head_dim == 0,
            ;
            return 0;
        }
        proof {
            lemma_le_mul(2 * x, width as int, bound);
            lemma_le_mul(a.num_kv_heads as int, a.head_dim as int, x);
        }
        let heads_dim = prod(a.num_kv_heads, a.head_dim);
        let both = prod(2, heads_dim);
        prod(both, width)
    }
}

pub proof fn lemma_common_ratio_pos(s: Seq<u64>)
    ensures
        common_ratio(s) >= 1,
        all_divide(s, common_ratio(s)),
        s.len() > 0 ==> common_ratio(s.drop_last()) <= common_ratio(s),
    decreases s.len(),
{
    if s.len() > 0 {
        let init = s.drop_last();
        lemma_common_ratio_pos(init);
        let m = common_ratio(init);
        let r = eff_ratio(s.last());
        let c = common_ratio(s);
        assert(m <= c && c >= 1 && c % r == 0) by {
            if m % r != 0 {
                assert(m * r >= m && (m * r) % r == 0) by (nonlinear_arith)
                    requires
                        m >= 1,
                        r >= 1,
                ;
            }
        }
        assert forall|i: int| 0 <= i < s.len() implies c % eff_ratio(#[trigger] s[i]) == 0 by {
            if i < s.len() - 1 {
                assert(s[i] == init[i]);
                let e = eff_ratio(s[i]);
                assert(m % e == 0);
                if m % r != 0 {
                    assert((m * r) % e == 0) by (nonlinear_arith)
                        requires
                            m % e == 0,
                            e >= 1,
                            r >= 1,
                    {
                        let q = m / e;
                        assert(m == e * q);
                        assert(m * r == e * (q * r));
                    }
                }
            }
        }
    }
}

proof fn lemma_ratio_units_bound(s: Seq<u64>, m: int)
    requires
        m >= 1,
    ensures
        0 <= ratio_units(s, m) <= m * s.len(),
    decreases s.len(),
{
    if s.len() > 0 {
        lemma_ratio_units_bound(s.drop_last(), m);
        let r = eff_ratio(s.last());
        assert(m / r <= m && m / r >= 0) by (nonlinear_arith)
            requires
                r >= 1,
                m >= 1,
        ;
        assert(m * (s.len() - 1) + m == m * s.len()) by (nonlinear_arith);
    }
}

/// The common multiple of the ratios, when it fits in 64 bits.
pub(crate) fn common_ratio_exec(s: &Vec<u64>) -> (r: Option<u64>)
    ensures
        r matches Some(m) ==> m == common_ratio(s@),
        r is None ==> common_ratio(s@) > u64::MAX,
{
    let mut m: u64 = 1;
    let mut i: usize = 0;
    while i < s.len()
        invariant
            i <= s.len(),
            m == common_ratio(s@.subrange(0, i as int)),
        decreases s.len() - i,
    {
        let r: u64 = if s[i] == 0 {
            1
        } else {
            s[i]
        };
        proof {
            assert(s@.subrange(0, i + 1).drop_last() =~= s@.subrange(0, i as int));
        }
        if m % r != 0 {
            match m.checked_mul(r) {
                Some(v) => {
                    m = v;
                },
                None => {
                    proof {
                        lemma_common_ratio_grows(s@, i as int + 1);
                    }
                    return None;
                },
            }
        }
        i = i + 1;
    }
    assert(s@.subrange(0, s.len() as int) =~= s@);
    Some(m)
}

/// The common multiple never shrinks as layers are added.
proof fn lemma_common_ratio_grows(s: Seq<u64>, k: int)
    requires
        0 <= k <= s.len(),
    ensures
        common_ratio(s.subrange(0, k)) <= common_ratio(s),
    decreases s.len() - k,
{
    if k < s.len() {
        lemma_common_ratio_grows(s, k + 1);
        assert(s.subrange(0, k + 1).drop_last() =~= s.subrange(0, k));
        lemma_common_ratio_pos(s.subrange(0, k + 1));
    } else {
        assert(s.subrange(0, k) =~= s);
    }
}

pub(crate) fn ratio_units_exec(s: &Vec<u64>, m: u64) -> (u: u64)
    requires
        m >= 1,
        m * s.len() <= u64::MAX,
    ensures
        u == ratio_units(s@, m as int),
{
    let mut u: u64 = 0;
    let mut i: usize = 0;
    while i < s.len()
        invariant
            i <= s.len(),
            m >= 1,
            m * s.len() <= u64::MAX,
            u == ratio_units(s@.subrange(0, i as int), m as int),
        decreases s.len() - i,
    {
        let r: u64 = if s[i] == 0 {
            1
        } else {
            s[i]
        };
        proof {
            assert(s@.subrange(0, i + 1).drop_last() =~= s@.subrange(0, i as int));
            lemma_ratio_units_bound(s@.subrange(0, i + 1), m as int);
            assert(m * (i + 1) <= m * s.len()) by (nonlinear_arith)
                requires
                    i + 1 <= s.len(),
                    m >= 1,
            ;
        }
        u = u + m / r;
        i = i + 1;
    }
    assert(s@.subrange(0, s.len() as int) =~= s@);
    u
}

/// The average kept fraction `units / den` of a list of compress ratios.
struct KeptFraction {
    units: u64,
    den: u64,
}

/// Scales `base` by the average kept fraction of the compress ratios. Also
/// gives the fraction when it was formed exactly.
fn csa_scale(base: u64, s: &Vec<u64>) -> (r: (u64, Option<KeptFraction>))
    ensures
        r.0 == csa_value(base as int, s@),
        r.1 is Some <==> csa_exact(base as int, s@),
        r.1 matches Some(f) ==> f.units == ratio_units(s@, common_ratio(s@)) && f.den == common_ratio(
            s@,
        ) * s@.len() && f.den > 0,
{
    proof {
        lemma_common_ratio_pos(s@);
    }
    if s.len() == 0 {
        return (base, None);
    }
    let m = match common_ratio_exec(s) {
        Some(m) => m,
        None => {
            assert(common_ratio(s@) * s@.len() > u64::MAX) by (nonlinear_arith)
                requires
                    common_ratio(s@) > u64::MAX,
                    s@.len() >= 1,
            ;
            return (base, None);
        },
    };
    let n = s.len() as u64;
    assert((m as u128) * (n as u128) <= u128::MAX && (m as u128) * (n as u128) >= 1) by (nonlinear_arith)
        requires
            1 <= m <= u64::MAX,
            1 <= n <= u64::MAX,
    ;
    let wide_den = (m as u128) * (n as u128);
    if wide_den > u64::MAX as u128 {
        return (base, None);
    }
    let den = wide_den as u64;
    let scaled = (base as u128).checked_mul(den as u128);
    match scaled {
        None => (base, None),
        Some(_) => {
            let units = ratio_units_exec(s, m);
            proof {
                lemma_ratio_units_bound(s@, m as int);
                assert(base * units <= base * den) by (nonlinear_arith)
                    requires
                        units <= den,
                        base >= 0,
                ;
                assert((base * units) as int / den as int <= base) by (nonlinear_arith)
                    requires
                        base * units <= base * den,
                        den >= 1,
                        base >= 0,
                        units >= 0,
                ;
            }
            let v = (base as u128) * (units as u128) / (den as u128);
            (v as u64, Some(KeptFraction { units, den }))
        },
    }
}

pub open spec fn sliding_applies(p: ArchitectureProfile, a: AttentionTraits, seq_len: u64) -> bool {
    p.sliding_window is Some && p.sliding_window->0 > 0 && !spec_is_sparse(a.variant)
        && p.sliding_window->0 < seq_len
}

pub open spec fn variant_note(p: ArchitectureProfile, a: AttentionTraits, seq_len: u64, width: int) -> Seq<char> {
    let name = variant_name(a.variant);
    let eff = effective_seq(p, a, seq_len);
    if a.variant == AttentionVariant::CsaHca && a.compress_ratios is Some
        && a.compress_ratios->0@.len() > 0 {
        let s = a.compress_ratios->0@;
        let base = kv_baseline(p, a, seq_len, width);
        if csa_exact(base, s) {
            name + " (avg compress ratio "@ + fixed(
                ratio_units(s, common_ratio(s)) as nat,
                (common_ratio(s) * s.len()) as nat,
                3,
            ) + ")"@
        } else {
            name + " (compress ratios too fine to average exactly; left uncompressed)"@
        }
    } else if a.variant == AttentionVariant::Nsa && a.nsa_topk is Some && a.nsa_topk->0 > 0 {
        let k = a.nsa_topk->0;
        let kept = if k >= eff {
            eff
        } else {
            k as int
        };
        name + " (nsa_topk="@ + dec(k as nat) + ", sparsity="@ + fixed(kept as nat, eff as nat, 3)
            + ")"@
    } else {
        name
    }
}

/// The provenance note of a KV-cache estimate; `unit` names the width's unit.
pub open spec fn kv_cache_note(p: ArchitectureProfile, seq_len: u64, width: u64, unit: Seq<char>) -> Seq<char> {
    if seq_len == 0 {
        "seq_len <= 0"@
    } else if p.family == Family::StateSpace {
        "state-space model has no KV cache concept"@
    } else if p.family == Family::Unknown || p.confidence == Confidence::Low {
        "unknown architecture - cannot estimate KV cache"@
    } else if p.attention is None || p.num_hidden_layers == 0 {
        "missing attention traits or layer count"@
    } else {
        let a = p.attention->0;
        let eff = effective_seq(p, a, seq_len);
        let sliding = if sliding_applies(p, a, seq_len) {
            " (sliding_window="@ + dec(p.sliding_window->0 as nat) + " caps "@ + dec(
                seq_len as nat,
            ) + " -> "@ + dec(eff as nat) + ")"@
        } else {
            Seq::empty()
        };
        variant_note(p, a, seq_len, width as int) + ": 2*kv_shape*"@ + dec(width as nat) + unit
            + "*"@ + dec(eff as nat) + "*"@ + dec(p.num_hidden_layers as nat) + sliding
    }
}

fn kv_cache_core(profile: &ArchitectureProfile, seq_len: u64, width: u64, unit: &str) -> (res:
    AnnotatedValue<u64>)
    requires
        kv_fits(*profile, seq_len, width),
    ensures
        res.value == kv_cache_value(*profile, seq_len, width as int),
        res.label == kv_cache_label(*profile, seq_len),
        opt_string(res.source) == Some(kv_cache_note(*profile, seq_len, width, unit@)),
{
    if seq_len == 0 {
        return AnnotatedValue::new(0, Label::Estimated, Some("seq_len <= 0"));
    }
    match profile.family {
        Family::StateSpace => {
            return AnnotatedValue::new(
                0,
                Label::Unknown,
                Some("state-space model has no KV cache concept"),
            );
        },
        _ => {},
    }
    let low = match profile.confidence {
        Confidence::Low => true,
        _ => false,
    };
    let unknown = match profile.family {
        Family::Unknown => true,
        _ => false,
    };
    if unknown || low {
        return AnnotatedValue::new(
            0,
            Label::Unknown,
            Some("unknown architecture - cannot estimate KV cache"),
        );
    }
    let attention = match &profile.attention {
        None => {
            return AnnotatedValue::new(
                0,
                Label::Unknown,
                Some("missing attention traits or layer count"),
            );
        },
        Some(a) => a,
    };
    if profile.num_hidden_layers == 0 {
        return AnnotatedValue::new(
            0,
            Label::Unknown,
            Some("missing attention traits or layer count"),
        );
    }
    let layers = profile.num_hidden_layers;
    let sparse = attention.variant.is_sparse();
    let mut eff_seq: u64 = seq_len;
    let mut capped = false;
    match profile.sliding_window {
        Some(w) => {
            if w > 0 && !sparse && w < seq_len {
                eff_seq = w;
                capped = true;
            }
        },
        None => {},
    }
    let ghost a = *attention;
    let ghost base: int = kv_baseline(*profile, a, seq_len, width as int);
    let ghost per: int = per_layer_per_token(a, width as int);
    assert(eff_seq == effective_seq(*profile, a, seq_len));
    proof {
        assert(per >= 0) by (nonlinear_arith)
            requires
                per == per_layer_per_token(a, width as int),
                width >= 0,
        {
            if a.variant == AttentionVariant::Mla && a.kv_lora_rank is Some && a.kv_lora_rank->0 > 0 {
                lemma_nonneg_mul(a.kv_lora_rank->0 + rope_dim(a), width as int);
            } else {
                lemma_nonneg_mul(2 * a.num_kv_heads, a.head_dim as int);
                lemma_nonneg_mul(2 * a.num_kv_heads * a.head_dim, width as int);
            }
        }
        lemma_nonneg_mul(per, eff_seq as int);
        lemma_le_mul(per * eff_seq, layers as int, base);
        lemma_le_mul(per, eff_seq as int, per * eff_seq);
    }
    let per_token = per_layer_per_token_exec(attention, width, Ghost(base));
    let per_seq = prod(per_token, eff_seq);
    let baseline = prod(per_seq, layers);
    let mut value = baseline;
    let mut note = attention.variant.as_str().to_string();
    let is_csa = match attention.variant {
        AttentionVariant::CsaHca => true,
        _ => false,
    };
    let is_nsa = match attention.variant {
        AttentionVariant::Nsa => true,
        _ => false,
    };
    let ratios_present = match &attention.compress_ratios {
        Some(r) => r.len() > 0,
        None => false,
    };
    let topk: u64 = match attention.nsa_topk {
        Some(k) => k,
        None => 0,
    };
    if is_csa && ratios_present {
        let ratios = match &attention.compress_ratios {
            Some(r) => r,
            None => {
                return AnnotatedValue::new(0, Label::Unknown, None);
            },
        };
        let (scaled, fraction) = csa_scale(baseline, ratios);
        value = scaled;
        match fraction {
            Some(f) => {
                note.append(" (avg compress ratio ");
                note.append(fmt_fixed(f.units, f.den, 3).as_str());
                note.append(")");
            },
            None => {
                note.append(" (compress ratios too fine to average exactly; left uncompressed)");
            },
        }
    } else if is_nsa && topk > 0 {
        let kept: u64 = if topk >= eff_seq {
            eff_seq
        } else {
            topk
        };
        if topk < eff_seq {
            proof {
                assert(per * topk <= per * eff_seq) by (nonlinear_arith)
                    requires
                        per >= 0,
                        topk < eff_seq,
                ;
                assert(per * topk * layers <= per * eff_seq * layers) by (nonlinear_arith)
                    requires
                        per * topk <= per * eff_seq,
                        layers >= 0,
                        per * topk >= 0,
                ;
                lemma_nonneg_mul(per, topk as int);
                lemma_le_mul(per * topk, layers as int, base);
            }
            let per_k = prod(per_token, topk);
            value = prod(per_k, layers);
        }
        note.append(" (nsa_topk=");
        note.append(u64_to_string(topk).as_str());
        note.append(", sparsity=");
        note.append(fmt_fixed(kept, eff_seq, 3).as_str());
        note.append(")");
    }
    note.append(": 2*kv_shape*");
    note.append(u64_to_string(width).as_str());
    note.append(unit);
    note.append("*");
    note.append(u64_to_string(eff_seq).as_str());
    note.append("*");
    note.append(u64_to_string(layers).as_str());
    if capped {
        note.append(" (sliding_window=");
        note.append(u64_to_string(eff_seq).as_str());
        note.append(" caps ");
        note.append(u64_to_string(seq_len).as_str());
        note.append(" -> ");
        note.append(u64_to_string(eff_seq).as_str());
        note.append(")");
    }
    proof {
        let vn = variant_note(*profile, a, seq_len, width as int);
        assert(kv_cache_note(*profile, seq_len, width, unit@) =~= note@);
    }
    AnnotatedValue::new(value, Label::Estimated, Some(note.as_str()))
}

/// KV-cache bytes for one request of `seq_len` tokens at `dtype_bytes` per
/// element.
pub fn compute_kv_cache_bytes(profile: &ArchitectureProfile, seq_len: u64, dtype_bytes: u64) -> (res:
    AnnotatedValue<u64>)
    requires
        kv_fits(*profile, seq_len, dtype_bytes),
    ensures
        res.value == kv_cache_value(*profile, seq_len, dtype_bytes as int),
        res.label == kv_cache_label(*profile, seq_len),
        opt_string(res.source) == Some(kv_cache_note(*profile, seq_len, dtype_bytes, "B"@)),
{
    kv_cache_core(profile, seq_len, dtype_bytes, "B")
}

/// KV-cache bytes for one request of `seq_len` tokens at `bits` per element
/// (16 for BF16/FP16, 8 for FP8, 4 for INT4): the size in bits over eight.
pub fn compute_kv_cache_bits(profile: &ArchitectureProfile, seq_len: u64, bits: u64) -> (res:
    AnnotatedValue<u64>)
    requires
        kv_fits(*profile, seq_len, bits),
    ensures
        res.value == kv_cache_value(*profile, seq_len, bits as int) / 8,
        res.label == kv_cache_label(*profile, seq_len),
        opt_string(res.source) == Some(kv_cache_note(*profile, seq_len, bits, "b"@)),
{
    let r = kv_cache_core(profile, seq_len, bits, "b");
    AnnotatedValue { value: r.value / 8, label: r.label, source: r.source }
}

/// Whether the uncompressed cache for `seq_len` tokens at `width` fits in
/// `u64`, so that the cache functions can be called with these arguments.
pub fn kv_fits_check(p: &ArchitectureProfile, seq_len: u64, width: u64) -> (b: bool)
    ensures
        b == kv_fits(*p, seq_len, width),
{
    let estimable = match p.family {
        Family::StateSpace | Family::Unknown => false,
        _ => true,
    } && match p.confidence {
        Confidence::Low => false,
        _ => true,
    } && p.attention.is_some() && p.num_hidden_layers > 0;
    if seq_len == 0 || !estimable {
        return true;
    }
    let a = match &p.attention {
        Some(a) => a,
        None => {
            return true;
        },
    };
    let ghost w = width as int;
    let kv_lora: u64 = match a.kv_lora_rank {
        Some(k) => k,
        None => 0,
    };
    let is_mla = match a.variant {
        AttentionVariant::Mla => true,
        _ => false,
    };
    let per: Option<u64> = if is_mla && kv_lora > 0 {
        let rope: u64 = match a.qk_rope_head_dim {
            Some(r) => r,
            None => 0,
        };
        let ghost lr = kv_lora + rope;
        let sum = cap_add(cap_of(kv_lora), cap_of(rope), Ghost(kv_lora as int), Ghost(rope as int));
        cap_mul(sum, cap_of(width), Ghost(lr), Ghost(w))
    } else {
        let ghost k2 = 2 * a.num_kv_heads;
        let ghost kh = 2 * a.num_kv_heads * a.head_dim;
        proof {
            assert(kh >= 0) by (nonlinear_arith)
                requires
                    kh == 2 * a.num_kv_heads * a.head_dim,
            ;
        }
        let two_k = cap_mul(cap_of(2), cap_of(a.num_kv_heads), Ghost(2), Ghost(a.num_kv_heads as int));
        let kh_c = cap_mul(two_k, cap_of(a.head_dim), Ghost(k2), Ghost(a.head_dim as int));
        cap_mul(kh_c, cap_of(width), Ghost(kh), Ghost(w))
    };
    let ghost per_v = per_layer_per_token(*a, w);
    let eff: u64 = match p.sliding_window {
        Some(win) => if win > 0 && !a.variant.is_sparse() && win < seq_len {
            win
        } else {
            seq_len
        },
        None => seq_len,
    };
    proof {
        assert(per_v >= 0) by (nonlinear_arith)
            requires
                per_v == per_layer_per_token(*a, w),
                w >= 0,
                per_v == (if a.variant == AttentionVariant::Mla && a.kv_lora_rank is Some && a.kv_lora_rank->0 > 0 {
                    (a.kv_lora_rank->0 + rope_dim(*a)) * w
                } else {
                    2 * a.num_kv_heads * a.head_dim * w
                }),
                rope_dim(*a) >= 0,
        ;
        assert(per_v * eff >= 0) by (nonlinear_arith)
            requires
                per_v >= 0,
                eff >= 0,
        ;
    }
    let pe = cap_mul(per, cap_of(eff), Ghost(per_v), Ghost(eff as int));
    let total = cap_mul(pe, cap_of(p.num_hidden_layers), Ghost(per_v * eff), Ghost(p.num_hidden_layers as int));
    total.is_some()
}

} // verus!
