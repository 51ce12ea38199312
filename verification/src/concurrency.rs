//! Concurrency bounds: K from memory capacity, L from throughput at the
//! service level, and which of the two binds.
use vstd::prelude::*;
use crate::labels::{AnnotatedValue, Label, opt_string};
use crate::text::{dec, fmt_u64, grouped, u64_to_string};
use crate::evaluation::{chosen_count, chosen_gpu_count, EvaluationReport, KV_REFERENCE_CTX};
use crate::layout::{kv_shards, kv_shards_spec};
use crate::planner::FleetOption;

verus! {

#[derive(Clone, Copy, Debug, PartialEq, Eq, Structural)]
pub enum Bottleneck {
    MemoryCapacity,
    MemoryBandwidth,
    Compute,
    InsufficientData,
}

pub open spec fn bottleneck_name(b: Bottleneck) -> Seq<char> {
    match b {
        Bottleneck::MemoryCapacity => "memory_capacity"@,
        Bottleneck::MemoryBandwidth => "memory_bandwidth"@,
        Bottleneck::Compute => "compute"@,
        Bottleneck::InsufficientData => "insufficient_data"@,
    }
}

impl Bottleneck {
    pub fn as_str(self) -> (s: &'static str)
        ensures
            s@ == bottleneck_name(self),
    {
        match self {
            Bottleneck::MemoryCapacity => "memory_capacity",
            Bottleneck::MemoryBandwidth => "memory_bandwidth",
            Bottleneck::Compute => "compute",
            Bottleneck::InsufficientData => "insufficient_data",
        }
    }
}

/// K, the requests whose KV cache fits the headroom: `headroom / kv`,
/// unknown when the per-request cache is zero.
pub open spec fn k_bound_of(headroom: u64, kv_per_request: u64) -> (u64, Label, Seq<char>) {
    if kv_per_request == 0 {
        (0, Label::Unknown, "KV cache per request is zero or unknown"@)
    } else {
        (
            (headroom / kv_per_request) as u64,
            Label::Estimated,
            grouped(headroom as nat) + " bytes headroom / "@ + grouped(kv_per_request as nat) + " bytes per request"@,
        )
    }
}

/// Which bound binds: none when both are zero; memory capacity when K is
/// not above L; otherwise bandwidth / compute. The maximum is the binding
/// bound.
pub open spec fn verdict_of(k: u64, l: u64) -> (u64, Bottleneck, Seq<char>, Seq<char>) {
    if k == 0 && l == 0 {
        (0, Bottleneck::InsufficientData, "Both K and L unknown - cannot conclude."@, "K 和 L 均未知，无法得出结论。"@)
    } else if k <= l {
        (
            k,
            Bottleneck::MemoryCapacity,
            "K ("@ + dec(k as nat) + ") <= L ("@ + dec(l as nat)
                + ") -> memory-capacity bound. KV cache exhausts GPU headroom before throughput SLA does."@,
            "K ("@ + dec(k as nat) + ") ≤ L ("@ + dec(l as nat) + ") → 显存容量瓶颈。先达到 KV cache 容量上限，才到吞吐目标。"@,
        )
    } else {
        (
            l,
            Bottleneck::MemoryBandwidth,
            "L ("@ + dec(l as nat) + ") < K ("@ + dec(k as nat)
                + ") -> memory-bandwidth / compute bound. Cluster can't sustain target tok/s per user at this concurrency."@,
            "L ("@ + dec(l as nat) + ") < K ("@ + dec(k as nat) + ") → 带宽/算力瓶颈。集群在此并发下无法维持目标 tok/s。"@,
        )
    }
}

/// The bounds and the verdict; the throughput side (L) is measured
/// elsewhere and handed in.
pub struct ConcurrencyBounds {
    pub k_bound: AnnotatedValue<u64>,
    pub k_source_headroom_bytes: u64,
    pub k_source_kv_per_req_bytes: u64,
    pub l_bound: AnnotatedValue<u64>,
    pub max_concurrent: AnnotatedValue<u64>,
    pub bottleneck: Bottleneck,
    pub bottleneck_reason_en: String,
    pub bottleneck_reason_zh: String,
}

pub open spec fn bounds_ok(r: ConcurrencyBounds, headroom: u64, kv_per_request: u64, l: u64) -> bool {
    let (k, k_label, k_note) = k_bound_of(headroom, kv_per_request);
    let (m, b, en, zh) = verdict_of(k, l);
    &&& r.k_bound.value == k
    &&& r.k_bound.label == k_label
    &&& opt_string(r.k_bound.source) == Some(k_note)
    &&& r.k_source_headroom_bytes == headroom
    &&& r.k_source_kv_per_req_bytes == kv_per_request
    &&& r.l_bound.value == l
    &&& r.max_concurrent.value == m
    &&& r.max_concurrent.label == (if m > 0 { Label::Estimated } else { Label::Unknown })
    &&& opt_string(r.max_concurrent.source) == Some("min(K="@ + dec(k as nat) + ", L="@ + dec(l as nat) + ")"@)
    &&& r.bottleneck == b
    &&& r.bottleneck_reason_en@ == en
    &&& r.bottleneck_reason_zh@ == zh
}

/// Combines K, from the headroom and the per-request cache, with the
/// throughput bound L into the concurrency verdict.
pub fn analyze_bounds(headroom_bytes: u64, kv_bytes_per_request: u64, l_bound: AnnotatedValue<u64>) -> (r:
    ConcurrencyBounds)
    ensures
        bounds_ok(r, headroom_bytes, kv_bytes_per_request, l_bound.value),
        r.l_bound == l_bound,
{
    let k_bound = if kv_bytes_per_request == 0 {
        AnnotatedValue::new(0, Label::Unknown, Some("KV cache per request is zero or unknown"))
    } else {
        let mut note = fmt_u64(headroom_bytes);
        note.append(" bytes headroom / ");
        note.append(fmt_u64(kv_bytes_per_request).as_str());
        note.append(" bytes per request");
        AnnotatedValue::new(headroom_bytes / kv_bytes_per_request, Label::Estimated, Some(note.as_str()))
    };
    let k = k_bound.value;
    let l = l_bound.value;
    let ks = u64_to_string(k);
    let ls = u64_to_string(l);
    let (m, b, en, zh) = if k == 0 && l == 0 {
        (
            0,
            Bottleneck::InsufficientData,
            "Both K and L unknown - cannot conclude.".to_string(),
            "K 和 L 均未知，无法得出结论。".to_string(),
        )
    } else if k <= l {
        let mut en = "K (".to_string();
        en.append(ks.as_str());
        en.append(") <= L (");
        en.append(ls.as_str());
        en.append(") -> memory-capacity bound. KV cache exhausts GPU headroom before throughput SLA does.");
        let mut zh = "K (".to_string();
        zh.append(ks.as_str());
        zh.append(") ≤ L (");
        zh.append(ls.as_str());
        zh.append(") → 显存容量瓶颈。先达到 KV cache 容量上限，才到吞吐目标。");
        (k, Bottleneck::MemoryCapacity, en, zh)
    } else {
        let mut en = "L (".to_string();
        en.append(ls.as_str());
        en.append(") < K (");
        en.append(ks.as_str());
        en.append(") -> memory-bandwidth / compute bound. Cluster can't sustain target tok/s per user at this concurrency.");
        let mut zh = "L (".to_string();
        zh.append(ls.as_str());
        zh.append(") < K (");
        zh.append(ks.as_str());
        zh.append(") → 带宽/算力瓶颈。集群在此并发下无法维持目标 tok/s。");
        (l, Bottleneck::MemoryBandwidth, en, zh)
    };
    let mut max_note = "min(K=".to_string();
    max_note.append(ks.as_str());
    max_note.append(", L=");
    max_note.append(ls.as_str());
    max_note.append(")");
    ConcurrencyBounds {
        k_bound,
        k_source_headroom_bytes: headroom_bytes,
        k_source_kv_per_req_bytes: kv_bytes_per_request,
        l_bound,
        max_concurrent: AnnotatedValue::new(
            m,
            if m > 0 {
                Label::Estimated
            } else {
                Label::Unknown
            },
            Some(max_note.as_str()),
        ),
        bottleneck: b,
        bottleneck_reason_en: en,
        bottleneck_reason_zh: zh,
    }
}

/// The verdict's maximum is the smaller of the two bounds, and memory
/// capacity binds exactly when K is not above L (and not both are zero).
pub proof fn lemma_max_concurrent_is_min(k: u64, l: u64)
    ensures
        verdict_of(k, l).0 == (if k <= l { k } else { l }),
        (verdict_of(k, l).1 == Bottleneck::MemoryCapacity) == (k <= l && !(k == 0 && l == 0)),
        verdict_of(k, l).0 <= k && verdict_of(k, l).0 <= l,
{
}

/// The KV cache of one request at the reference context: the 128K entry
/// when evaluated, else the longest context's.
pub open spec fn reference_kv(kv: Seq<(u64, AnnotatedValue<u64>)>) -> Option<u64>
    decreases kv.len(),
{
    if kv.len() == 0 {
        None
    } else {
        match first_at(kv, KV_REFERENCE_CTX) {
            Some(v) => Some(v),
            None => Some(kv.last().1.value),
        }
    }
}

/// The value of the first entry at `ctx`.
pub open spec fn first_at(kv: Seq<(u64, AnnotatedValue<u64>)>, ctx: u64) -> Option<u64>
    decreases kv.len(),
{
    if kv.len() == 0 {
        None
    } else if kv[0].0 == ctx {
        Some(kv[0].1.value)
    } else {
        first_at(kv.drop_first(), ctx)
    }
}

/// The option with `n` GPUs, else the last one.
pub open spec fn option_with_count(opts: Seq<FleetOption>, n: u64) -> Option<FleetOption> {
    match first_with_count(opts, n) {
        Some(o) => Some(o),
        None => if opts.len() > 0 {
            Some(opts.last())
        } else {
            None
        },
    }
}

pub open spec fn first_with_count(opts: Seq<FleetOption>, n: u64) -> Option<FleetOption>
    decreases opts.len(),
{
    if opts.len() == 0 {
        None
    } else if opts[0].gpu_count == n {
        Some(opts[0])
    } else {
        first_with_count(opts.drop_first(), n)
    }
}

/// What the memory bound K is computed from: the headroom per GPU of the
/// option with the chosen GPU count, and one request's reference KV cache
/// split over its KV shards (at least one byte). Known only with a GPU, a
/// plan, a parameter estimate and an evaluated context.
pub open spec fn concurrency_inputs_of(r: EvaluationReport, forced: Option<u64>) -> Option<(u64, u64)> {
    match (r.gpu_spec, r.fleet) {
        (Some(_), Some(f)) => if r.total_params_estimate.value > 0 {
            let chosen = chosen_count(f, forced);
            match (option_with_count(f.options@, chosen), reference_kv(r.kv_cache_by_context@)) {
                (Some(o), Some(kv)) => {
                    let shards = kv_shards_spec(r.profile, chosen as int);
                    let s: int = if shards < 1 { 1 } else { shards };
                    let per: int = kv as int / s;
                    Some(
                        (
                            if o.usable_bytes_per_gpu >= o.weight_bytes_per_gpu {
                                (o.usable_bytes_per_gpu - o.weight_bytes_per_gpu) as u64
                            } else {
                                0
                            },
                            if per < 1 {
                                1
                            } else {
                                per as u64
                            },
                        ),
                    )
                },
                _ => None,
            }
        } else {
            None
        },
        _ => None,
    }
}

fn first_at_exec(kv: &Vec<(u64, AnnotatedValue<u64>)>, ctx: u64) -> (r: Option<u64>)
    ensures
        r == first_at(kv@, ctx),
{
    let mut i: usize = 0;
    assert(kv@.subrange(0, kv@.len() as int) =~= kv@);
    while i < kv.len()
        invariant
            i <= kv@.len(),
            first_at(kv@, ctx) == first_at(kv@.subrange(i as int, kv@.len() as int), ctx),
        decreases kv.len() - i,
    {
        assert(kv@.subrange(i as int, kv@.len() as int).drop_first() =~= kv@.subrange(i + 1, kv@.len() as int));
        if kv[i].0 == ctx {
            return Some(kv[i].1.value);
        }
        i = i + 1;
    }
    None
}

/// One request's KV cache at the reference context.
pub fn reference_kv_bytes(kv: &Vec<(u64, AnnotatedValue<u64>)>) -> (r: Option<u64>)
    ensures
        r == reference_kv(kv@),
{
    if kv.len() == 0 {
        return None;
    }
    match first_at_exec(kv, KV_REFERENCE_CTX) {
        Some(v) => Some(v),
        None => Some(kv[kv.len() - 1].1.value),
    }
}

/// The option with `n` GPUs, else the last one.
pub fn option_for_count(opts: &Vec<FleetOption>, n: u64) -> (r: Option<&FleetOption>)
    ensures
        match r {
            Some(o) => option_with_count(opts@, n) == Some(*o),
            None => option_with_count(opts@, n) is None,
        },
{
    let mut i: usize = 0;
    assert(opts@.subrange(0, opts@.len() as int) =~= opts@);
    while i < opts.len()
        invariant
            i <= opts@.len(),
            first_with_count(opts@, n) == first_with_count(opts@.subrange(i as int, opts@.len() as int), n),
        decreases opts.len() - i,
    {
        assert(opts@.subrange(i as int, opts@.len() as int).drop_first() =~= opts@.subrange(i + 1, opts@.len() as int));
        if opts[i].gpu_count == n {
            return Some(&opts[i]);
        }
        i = i + 1;
    }
    if opts.len() > 0 {
        Some(&opts[opts.len() - 1])
    } else {
        None
    }
}

/// The headroom per GPU and the per-GPU KV cache of one request that the
/// memory bound K is computed from, when the report has what they need.
pub fn concurrency_inputs(report: &EvaluationReport, forced_gpu_count: Option<u64>) -> (r: Option<(u64, u64)>)
    ensures
        r == concurrency_inputs_of(*report, forced_gpu_count),
{
    if report.gpu_spec.is_none() || report.total_params_estimate.value == 0 {
        return None;
    }
    let f = match &report.fleet {
        Some(f) => f,
        None => {
            return None;
        },
    };
    let chosen = chosen_gpu_count(f, forced_gpu_count);
    let o = match option_for_count(&f.options, chosen) {
        Some(o) => o,
        None => {
            return None;
        },
    };
    let kv = match reference_kv_bytes(&report.kv_cache_by_context) {
        Some(kv) => kv,
        None => {
            return None;
        },
    };
    let shards = kv_shards(&report.profile, chosen);
    let s = if shards < 1 {
        1
    } else {
        shards
    };
    let per = kv / s;
    let headroom = if o.usable_bytes_per_gpu >= o.weight_bytes_per_gpu {
        o.usable_bytes_per_gpu - o.weight_bytes_per_gpu
    } else {
        0
    };
    Some((headroom, if per < 1 { 1 } else { per }))
}

} // verus!
