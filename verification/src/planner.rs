//! Fleet planning: how many GPUs a model needs at a given concurrency, and
//! how it is laid out over them.
use vstd::prelude::*;
use crate::activation::DEFAULT_BATCHED_TOKENS;
use crate::hardware::GPUSpec;
use crate::layout::{
    ceil_div, ceil_div_u64, layout, layout_for_count, effective_kv_shards,
    effective_kv_shards_spec, is_candidate, is_candidate_exec, counts_upto, heads, max_tp,
    max_tp_exec, valid_tp_sizes, candidate_gpu_counts, distributed_tp_sizes, pipeline_gpu_counts,
    MAX_DISTRIBUTED_TP, MAX_TP_SINGLE_NODE,
};
use crate::profile::ArchitectureProfile;
use crate::weight::{has_shape, params_fit, single_expert_params, total_params, ffn_params, prod};
use crate::text::{dec, fixed, debug_list, fmt_fixed, fmt_list, u64_to_string};

verus! {

pub const OVERHEAD_FLOOR_BYTES: u64 = 3_000_000_000;

/// During a prefill step one request in eight is being prefilled.
pub const PREFILL_ACTIVE_REQUEST_DIVISOR: u64 = 8;

/// Tokens of one chunked-prefill step per active request.
pub const PREFILL_CHUNK_TOKENS_PER_ACTIVE_REQUEST: u64 = 1500;

/// User choices that change what each GPU holds.
pub struct FleetMemoryOptions {
    pub target_concurrent_requests: Option<u64>,
    pub speculative_weight_bytes: u64,
    pub cpu_offload_bytes_per_gpu: u64,
    /// Keep only `experts_on_gpu` of the routed experts resident; the rest
    /// are offloaded to host memory.
    pub expert_offloading: bool,
    pub experts_on_gpu: Option<u64>,
}

impl FleetMemoryOptions {
    pub open spec fn default_spec() -> FleetMemoryOptions {
        FleetMemoryOptions {
            target_concurrent_requests: None,
            speculative_weight_bytes: 0,
            cpu_offload_bytes_per_gpu: 0,
            expert_offloading: false,
            experts_on_gpu: None,
        }
    }

    /// No target, no extra weights, nothing offloaded.
    pub fn default() -> (res: Self)
        ensures
            res == Self::default_spec(),
    {
        FleetMemoryOptions {
            target_concurrent_requests: None,
            speculative_weight_bytes: 0,
            cpu_offload_bytes_per_gpu: 0,
            expert_offloading: false,
            experts_on_gpu: None,
        }
    }
}

// ---------------------------------------------------------------------------
// GPU memory budget
// ---------------------------------------------------------------------------

/// Bytes on one GPU (`memory_gb` decimal gigabytes), capped at `u64::MAX`.
pub open spec fn total_memory(memory_gb: u64) -> int {
    let b = memory_gb * 1_000_000_000;
    if b > u64::MAX {
        u64::MAX as int
    } else {
        b
    }
}

/// A tenth of the memory, but at least 3 GB, is kept back for the runtime.
pub open spec fn reserved_memory(total: int) -> int {
    if total / 10 > OVERHEAD_FLOOR_BYTES {
        total / 10
    } else {
        OVERHEAD_FLOOR_BYTES as int
    }
}

pub open spec fn usable_memory(memory_gb: u64) -> int {
    let t = total_memory(memory_gb);
    if t > reserved_memory(t) {
        t - reserved_memory(t)
    } else {
        0
    }
}

pub fn memory_budget(memory_gb: u64) -> (r: (u64, u64))
    ensures
        r.0 == total_memory(memory_gb),
        r.1 == usable_memory(memory_gb),
{
    let wide = (memory_gb as u128) * 1_000_000_000;
    let total: u64 = if wide > u64::MAX as u128 {
        u64::MAX
    } else {
        wide as u64
    };
    let tenth = total / 10;
    let reserved = if tenth > OVERHEAD_FLOOR_BYTES {
        tenth
    } else {
        OVERHEAD_FLOOR_BYTES
    };
    let usable = if total > reserved {
        total - reserved
    } else {
        0
    };
    (total, usable)
}

// ---------------------------------------------------------------------------
// Resident weights
// ---------------------------------------------------------------------------

/// Parameters in the routed experts of all layers.
pub open spec fn routed_params(p: ArchitectureProfile) -> int {
    match p.moe {
        Some(m) => single_expert_params(p) * m.num_routed_experts * p.num_hidden_layers,
        None => 0,
    }
}

/// Without a usable shape the routed experts are taken as 80% of the weights.
pub open spec fn routed_fraction_is_default(p: ArchitectureProfile) -> bool {
    match p.moe {
        Some(m) => p.hidden_size == 0 || p.num_hidden_layers == 0 || m.moe_intermediate_size == 0
            || m.num_routed_experts == 0 || routed_params(p) == 0 || routed_params(p)
            >= total_params(p),
        None => true,
    }
}

/// The routed-expert share of `stage` bytes, rounded down.
pub open spec fn routed_part(p: ArchitectureProfile, stage: int) -> int {
    if routed_fraction_is_default(p) {
        stage * 4 / 5
    } else {
        stage * routed_params(p) / total_params(p)
    }
}

pub open spec fn routed_shards(p: ArchitectureProfile, tp: int) -> int {
    match p.moe {
        Some(m) => {
            let e = if m.num_routed_experts < 1 { 1 } else { m.num_routed_experts as int };
            if e < tp { e } else { tp }
        },
        None => tp,
    }
}

/// Weight bytes one GPU holds for `n` GPUs: a pipeline stage's share, split
/// over the TP group; routed experts split no further than the expert count.
pub open spec fn base_main_weight(p: ArchitectureProfile, weight_bytes: u64, n: int) -> int {
    if weight_bytes == 0 {
        0
    } else {
        let (tp, pp, _) = layout(p, n);
        let stage = ceil_div(weight_bytes as int, pp);
        match p.moe {
            None => ceil_div(stage, tp),
            Some(m) => {
                let routed = routed_part(p, stage);
                ceil_div(routed, routed_shards(p, tp)) + ceil_div(stage - routed, tp)
            },
        }
    }
}

/// Routed-expert bytes per GPU moved to host memory when only
/// `experts_on_gpu` experts stay resident.
pub open spec fn expert_offload(
    p: ArchitectureProfile,
    weight_bytes: u64,
    n: int,
    o: FleetMemoryOptions,
) -> int {
    match p.moe {
        Some(m) => if weight_bytes > 0 && o.expert_offloading && o.experts_on_gpu is Some
            && m.num_routed_experts > 0 {
            let (tp, pp, _) = layout(p, n);
            let stage = ceil_div(weight_bytes as int, pp);
            let routed_per_gpu = ceil_div(routed_part(p, stage), routed_shards(p, tp));
            let e = m.num_routed_experts as int;
            let keep = if o.experts_on_gpu->0 < e { o.experts_on_gpu->0 as int } else { e };
            routed_per_gpu * (e - keep) / e
        } else {
            0
        },
        None => 0,
    }
}

/// Manual host offload, at most what is still resident.
pub open spec fn manual_offload(p: ArchitectureProfile, weight_bytes: u64, n: int, o: FleetMemoryOptions) -> int {
    let rest = base_main_weight(p, weight_bytes, n) - expert_offload(p, weight_bytes, n, o);
    if o.cpu_offload_bytes_per_gpu < rest {
        o.cpu_offload_bytes_per_gpu as int
    } else {
        rest
    }
}

pub open spec fn main_weight(p: ArchitectureProfile, weight_bytes: u64, n: int, o: FleetMemoryOptions) -> int {
    base_main_weight(p, weight_bytes, n) - expert_offload(p, weight_bytes, n, o) - manual_offload(
        p,
        weight_bytes,
        n,
        o,
    )
}

pub open spec fn speculative_weight(n: int, o: FleetMemoryOptions) -> int {
    ceil_div(o.speculative_weight_bytes as int, if n < 1 { 1 } else { n })
}

/// Resident weight per GPU (main plus speculative), capped at `u64::MAX`.
pub open spec fn resident_weight(p: ArchitectureProfile, weight_bytes: u64, n: int, o: FleetMemoryOptions) -> int {
    let t = main_weight(p, weight_bytes, n, o) + speculative_weight(n, o);
    if t > u64::MAX {
        u64::MAX as int
    } else {
        t
    }
}

pub proof fn lemma_ceil_div_le(x: int, d: int)
    requires
        x >= 0,
        d >= 1,
    ensures
        0 <= ceil_div(x, d) <= x,
{
    assert(0 <= (x + d - 1) / d <= x) by (nonlinear_arith)
        requires
            x >= 0,
            d >= 1,
    ;
}

proof fn lemma_routed_params_bound(p: ArchitectureProfile)
    requires
        p.moe is Some,
        has_shape(p),
    ensures
        0 <= routed_params(p) <= total_params(p) - crate::weight::embedding_params(p),
{
    let m = p.moe->0;
    let h = p.hidden_size as int;
    let single = single_expert_params(p);
    let e = m.num_routed_experts as int;
    let sh = m.num_shared_experts as int;
    let l = p.num_hidden_layers as int;
    assert(single >= 0) by (nonlinear_arith)
        requires
            single == 3 * h * m.moe_intermediate_size,
            h >= 0,
    ;
    assert(single * e <= single * (e + sh)) by (nonlinear_arith)
        requires
            single >= 0,
            sh >= 0,
    ;
    assert(h * e >= 0) by (nonlinear_arith)
        requires
            h >= 0,
            e >= 0,
    ;
    assert(single * e >= 0) by (nonlinear_arith)
        requires
            single >= 0,
            e >= 0,
    ;
    crate::weight::lemma_params_parts_pub(p);
    let per_layer = crate::weight::attention_params(p) + ffn_params(p) + 2 * h;
    assert(single * e <= per_layer);
    assert(single * e * l <= per_layer * l) by (nonlinear_arith)
        requires
            0 <= single * e <= per_layer,
            l >= 0,
    ;
    assert(single * e * l >= 0) by (nonlinear_arith)
        requires
            single * e >= 0,
            l >= 0,
    ;
}

/// `stage * num / den` for `num <= den`, without overflow.
fn scaled_down(stage: u64, num: u128, den: u128) -> (r: u64)
    requires
        0 < den,
        num <= den,
        den <= u64::MAX,
    ensures
        r == (stage * num) as int / den as int,
        r <= stage,
{
    assert((stage as u128) * num <= u128::MAX) by (nonlinear_arith)
        requires
            stage <= u64::MAX,
            num <= u64::MAX,
    ;
    let v = (stage as u128) * num / den;
    assert(v <= stage) by (nonlinear_arith)
        requires
            v == ((stage as u128) * num) as int / den as int,
            num <= den,
            den > 0,
    ;
    v as u64
}

fn routed_part_exec(p: &ArchitectureProfile, stage: u64) -> (r: u64)
    requires
        params_fit(*p),
        p.moe is Some,
    ensures
        r == routed_part(*p, stage as int),
        r <= stage,
{
    let m = match &p.moe {
        Some(m) => m,
        None => {
            return 0;
        },
    };
    if p.hidden_size == 0 || p.num_hidden_layers == 0 || m.moe_intermediate_size == 0
        || m.num_routed_experts == 0 {
        return scaled_down(stage, 4, 5);
    }
    proof {
        lemma_routed_params_bound(*p);
        crate::weight::lemma_params_parts_pub(*p);
    }
    let total = crate::weight::estimate_total_params(p).value;
    let ghost single: int = single_expert_params(*p);
    proof {
        assert(single == 3 * (p.hidden_size * m.moe_intermediate_size)) by (nonlinear_arith)
            requires
                single == 3 * p.hidden_size * m.moe_intermediate_size,
        ;
        assert(p.hidden_size * m.moe_intermediate_size >= 1) by (nonlinear_arith)
            requires
                p.hidden_size >= 1,
                m.moe_intermediate_size >= 1,
        ;
        assert(single * m.num_routed_experts >= single) by (nonlinear_arith)
            requires
                single >= 0,
                m.num_routed_experts >= 1,
        ;
        assert(single * m.num_routed_experts <= single * m.num_routed_experts * p.num_hidden_layers)
            by (nonlinear_arith)
            requires
                single * m.num_routed_experts >= 0,
                p.num_hidden_layers >= 1,
        ;
        assert(p.hidden_size * m.moe_intermediate_size <= single);
    }
    let hi = prod(p.hidden_size, m.moe_intermediate_size);
    let single_x = prod(3, hi);
    let se = prod(single_x, m.num_routed_experts);
    let routed = prod(se, p.num_hidden_layers);
    if routed == 0 || routed >= total {
        return scaled_down(stage, 4, 5);
    }
    scaled_down(stage, routed as u128, total as u128)
}

fn routed_shards_exec(p: &ArchitectureProfile, tp: u64) -> (r: u64)
    requires
        tp >= 1,
    ensures
        r == routed_shards(*p, tp as int),
        1 <= r <= tp,
{
    match &p.moe {
        Some(m) => {
            let e = if m.num_routed_experts < 1 {
                1
            } else {
                m.num_routed_experts
            };
            if e < tp {
                e
            } else {
                tp
            }
        },
        None => tp,
    }
}

/// Per-GPU weights: (main resident, expert offload, manual offload,
/// speculative, total resident) and the main share before any offload.
pub struct ResidentWeight {
    pub base_main: u64,
    pub main: u64,
    pub expert_offload: u64,
    pub cpu_offload: u64,
    pub speculative: u64,
    pub total: u64,
}

pub open spec fn resident_weight_ok(
    r: ResidentWeight,
    p: ArchitectureProfile,
    weight_bytes: u64,
    n: int,
    o: FleetMemoryOptions,
) -> bool {
    &&& r.base_main == base_main_weight(p, weight_bytes, n)
    &&& r.expert_offload == expert_offload(p, weight_bytes, n, o)
    &&& r.cpu_offload == expert_offload(p, weight_bytes, n, o) + manual_offload(p, weight_bytes, n, o)
    &&& r.main == main_weight(p, weight_bytes, n, o)
    &&& r.speculative == speculative_weight(n, o)
    &&& r.total == resident_weight(p, weight_bytes, n, o)
}

pub fn resident_weight_per_gpu(
    profile: &ArchitectureProfile,
    weight_bytes: u64,
    gpu_count: u64,
    options: &FleetMemoryOptions,
) -> (r: ResidentWeight)
    requires
        params_fit(*profile),
    ensures
        resident_weight_ok(r, *profile, weight_bytes, gpu_count as int, *options),
{
    let (tp, pp, _) = layout_for_count(profile, gpu_count);
    let stage = ceil_div_u64(weight_bytes, pp);
    proof {
        lemma_ceil_div_le(weight_bytes as int, pp as int);
    }
    let mut base_main: u64 = 0;
    let mut expert: u64 = 0;
    if weight_bytes > 0 {
        match &profile.moe {
            None => {
                base_main = ceil_div_u64(stage, tp);
            },
            Some(m) => {
                let routed = routed_part_exec(profile, stage);
                let rs = routed_shards_exec(profile, tp);
                let routed_per_gpu = ceil_div_u64(routed, rs);
                let static_per_gpu = ceil_div_u64(stage - routed, tp);
                proof {
                    lemma_ceil_div_le(routed as int, rs as int);
                    lemma_ceil_div_le((stage - routed) as int, tp as int);
                }
                base_main = routed_per_gpu + static_per_gpu;
                let keep_opt: Option<u64> = options.experts_on_gpu;
                if options.expert_offloading && m.num_routed_experts > 0 {
                    match keep_opt {
                        Some(k) => {
                            let e = m.num_routed_experts;
                            let keep = if k < e {
                                k
                            } else {
                                e
                            };
                            expert = scaled_down(routed_per_gpu, (e - keep) as u128, e as u128);
                        },
                        None => {},
                    }
                }
            },
        }
    }
    let rest = base_main - expert;
    let manual = if options.cpu_offload_bytes_per_gpu < rest {
        options.cpu_offload_bytes_per_gpu
    } else {
        rest
    };
    let main = rest - manual;
    let n1 = if gpu_count < 1 {
        1
    } else {
        gpu_count
    };
    let speculative = ceil_div_u64(options.speculative_weight_bytes, n1);
    let wide = main as u128 + speculative as u128;
    let total: u64 = if wide > u64::MAX as u128 {
        u64::MAX
    } else {
        wide as u64
    };
    ResidentWeight {
        base_main,
        main,
        expert_offload: expert,
        cpu_offload: expert + manual,
        speculative,
        total,
    }
}

// ---------------------------------------------------------------------------
// Peak memory and concurrency
// ---------------------------------------------------------------------------

pub open spec fn max1(x: int) -> int {
    if x < 1 {
        1
    } else {
        x
    }
}

/// Requests being prefilled while `c` are resident: one in eight, at least one.
pub open spec fn active_prefill_requests(c: int) -> int {
    max1(c / PREFILL_ACTIVE_REQUEST_DIVISOR as int)
}

/// Activation bytes per GPU at the prefill peak: the per-batch activation
/// scaled from the default batch to the chunked-prefill tokens, split over
/// the TP group.
pub open spec fn prefill_activation(activation_bytes: int, act_shards: int, c: int) -> int {
    ceil_div(
        activation_bytes * (active_prefill_requests(c) * PREFILL_CHUNK_TOKENS_PER_ACTIVE_REQUEST)
            / DEFAULT_BATCHED_TOKENS as int,
        max1(act_shards),
    )
}

pub open spec fn decode_required(weight: int, act_per_gpu: int, kv_per_gpu: int, c: int) -> int {
    weight + act_per_gpu + c * kv_per_gpu
}

pub open spec fn prefill_required(
    weight: int,
    activation_bytes: int,
    act_shards: int,
    kv_per_gpu: int,
    c: int,
) -> int {
    weight + prefill_activation(activation_bytes, act_shards, c) + c * kv_per_gpu
}

/// Peak per-GPU bytes with `c` requests resident: the larger of the decode
/// and the prefill phase.
pub open spec fn required_bytes(
    weight: int,
    act_per_gpu: int,
    activation_bytes: int,
    act_shards: int,
    kv_per_gpu: int,
    c: int,
) -> int {
    let d = decode_required(weight, act_per_gpu, kv_per_gpu, c);
    let p = prefill_required(weight, activation_bytes, act_shards, kv_per_gpu, c);
    if d > p {
        d
    } else {
        p
    }
}

pub open spec fn cap128(x: int) -> int {
    if x > u128::MAX {
        u128::MAX as int
    } else {
        x
    }
}

pub open spec fn cap64(x: int) -> int {
    if x > u64::MAX {
        u64::MAX as int
    } else {
        x
    }
}

pub struct PeakMemory {
    pub decode_required: u128,
    pub prefill_activation: u128,
    pub prefill_required: u128,
    pub required: u128,
}

proof fn lemma_prefill_scaling(x: int)
    requires
        x >= 0,
    ensures
        (x * 1500) / 2048 == (x / 512) * 375 + ((x % 512) * 375) / 512,
{
    vstd::arithmetic::div_mod::lemma_fundamental_div_mod(x, 512);
    let q = x / 512;
    let r = x % 512;
    let t = (r * 375) / 512;
    vstd::arithmetic::div_mod::lemma_fundamental_div_mod(r * 375, 512);
    let u = (r * 375) % 512;
    assert(x * 1500 == (q * 375 + t) * 2048 + u * 4) by (nonlinear_arith)
        requires
            x == 512 * q + r,
            r * 375 == 512 * t + u,
    ;
    assert(0 <= u * 4 < 2048);
    vstd::arithmetic::div_mod::lemma_fundamental_div_mod_converse(x * 1500, 2048, q * 375 + t, u * 4);
}

fn ceil_div_u128(value: u128, divisor: u128) -> (r: u128)
    ensures
        r == ceil_div(value as int, divisor as int),
{
    if divisor == 0 {
        value
    } else {
        let q = value / divisor;
        proof {
            let v = value as int;
            let d = divisor as int;
            vstd::arithmetic::div_mod::lemma_fundamental_div_mod(v, d);
            vstd::arithmetic::div_mod::lemma_fundamental_div_mod(v + d - 1, d);
            if v % d == 0 {
                assert((v + d - 1) / d == v / d) by (nonlinear_arith)
                    requires
                        d > 0,
                        v % d == 0,
                        v == d * (v / d) + v % d,
                        v + d - 1 == d * ((v + d - 1) / d) + (v + d - 1) % d,
                        0 <= (v + d - 1) % d < d,
                ;
            } else {
                assert((v + d - 1) / d == v / d + 1) by (nonlinear_arith)
                    requires
                        d > 0,
                        v % d != 0,
                        v == d * (v / d) + v % d,
                        v + d - 1 == d * ((v + d - 1) / d) + (v + d - 1) % d,
                        0 <= v % d < d,
                        0 <= (v + d - 1) % d < d,
                ;
                assert(q < u128::MAX) by (nonlinear_arith)
                    requires
                        q == v / d,
                        d >= 1,
                        v <= u128::MAX,
                        v % d != 0,
                        v == d * (v / d) + v % d,
                ;
            }
        }
        if value % divisor == 0 {
            q
        } else {
            q + 1
        }
    }
}

fn prefill_activation_exec(activation_bytes: u64, act_shards: u64, c: u64) -> (r: u128)
    ensures
        r == prefill_activation(activation_bytes as int, act_shards as int, c as int),
{
    let active: u64 = if c / PREFILL_ACTIVE_REQUEST_DIVISOR < 1 {
        1
    } else {
        c / PREFILL_ACTIVE_REQUEST_DIVISOR
    };
    assert((activation_bytes as u128) * (active as u128) <= u128::MAX / 2) by (nonlinear_arith)
        requires
            activation_bytes <= u64::MAX,
            active <= u64::MAX / 8,
    ;
    let x = (activation_bytes as u128) * (active as u128);
    proof {
        lemma_prefill_scaling(x as int);
        assert(activation_bytes * (active * 1500) == x * 1500) by (nonlinear_arith)
            requires
                x == activation_bytes * active,
        ;
    }
    let scaled = (x / 512) * 375 + ((x % 512) * 375) / 512;
    let shards: u128 = if act_shards < 1 {
        1
    } else {
        act_shards as u128
    };
    ceil_div_u128(scaled, shards)
}

pub fn peak_memory_per_gpu(
    weight_per_gpu: u64,
    activation_per_gpu: u64,
    activation_bytes: u64,
    act_shards: u64,
    kv_per_gpu: u64,
    concurrent: u64,
) -> (r: PeakMemory)
    ensures
        r.decode_required == decode_required(
            weight_per_gpu as int,
            activation_per_gpu as int,
            kv_per_gpu as int,
            concurrent as int,
        ),
        r.prefill_activation == prefill_activation(
            activation_bytes as int,
            act_shards as int,
            concurrent as int,
        ),
        r.prefill_required == cap128(
            prefill_required(
                weight_per_gpu as int,
                activation_bytes as int,
                act_shards as int,
                kv_per_gpu as int,
                concurrent as int,
            ),
        ),
        r.required == cap128(
            required_bytes(
                weight_per_gpu as int,
                activation_per_gpu as int,
                activation_bytes as int,
                act_shards as int,
                kv_per_gpu as int,
                concurrent as int,
            ),
        ),
{
    assert((concurrent as u128) * (kv_per_gpu as u128) <= 0xffff_ffff_ffff_ffff * 0xffff_ffff_ffff_ffff)
        by (nonlinear_arith)
        requires
            concurrent <= 0xffff_ffff_ffff_ffff,
            kv_per_gpu <= 0xffff_ffff_ffff_ffff,
    ;
    let concurrent_kv = (concurrent as u128) * (kv_per_gpu as u128);
    let decode = weight_per_gpu as u128 + activation_per_gpu as u128 + concurrent_kv;
    let prefill_act = prefill_activation_exec(activation_bytes, act_shards, concurrent);
    let prefill = (weight_per_gpu as u128).saturating_add(prefill_act).saturating_add(concurrent_kv);
    let required = if decode > prefill {
        decode
    } else {
        prefill
    };
    PeakMemory {
        decode_required: decode,
        prefill_activation: prefill_act,
        prefill_required: prefill,
        required,
    }
}

/// The peak never shrinks when more requests are resident.
pub proof fn lemma_required_monotone(
    weight: int,
    act_per_gpu: int,
    activation_bytes: int,
    act_shards: int,
    kv_per_gpu: int,
    c1: int,
    c2: int,
)
    requires
        weight >= 0,
        act_per_gpu >= 0,
        activation_bytes >= 0,
        kv_per_gpu >= 0,
        0 <= c1 <= c2,
    ensures
        required_bytes(weight, act_per_gpu, activation_bytes, act_shards, kv_per_gpu, c1)
            <= required_bytes(weight, act_per_gpu, activation_bytes, act_shards, kv_per_gpu, c2),
{
    assert(c1 * kv_per_gpu <= c2 * kv_per_gpu) by (nonlinear_arith)
        requires
            0 <= c1 <= c2,
            kv_per_gpu >= 0,
    ;
    vstd::arithmetic::div_mod::lemma_div_is_ordered(c1, c2, 8);
    let a1 = active_prefill_requests(c1);
    let a2 = active_prefill_requests(c2);
    assert(a1 <= a2);
    let t1 = activation_bytes * (a1 * 1500);
    let t2 = activation_bytes * (a2 * 1500);
    assert(0 <= t1 <= t2) by (nonlinear_arith)
        requires
            1 <= a1 <= a2,
            activation_bytes >= 0,
            t1 == activation_bytes * (a1 * 1500),
            t2 == activation_bytes * (a2 * 1500),
    ;
    vstd::arithmetic::div_mod::lemma_div_is_ordered(t1, t2, 2048);
    let s = max1(act_shards);
    let u1 = t1 / 2048;
    let u2 = t2 / 2048;
    assert(u1 >= 0) by (nonlinear_arith)
        requires
            t1 >= 0,
            u1 == t1 / 2048,
    ;
    vstd::arithmetic::div_mod::lemma_div_is_ordered(u1 + s - 1, u2 + s - 1, s);
}

/// Whether `c` requests fit in `usable` bytes.
pub open spec fn fits_at(
    weight: int,
    act_per_gpu: int,
    activation_bytes: int,
    act_shards: int,
    kv_per_gpu: int,
    usable: int,
    c: int,
) -> bool {
    required_bytes(weight, act_per_gpu, activation_bytes, act_shards, kv_per_gpu, c) <= usable
}

/// The largest number of resident requests whose peak fits in `usable`
/// bytes (0 when none does, or when a request holds no KV cache).
pub fn max_concurrent_for_kv(
    weight_per_gpu: u64,
    activation_bytes: u64,
    activation_per_gpu: u64,
    act_shards: u64,
    kv_per_gpu: u64,
    usable_per_gpu: u64,
) -> (r: u64)
    ensures
        kv_per_gpu == 0 ==> r == 0,
        kv_per_gpu > 0 ==> (r == 0 || fits_at(
            weight_per_gpu as int,
            activation_per_gpu as int,
            activation_bytes as int,
            act_shards as int,
            kv_per_gpu as int,
            usable_per_gpu as int,
            r as int,
        )),
        kv_per_gpu > 0 ==> forall|c: int|
            c > r ==> !#[trigger] fits_at(
                weight_per_gpu as int,
                activation_per_gpu as int,
                activation_bytes as int,
                act_shards as int,
                kv_per_gpu as int,
                usable_per_gpu as int,
                c,
            ),
{
    if kv_per_gpu == 0 {
        return 0;
    }
    let ghost w = weight_per_gpu as int;
    let ghost ap = activation_per_gpu as int;
    let ghost ab = activation_bytes as int;
    let ghost sh = act_shards as int;
    let ghost kv = kv_per_gpu as int;
    let ghost us = usable_per_gpu as int;
    let h1 = if usable_per_gpu > weight_per_gpu {
        usable_per_gpu - weight_per_gpu
    } else {
        0
    };
    let headroom = if h1 > activation_per_gpu {
        h1 - activation_per_gpu
    } else {
        0
    };
    let bound = headroom / kv_per_gpu;
    proof {
        assert forall|c: int| c > bound implies !#[trigger] fits_at(w, ap, ab, sh, kv, us, c) by {
            assert(c * kv > headroom) by (nonlinear_arith)
                requires
                    c > bound,
                    bound == (headroom as int) / kv,
                    kv >= 1,
                    headroom >= 0,
            {
                vstd::arithmetic::div_mod::lemma_fundamental_div_mod(headroom as int, kv);
                assert(c >= bound + 1);
                assert(c * kv >= (bound + 1) * kv);
            }
            assert(decode_required(w, ap, kv, c) > us);
        }
    }
    let mut low: u64 = 0;
    let mut high: u64 = bound;
    while low < high
        invariant
            low <= high <= bound,
            bound == headroom / kv_per_gpu,
            kv_per_gpu >= 1,
            w == weight_per_gpu,
            ap == activation_per_gpu,
            ab == activation_bytes,
            sh == act_shards,
            kv == kv_per_gpu,
            us == usable_per_gpu,
            low == 0 || fits_at(w, ap, ab, sh, kv, us, low as int),
            forall|c: int| c > high ==> !#[trigger] fits_at(w, ap, ab, sh, kv, us, c),
        decreases high - low,
    {
        let gap = high - low;
        let mid = low + gap / 2 + gap % 2;
        let peak = peak_memory_per_gpu(
            weight_per_gpu,
            activation_per_gpu,
            activation_bytes,
            act_shards,
            kv_per_gpu,
            mid,
        );
        if peak.required <= usable_per_gpu as u128 {
            low = mid;
        } else {
            proof {
                assert forall|c: int| c > mid - 1 implies !#[trigger] fits_at(w, ap, ab, sh, kv, us, c) by {
                    if c >= mid {
                        lemma_required_monotone(w, ap, ab, sh, kv, mid as int, c);
                    }
                }
            }
            high = mid - 1;
        }
    }
    low
}

pub open spec fn is_max_fitting(
    r: int,
    weight: int,
    act_per_gpu: int,
    activation_bytes: int,
    act_shards: int,
    kv_per_gpu: int,
    usable: int,
) -> bool {
    &&& r >= 0
    &&& (r == 0 || fits_at(weight, act_per_gpu, activation_bytes, act_shards, kv_per_gpu, usable, r))
    &&& forall|c: int|
        c > r ==> !#[trigger] fits_at(
            weight,
            act_per_gpu,
            activation_bytes,
            act_shards,
            kv_per_gpu,
            usable,
            c,
        )
}

/// The largest concurrency that fits (0 when none does or a request holds
/// no KV cache).
pub open spec fn max_fitting(
    weight: int,
    act_per_gpu: int,
    activation_bytes: int,
    act_shards: int,
    kv_per_gpu: int,
    usable: int,
) -> int {
    if kv_per_gpu == 0 {
        0
    } else {
        choose|r: int|
            is_max_fitting(r, weight, act_per_gpu, activation_bytes, act_shards, kv_per_gpu, usable)
    }
}

proof fn lemma_max_fitting_unique(
    r: int,
    weight: int,
    act_per_gpu: int,
    activation_bytes: int,
    act_shards: int,
    kv_per_gpu: int,
    usable: int,
)
    requires
        kv_per_gpu > 0,
        is_max_fitting(r, weight, act_per_gpu, activation_bytes, act_shards, kv_per_gpu, usable),
    ensures
        max_fitting(weight, act_per_gpu, activation_bytes, act_shards, kv_per_gpu, usable) == r,
{
    let q = max_fitting(weight, act_per_gpu, activation_bytes, act_shards, kv_per_gpu, usable);
    assert(is_max_fitting(q, weight, act_per_gpu, activation_bytes, act_shards, kv_per_gpu, usable));
    if q < r {
        assert(fits_at(weight, act_per_gpu, activation_bytes, act_shards, kv_per_gpu, usable, r));
    } else if r < q {
        assert(fits_at(weight, act_per_gpu, activation_bytes, act_shards, kv_per_gpu, usable, q));
    }
}

/// `max_concurrent_for_kv`, stated as the largest fitting concurrency.
fn max_concurrent_exec(
    weight_per_gpu: u64,
    activation_bytes: u64,
    activation_per_gpu: u64,
    act_shards: u64,
    kv_per_gpu: u64,
    usable_per_gpu: u64,
) -> (r: u64)
    ensures
        r == max_fitting(
            weight_per_gpu as int,
            activation_per_gpu as int,
            activation_bytes as int,
            act_shards as int,
            kv_per_gpu as int,
            usable_per_gpu as int,
        ),
{
    let r = max_concurrent_for_kv(
        weight_per_gpu,
        activation_bytes,
        activation_per_gpu,
        act_shards,
        kv_per_gpu,
        usable_per_gpu,
    );
    proof {
        if kv_per_gpu > 0 {
            lemma_max_fitting_unique(
                r as int,
                weight_per_gpu as int,
                activation_per_gpu as int,
                activation_bytes as int,
                act_shards as int,
                kv_per_gpu as int,
                usable_per_gpu as int,
            );
        }
    }
    r
}

// ---------------------------------------------------------------------------
// Sorting by context length
// ---------------------------------------------------------------------------

pub open spec fn sorted_by_first(s: Seq<(u64, u64)>) -> bool {
    forall|i: int, j: int| 0 <= i < j < s.len() ==> s[i].0 <= s[j].0
}

/// Stable insertion sort by the first component.
pub fn sort_by_first(v: Vec<(u64, u64)>) -> (r: Vec<(u64, u64)>)
    ensures
        sorted_by_first(r@),
        r@.to_multiset() == v@.to_multiset(),
        r@.len() == v@.len(),
{
    broadcast use vstd::seq_lib::group_to_multiset_ensures;

    let mut out: Vec<(u64, u64)> = Vec::new();
    let mut i: usize = 0;
    while i < v.len()
        invariant
            i <= v.len(),
            sorted_by_first(out@),
            out@.to_multiset() == v@.subrange(0, i as int).to_multiset(),
            out@.len() == i,
        decreases v.len() - i,
    {
        let x = v[i];
        let mut j: usize = 0;
        while j < out.len() && out[j].0 <= x.0
            invariant
                j <= out.len(),
                forall|k: int| 0 <= k < j ==> out@[k].0 <= x.0,
            decreases out.len() - j,
        {
            j = j + 1;
        }
        let ghost before = out@;
        out.insert(j, x);
        proof {
            assert(out@ == before.insert(j as int, x));
            vstd::seq_lib::to_multiset_insert(before, j as int, x);
            assert(v@.subrange(0, i + 1) =~= v@.subrange(0, i as int).push(x));
            vstd::seq_lib::to_multiset_build(v@.subrange(0, i as int), x);
            assert forall|a: int, b: int| 0 <= a < b < out@.len() implies out@[a].0 <= out@[b].0 by {
                if b < j {
                    assert(out@[a] == before[a] && out@[b] == before[b]);
                } else if b == j {
                    assert(out@[a] == before[a]);
                } else if a < j {
                    assert(out@[a] == before[a] && out@[b] == before[b - 1]);
                    if j < before.len() {
                        assert(before[j as int].0 > x.0);
                        assert(before[a].0 <= x.0);
                    }
                } else if a == j {
                    assert(out@[b] == before[b - 1]);
                    assert(before[j as int].0 > x.0);
                } else {
                    assert(out@[a] == before[a - 1] && out@[b] == before[b - 1]);
                }
            }
        }
        i = i + 1;
    }
    assert(v@.subrange(0, v.len() as int) =~= v@);
    out
}

// ---------------------------------------------------------------------------
// One option: a GPU count at a tier
// ---------------------------------------------------------------------------

/// A sizing tier: minimum launch, development (8 concurrent), production
/// (16 concurrent), or the user's own target.
#[derive(Clone, Copy, Debug, PartialEq, Eq, Structural)]
pub enum Tier {
    Min,
    Dev,
    Prod,
    Target,
}

pub open spec fn tier_name(t: Tier) -> Seq<char> {
    match t {
        Tier::Min => "min"@,
        Tier::Dev => "dev"@,
        Tier::Prod => "prod"@,
        Tier::Target => "target"@,
    }
}

pub open spec fn tier_concurrency(t: Tier, o: FleetMemoryOptions) -> int {
    match t {
        Tier::Min => 1,
        Tier::Dev => 8,
        Tier::Prod => 16,
        Tier::Target => match o.target_concurrent_requests {
            Some(c) => c as int,
            None => 1,
        },
    }
}

impl Tier {
    pub fn name(self) -> (res: &'static str)
        ensures
            res@ == tier_name(self),
    {
        match self {
            Tier::Min => "min",
            Tier::Dev => "dev",
            Tier::Prod => "prod",
            Tier::Target => "target",
        }
    }

    pub fn concurrency(self, o: &FleetMemoryOptions) -> (res: u64)
        ensures
            res == tier_concurrency(self, *o),
    {
        match self {
            Tier::Min => 1,
            Tier::Dev => 8,
            Tier::Prod => 16,
            Tier::Target => match o.target_concurrent_requests {
                Some(c) => c,
                None => 1,
            },
        }
    }
}

/// The sizes a plan is evaluated with.
pub struct PlanInputs {
    pub weight_bytes: u64,
    pub kv_bytes: u64,
    pub activation_bytes: u64,
    pub reference_context_tokens: u64,
    pub total_memory_per_gpu: u64,
    pub usable_per_gpu: u64,
    pub options: FleetMemoryOptions,
}

pub open spec fn act_shards_of(p: ArchitectureProfile, n: int) -> int {
    layout(p, n).0
}

pub open spec fn kv_shards_of(p: ArchitectureProfile, n: int) -> int {
    cap64(effective_kv_shards_spec(p, n))
}

pub open spec fn kv_per_gpu(p: ArchitectureProfile, kv_bytes: int, n: int) -> int {
    ceil_div(kv_bytes, kv_shards_of(p, n))
}

pub open spec fn act_per_gpu(p: ArchitectureProfile, c: PlanInputs, n: int) -> int {
    ceil_div(c.activation_bytes as int, act_shards_of(p, n))
}

pub open spec fn weight_per_gpu(p: ArchitectureProfile, c: PlanInputs, n: int) -> int {
    resident_weight(p, c.weight_bytes, n, c.options)
}

/// Whether `n` GPUs hold `conc` concurrent requests.
pub open spec fn count_fits(p: ArchitectureProfile, c: PlanInputs, n: int, conc: int) -> bool {
    fits_at(
        weight_per_gpu(p, c, n),
        act_per_gpu(p, c, n),
        c.activation_bytes as int,
        act_shards_of(p, n),
        kv_per_gpu(p, c.kv_bytes as int, n),
        c.usable_per_gpu as int,
        conc,
    )
}

/// The most concurrent requests of `kv_bytes` each that `n` GPUs hold.
pub open spec fn count_max_concurrent(p: ArchitectureProfile, c: PlanInputs, n: int, kv_bytes: int) -> int {
    max_fitting(
        weight_per_gpu(p, c, n),
        act_per_gpu(p, c, n),
        c.activation_bytes as int,
        act_shards_of(p, n),
        kv_per_gpu(p, kv_bytes, n),
        c.usable_per_gpu as int,
    )
}

pub open spec fn concurrency_by_context(
    p: ArchitectureProfile,
    c: PlanInputs,
    n: int,
    kv_by_context: Seq<(u64, u64)>,
) -> Seq<(u64, u64)> {
    kv_by_context.map_values(
        |e: (u64, u64)| (e.0, count_max_concurrent(p, c, n, e.1 as int) as u64),
    )
}

/// A context length as `1M`, `1.5M`, `128K` or plain tokens.
pub open spec fn context_text(tokens: u64) -> Seq<char> {
    if tokens >= 1_000_000 {
        if tokens % 1_000_000 == 0 {
            crate::text::dec((tokens / 1_000_000) as nat) + "M"@
        } else {
            crate::text::fixed(tokens as nat, 1_000_000, 1) + "M"@
        }
    } else if tokens >= 1024 {
        crate::text::dec((tokens / 1024) as nat) + "K"@
    } else {
        crate::text::dec(tokens as nat)
    }
}

pub fn fmt_context(tokens: u64) -> (s: String)
    ensures
        s@ == context_text(tokens),
{
    if tokens >= 1_000_000 {
        let mut s = if tokens % 1_000_000 == 0 {
            crate::text::u64_to_string(tokens / 1_000_000)
        } else {
            crate::text::fmt_fixed(tokens, 1_000_000, 1)
        };
        s.append("M");
        s
    } else if tokens >= 1024 {
        let mut s = crate::text::u64_to_string(tokens / 1024);
        s.append("K");
        s
    } else {
        crate::text::u64_to_string(tokens)
    }
}

pub open spec fn layout_text_en(tp: int, pp: int, nodes: int) -> Seq<char> {
    if pp > 1 {
        "TP"@ + dec(tp as nat) + "xPP"@ + dec(pp as nat) + ", "@ + dec(nodes as nat) + " nodes"@
    } else {
        "TP"@ + dec(tp as nat)
    }
}

pub open spec fn layout_text_zh(tp: int, pp: int, nodes: int) -> Seq<char> {
    if pp > 1 {
        "TP"@ + dec(tp as nat) + "×PP"@ + dec(pp as nat) + "，"@ + dec(nodes as nat) + " 节点"@
    } else {
        "TP"@ + dec(tp as nat)
    }
}

pub open spec fn reason_en(
    p: ArchitectureProfile,
    c: PlanInputs,
    valid_tp: Seq<u64>,
    n: int,
    conc: int,
    fits: bool,
    max_conc: int,
) -> Seq<char> {
    let (tp, pp, nodes) = layout(p, n);
    if !is_candidate(p, n) {
        "GPU count "@ + dec(n as nat)
            + " does not divide num_heads or match a valid multi-node PP layout - valid single-node TP sizes: "@
            + debug_list(valid_tp)
    } else if !fits {
        "Weights + prefill peak activation + "@ + dec(conc as nat) + "x KV would exceed "@ + fixed(
            c.usable_per_gpu as nat,
            1_000_000_000,
            1,
        ) + " GB usable per GPU"@
    } else {
        "fits ~"@ + dec(max_conc as nat) + " concurrent @ "@ + context_text(
            c.reference_context_tokens,
        ) + " ctx ("@ + layout_text_en(tp, pp, nodes) + ")"@
    }
}

pub open spec fn reason_zh(
    p: ArchitectureProfile,
    c: PlanInputs,
    valid_tp: Seq<u64>,
    n: int,
    conc: int,
    fits: bool,
    max_conc: int,
) -> Seq<char> {
    let (tp, pp, nodes) = layout(p, n);
    if !is_candidate(p, n) {
        "GPU 张数 "@ + dec(n as nat) + " 无法整除注意力头数，也不匹配有效多节点 PP 布局——有效单节点 TP 张数："@
            + debug_list(valid_tp)
    } else if !fits {
        "权重 + Prefill 峰值 Activation + "@ + dec(conc as nat) + " 份 KV 超过单卡可用的 "@ + fixed(
            c.usable_per_gpu as nat,
            1_000_000_000,
            1,
        ) + " GB"@
    } else {
        "可容纳约 "@ + dec(max_conc as nat) + " 并发请求 @ "@ + context_text(c.reference_context_tokens)
            + " 上下文（"@ + layout_text_zh(tp, pp, nodes) + "）"@
    }
}

/// One way to serve the model: a GPU count, its layout and what each GPU
/// holds at the tier's concurrency.
pub struct FleetOption {
    pub tier: &'static str,
    pub gpu_count: u64,
    pub tensor_parallel_size: u64,
    pub pipeline_parallel_size: u64,
    pub node_count: u64,
    pub main_weight_bytes_before_offload_per_gpu: u64,
    pub main_weight_bytes_per_gpu: u64,
    pub expert_offload_bytes_per_gpu: u64,
    pub speculative_weight_bytes_per_gpu: u64,
    pub cpu_offload_bytes_per_gpu: u64,
    pub weight_bytes_per_gpu: u64,
    pub kv_bytes_per_request: u64,
    pub kv_bytes_per_request_per_gpu: u64,
    pub activation_bytes_per_request: u64,
    pub activation_bytes_per_request_per_gpu: u64,
    pub kv_reference_context_tokens: u64,
    pub tier_concurrent_requests: u64,
    pub decode_required_bytes_per_gpu_at_tier: u64,
    pub prefill_activation_bytes_per_gpu_at_tier: u64,
    pub prefill_required_bytes_per_gpu_at_tier: u64,
    pub required_bytes_per_gpu_at_tier: u64,
    pub max_concurrent_at_reference_ctx: u64,
    pub max_concurrent_by_context: Vec<(u64, u64)>,
    pub usable_bytes_per_gpu: u64,
    pub reserved_bytes_per_gpu: u64,
    pub fits: bool,
    pub reason_en: String,
    pub reason_zh: String,
}

/// What `o` states for `n` GPUs at tier `t`.
pub open spec fn option_ok(
    o: FleetOption,
    p: ArchitectureProfile,
    c: PlanInputs,
    valid_tp: Seq<u64>,
    kv_by_context: Seq<(u64, u64)>,
    n: int,
    t: Tier,
) -> bool {
    let (tp, pp, nodes) = layout(p, n);
    let conc = tier_concurrency(t, c.options);
    let w = weight_per_gpu(p, c, n);
    let ap = act_per_gpu(p, c, n);
    let kv = kv_per_gpu(p, c.kv_bytes as int, n);
    let sh = act_shards_of(p, n);
    let a = c.activation_bytes as int;
    let max_conc = count_max_concurrent(p, c, n, c.kv_bytes as int);
    &&& o.tier@ == tier_name(t)
    &&& o.gpu_count == n
    &&& o.tensor_parallel_size == tp
    &&& o.pipeline_parallel_size == pp
    &&& o.node_count == nodes
    &&& o.main_weight_bytes_before_offload_per_gpu == base_main_weight(p, c.weight_bytes, n)
    &&& o.main_weight_bytes_per_gpu == main_weight(p, c.weight_bytes, n, c.options)
    &&& o.expert_offload_bytes_per_gpu == expert_offload(p, c.weight_bytes, n, c.options)
    &&& o.speculative_weight_bytes_per_gpu == speculative_weight(n, c.options)
    &&& o.cpu_offload_bytes_per_gpu == expert_offload(p, c.weight_bytes, n, c.options)
        + manual_offload(p, c.weight_bytes, n, c.options)
    &&& o.weight_bytes_per_gpu == w
    &&& o.kv_bytes_per_request == c.kv_bytes
    &&& o.kv_bytes_per_request_per_gpu == kv
    &&& o.activation_bytes_per_request == c.activation_bytes
    &&& o.activation_bytes_per_request_per_gpu == ap
    &&& o.kv_reference_context_tokens == c.reference_context_tokens
    &&& o.tier_concurrent_requests == conc
    &&& o.decode_required_bytes_per_gpu_at_tier == cap64(decode_required(w, ap, kv, conc))
    &&& o.prefill_activation_bytes_per_gpu_at_tier == cap64(prefill_activation(a, sh, conc))
    &&& o.prefill_required_bytes_per_gpu_at_tier == cap64(prefill_required(w, a, sh, kv, conc))
    &&& o.required_bytes_per_gpu_at_tier == cap64(required_bytes(w, ap, a, sh, kv, conc))
    &&& o.max_concurrent_at_reference_ctx == max_conc
    &&& sorted_by_first(o.max_concurrent_by_context@)
    &&& o.max_concurrent_by_context@.to_multiset() == concurrency_by_context(
        p,
        c,
        n,
        kv_by_context,
    ).to_multiset()
    &&& o.usable_bytes_per_gpu == c.usable_per_gpu
    &&& o.reserved_bytes_per_gpu == (if c.total_memory_per_gpu > c.usable_per_gpu {
        c.total_memory_per_gpu - c.usable_per_gpu
    } else {
        0
    })
    &&& o.fits == count_fits(p, c, n, conc)
    &&& o.reason_en@ == reason_en(p, c, valid_tp, n, conc, o.fits, max_conc)
    &&& o.reason_zh@ == reason_zh(p, c, valid_tp, n, conc, o.fits, max_conc)
}

fn sat64(x: u128) -> (r: u64)
    ensures
        r == cap64(x as int),
{
    if x > u64::MAX as u128 {
        u64::MAX
    } else {
        x as u64
    }
}

/// Sizes `gpu_count` GPUs at tier `t`.
pub fn evaluate_count(
    profile: &ArchitectureProfile,
    inputs: &PlanInputs,
    valid_tp: &Vec<u64>,
    kv_by_context: &[(u64, u64)],
    gpu_count: u64,
    t: Tier,
) -> (o: FleetOption)
    requires
        params_fit(*profile),
    ensures
        option_ok(o, *profile, *inputs, valid_tp@, kv_by_context@, gpu_count as int, t),
{
    let (tp, pp, nodes) = layout_for_count(profile, gpu_count);
    let weight = resident_weight_per_gpu(profile, inputs.weight_bytes, gpu_count, &inputs.options);
    let shards = effective_kv_shards(profile, gpu_count);
    let kv_pg = ceil_div_u64(inputs.kv_bytes, shards);
    let act_pg = ceil_div_u64(inputs.activation_bytes, tp);
    let max_conc = max_concurrent_exec(
        weight.total,
        inputs.activation_bytes,
        act_pg,
        tp,
        kv_pg,
        inputs.usable_per_gpu,
    );
    let ghost f = |e: (u64, u64)| (e.0, count_max_concurrent(*profile, *inputs, gpu_count as int, e.1 as int) as u64);
    let mut by_ctx: Vec<(u64, u64)> = Vec::new();
    let mut i: usize = 0;
    while i < kv_by_context.len()
        invariant
            i <= kv_by_context@.len(),
            by_ctx@ == kv_by_context@.subrange(0, i as int).map_values(f),
            f == (|e: (u64, u64)| (e.0, count_max_concurrent(*profile, *inputs, gpu_count as int, e.1 as int) as u64)),
            params_fit(*profile),
            tp == layout(*profile, gpu_count as int).0,
            shards == kv_shards_of(*profile, gpu_count as int),
            weight.total == weight_per_gpu(*profile, *inputs, gpu_count as int),
            act_pg == act_per_gpu(*profile, *inputs, gpu_count as int),
        decreases kv_by_context@.len() - i,
    {
        let (ctx, kv) = kv_by_context[i];
        let kv_i = ceil_div_u64(kv, shards);
        let m = max_concurrent_exec(
            weight.total,
            inputs.activation_bytes,
            act_pg,
            tp,
            kv_i,
            inputs.usable_per_gpu,
        );
        by_ctx.push((ctx, m));
        proof {
            assert(kv_by_context@.subrange(0, i + 1) =~= kv_by_context@.subrange(0, i as int).push(
                kv_by_context@[i as int],
            ));
            assert(by_ctx@ =~= kv_by_context@.subrange(0, i + 1).map_values(f));
        }
        i = i + 1;
    }
    assert(kv_by_context@.subrange(0, kv_by_context@.len() as int) =~= kv_by_context@);
    let sorted = sort_by_first(by_ctx);
    let conc = t.concurrency(&inputs.options);
    let peak = peak_memory_per_gpu(weight.total, act_pg, inputs.activation_bytes, tp, kv_pg, conc);
    let fits = peak.required <= inputs.usable_per_gpu as u128;
    let candidate = crate::layout::is_candidate_exec(profile, gpu_count);
    let mut en = String::new();
    let mut zh = String::new();
    if !candidate {
        en.append("GPU count ");
        en.append(u64_to_string(gpu_count).as_str());
        en.append(
            " does not divide num_heads or match a valid multi-node PP layout - valid single-node TP sizes: ",
        );
        en.append(fmt_list(valid_tp).as_str());
        zh.append("GPU 张数 ");
        zh.append(u64_to_string(gpu_count).as_str());
        zh.append(" 无法整除注意力头数，也不匹配有效多节点 PP 布局——有效单节点 TP 张数：");
        zh.append(fmt_list(valid_tp).as_str());
    } else if !fits {
        let gb = fmt_fixed(inputs.usable_per_gpu, 1_000_000_000, 1);
        en.append("Weights + prefill peak activation + ");
        en.append(u64_to_string(conc).as_str());
        en.append("x KV would exceed ");
        en.append(gb.as_str());
        en.append(" GB usable per GPU");
        zh.append("权重 + Prefill 峰值 Activation + ");
        zh.append(u64_to_string(conc).as_str());
        zh.append(" 份 KV 超过单卡可用的 ");
        zh.append(gb.as_str());
        zh.append(" GB");
    } else {
        let ctx_text = fmt_context(inputs.reference_context_tokens);
        en.append("fits ~");
        en.append(u64_to_string(max_conc).as_str());
        en.append(" concurrent @ ");
        en.append(ctx_text.as_str());
        en.append(" ctx (");
        zh.append("可容纳约 ");
        zh.append(u64_to_string(max_conc).as_str());
        zh.append(" 并发请求 @ ");
        zh.append(ctx_text.as_str());
        zh.append(" 上下文（");
        en.append("TP");
        en.append(u64_to_string(tp).as_str());
        zh.append("TP");
        zh.append(u64_to_string(tp).as_str());
        if pp > 1 {
            en.append("xPP");
            en.append(u64_to_string(pp).as_str());
            en.append(", ");
            en.append(u64_to_string(nodes).as_str());
            en.append(" nodes");
            zh.append("×PP");
            zh.append(u64_to_string(pp).as_str());
            zh.append("，");
            zh.append(u64_to_string(nodes).as_str());
            zh.append(" 节点");
        }
        en.append(")");
        zh.append("）");
    }
    proof {
        let ghost mc = count_max_concurrent(*profile, *inputs, gpu_count as int, inputs.kv_bytes as int);
        assert(en@ =~= reason_en(*profile, *inputs, valid_tp@, gpu_count as int, conc as int, fits, mc));
        assert(zh@ =~= reason_zh(*profile, *inputs, valid_tp@, gpu_count as int, conc as int, fits, mc));
    }
    let reserved = if inputs.total_memory_per_gpu > inputs.usable_per_gpu {
        inputs.total_memory_per_gpu - inputs.usable_per_gpu
    } else {
        0
    };
    FleetOption {
        tier: t.name(),
        gpu_count,
        tensor_parallel_size: tp,
        pipeline_parallel_size: pp,
        node_count: nodes,
        main_weight_bytes_before_offload_per_gpu: weight.base_main,
        main_weight_bytes_per_gpu: weight.main,
        expert_offload_bytes_per_gpu: weight.expert_offload,
        speculative_weight_bytes_per_gpu: weight.speculative,
        cpu_offload_bytes_per_gpu: weight.cpu_offload,
        weight_bytes_per_gpu: weight.total,
        kv_bytes_per_request: inputs.kv_bytes,
        kv_bytes_per_request_per_gpu: kv_pg,
        activation_bytes_per_request: inputs.activation_bytes,
        activation_bytes_per_request_per_gpu: act_pg,
        kv_reference_context_tokens: inputs.reference_context_tokens,
        tier_concurrent_requests: conc,
        decode_required_bytes_per_gpu_at_tier: sat64(peak.decode_required),
        prefill_activation_bytes_per_gpu_at_tier: sat64(peak.prefill_activation),
        prefill_required_bytes_per_gpu_at_tier: sat64(peak.prefill_required),
        required_bytes_per_gpu_at_tier: sat64(peak.required),
        max_concurrent_at_reference_ctx: max_conc,
        max_concurrent_by_context: sorted,
        usable_bytes_per_gpu: inputs.usable_per_gpu,
        reserved_bytes_per_gpu: reserved,
        fits,
        reason_en: en,
        reason_zh: zh,
    }
}

/// Whether `n` GPUs hold `conc` concurrent requests.
pub fn count_fits_exec(profile: &ArchitectureProfile, inputs: &PlanInputs, n: u64, conc: u64) -> (b: bool)
    requires
        params_fit(*profile),
    ensures
        b == count_fits(*profile, *inputs, n as int, conc as int),
{
    let (tp, _, _) = layout_for_count(profile, n);
    let weight = resident_weight_per_gpu(profile, inputs.weight_bytes, n, &inputs.options);
    let shards = effective_kv_shards(profile, n);
    let kv_pg = ceil_div_u64(inputs.kv_bytes, shards);
    let act_pg = ceil_div_u64(inputs.activation_bytes, tp);
    let peak = peak_memory_per_gpu(weight.total, act_pg, inputs.activation_bytes, tp, kv_pg, conc);
    peak.required <= inputs.usable_per_gpu as u128
}

/// The last (largest) candidate GPU count.
pub open spec fn last_candidate(p: ArchitectureProfile) -> int {
    counts_upto(p, 2, MAX_DISTRIBUTED_TP as int).last() as int
}

/// The smallest candidate count from `k` up that holds `conc` requests, else
/// the largest candidate.
pub open spec fn first_fitting_count(p: ArchitectureProfile, c: PlanInputs, conc: int, k: int) -> int
    decreases 65 - k,
{
    if k > MAX_DISTRIBUTED_TP || k < 1 {
        last_candidate(p)
    } else if is_candidate(p, k) && count_fits(p, c, k, conc) {
        k
    } else {
        first_fitting_count(p, c, conc, k + 1)
    }
}

fn smallest_fitting_count(
    profile: &ArchitectureProfile,
    inputs: &PlanInputs,
    candidates: &Vec<u64>,
    conc: u64,
) -> (n: u64)
    requires
        params_fit(*profile),
        candidates@ == counts_upto(*profile, 2, MAX_DISTRIBUTED_TP as int),
        candidates@.len() > 0,
    ensures
        n == first_fitting_count(*profile, *inputs, conc as int, 1),
{
    let mut k: u64 = 1;
    while k <= MAX_DISTRIBUTED_TP
        invariant
            1 <= k <= MAX_DISTRIBUTED_TP + 1,
            params_fit(*profile),
            first_fitting_count(*profile, *inputs, conc as int, 1) == first_fitting_count(
                *profile,
                *inputs,
                conc as int,
                k as int,
            ),
        decreases MAX_DISTRIBUTED_TP + 1 - k,
    {
        if is_candidate_exec(profile, k) && count_fits_exec(profile, inputs, k, conc) {
            return k;
        }
        k = k + 1;
    }
    candidates[candidates.len() - 1]
}

pub open spec fn constraint_en(p: ArchitectureProfile) -> Seq<char> {
    let dist = counts_upto(p, 1, MAX_DISTRIBUTED_TP as int);
    let pipe = counts_upto(p, 3, MAX_DISTRIBUTED_TP as int);
    "TP must divide num_heads="@ + dec(heads(p) as nat) + ". Candidates within one node (<=8 GPUs): "@
        + debug_list(counts_upto(p, 0, MAX_TP_SINGLE_NODE as int)) + "."@ + (if dist.len() == 0 {
        Seq::empty()
    } else {
        " Cross-node TP candidates: "@ + debug_list(dist) + "."@
    }) + (if pipe.len() == 0 {
        Seq::empty()
    } else {
        " Pipeline-parallel candidates (TP"@ + dec(max_tp(p) as nat) + " x PP): "@ + debug_list(pipe)
            + "."@
    })
}

pub open spec fn constraint_zh(p: ArchitectureProfile) -> Seq<char> {
    let dist = counts_upto(p, 1, MAX_DISTRIBUTED_TP as int);
    let pipe = counts_upto(p, 3, MAX_DISTRIBUTED_TP as int);
    "TP 张数必须整除 num_heads="@ + dec(heads(p) as nat) + "。单节点（≤8 卡）候选："@ + debug_list(
        counts_upto(p, 0, MAX_TP_SINGLE_NODE as int),
    ) + "。"@ + (if dist.len() == 0 {
        Seq::empty()
    } else {
        " 跨节点 TP 候选："@ + debug_list(dist) + "。"@
    }) + (if pipe.len() == 0 {
        Seq::empty()
    } else {
        " 单节点放不下时尝试流水并行候选（TP"@ + dec(max_tp(p) as nat) + " × PP）："@ + debug_list(pipe)
            + "。"@
    })
}

fn constraint_notes(profile: &ArchitectureProfile, valid_tp: &Vec<u64>) -> (r: (String, String))
    requires
        valid_tp@ == counts_upto(*profile, 0, MAX_TP_SINGLE_NODE as int),
    ensures
        r.0@ == constraint_en(*profile),
        r.1@ == constraint_zh(*profile),
{
    let h: u64 = match &profile.attention {
        Some(a) => a.num_heads,
        None => 0,
    };
    let dist = distributed_tp_sizes(profile);
    let pipe = pipeline_gpu_counts(profile);
    let valid_text = fmt_list(valid_tp);
    let mut en = String::new();
    en.append("TP must divide num_heads=");
    en.append(u64_to_string(h).as_str());
    en.append(". Candidates within one node (<=8 GPUs): ");
    en.append(valid_text.as_str());
    en.append(".");
    let mut zh = String::new();
    zh.append("TP 张数必须整除 num_heads=");
    zh.append(u64_to_string(h).as_str());
    zh.append("。单节点（≤8 卡）候选：");
    zh.append(valid_text.as_str());
    zh.append("。");
    if dist.len() > 0 {
        let d = fmt_list(&dist);
        en.append(" Cross-node TP candidates: ");
        en.append(d.as_str());
        en.append(".");
        zh.append(" 跨节点 TP 候选：");
        zh.append(d.as_str());
        zh.append("。");
    }
    if pipe.len() > 0 {
        let m = u64_to_string(max_tp_exec(profile));
        let l = fmt_list(&pipe);
        en.append(" Pipeline-parallel candidates (TP");
        en.append(m.as_str());
        en.append(" x PP): ");
        en.append(l.as_str());
        en.append(".");
        zh.append(" 单节点放不下时尝试流水并行候选（TP");
        zh.append(m.as_str());
        zh.append(" × PP）：");
        zh.append(l.as_str());
        zh.append("。");
    }
    assert(en@ =~= constraint_en(*profile));
    assert(zh@ =~= constraint_zh(*profile));
    (en, zh)
}

/// The options considered and the tier recommended.
pub struct FleetRecommendation {
    pub options: Vec<FleetOption>,
    pub best_tier: Option<&'static str>,
    pub valid_tp_sizes: Vec<u64>,
    pub constraint_note_en: String,
    pub constraint_note_zh: String,
}

pub open spec fn opt_name(o: Option<&'static str>) -> Option<Seq<char>> {
    match o {
        Some(s) => Some(s@),
        None => None,
    }
}

impl FleetRecommendation {
    /// The option of the recommended tier, if it fits.
    pub fn best_option(&self) -> (res: Option<&FleetOption>)
        ensures
            self.best_tier is None ==> res is None,
            res matches Some(o) ==> self.best_tier is Some && o.tier@ == self.best_tier->0@ && o.fits
                && exists|i: int| 0 <= i < self.options@.len() && self.options@[i] == *o,
            self.best_tier is Some && res is None ==> forall|i: int|
                0 <= i < self.options@.len() ==> !(#[trigger] self.options@[i].tier@
                    == self.best_tier->0@ && self.options@[i].fits),
            res matches Some(o) ==> exists|i: int|
                0 <= i < self.options@.len() && self.options@[i] == *o && forall|j: int|
                    0 <= j < i ==> !(#[trigger] self.options@[j].tier@ == self.best_tier->0@
                        && self.options@[j].fits),
    {
        let tier = match self.best_tier {
            Some(t) => t,
            None => {
                return None;
            },
        };
        let mut i: usize = 0;
        while i < self.options.len()
            invariant
                i <= self.options@.len(),
                self.best_tier == Some(tier),
                forall|j: int|
                    0 <= j < i ==> !(#[trigger] self.options@[j].tier@ == tier@
                        && self.options@[j].fits),
            decreases self.options.len() - i,
        {
            if crate::text::str_eq(self.options[i].tier, tier) && self.options[i].fits {
                return Some(&self.options[i]);
            }
            i = i + 1;
        }
        None
    }
}

pub open spec fn plan_inputs(
    weight_bytes: u64,
    kv_bytes: u64,
    activation_bytes: u64,
    reference_context_tokens: u64,
    memory_gb: u64,
    options: FleetMemoryOptions,
) -> PlanInputs {
    PlanInputs {
        weight_bytes,
        kv_bytes,
        activation_bytes,
        reference_context_tokens,
        total_memory_per_gpu: total_memory(memory_gb) as u64,
        usable_per_gpu: usable_memory(memory_gb) as u64,
        options,
    }
}

/// The tiers sized when no GPU count is forced.
pub open spec fn plan_tiers(o: FleetMemoryOptions) -> Seq<Tier> {
    if o.target_concurrent_requests is Some {
        seq![Tier::Target]
    } else {
        seq![Tier::Min, Tier::Dev, Tier::Prod]
    }
}

/// The recommended tier: the target when it fits; otherwise dev, then min,
/// then prod, whichever fits first.
pub open spec fn best_tier_of(opts: Seq<FleetOption>, o: FleetMemoryOptions) -> Option<Seq<char>> {
    if o.target_concurrent_requests is Some {
        if opts[0].fits { Some("target"@) } else { None }
    } else if opts[1].fits {
        Some("dev"@)
    } else if opts[0].fits {
        Some("min"@)
    } else if opts[2].fits {
        Some("prod"@)
    } else {
        None
    }
}

/// What a plan states for the given inputs.
pub open spec fn plan_ok(
    r: FleetRecommendation,
    p: ArchitectureProfile,
    c: PlanInputs,
    forced_gpu_count: Option<u64>,
    kv_by_context: Seq<(u64, u64)>,
) -> bool {
    let valid = counts_upto(p, 0, MAX_TP_SINGLE_NODE as int);
    &&& r.valid_tp_sizes@ == valid
    &&& r.constraint_note_en@ == constraint_en(p)
    &&& r.constraint_note_zh@ == constraint_zh(p)
    &&& match forced_gpu_count {
        Some(n) => {
            let t = if c.options.target_concurrent_requests is Some {
                Tier::Target
            } else {
                Tier::Min
            };
            &&& r.options@.len() == 1
            &&& option_ok(r.options@[0], p, c, valid, kv_by_context, n as int, t)
            &&& opt_name(r.best_tier) == (if r.options@[0].fits {
                Some(tier_name(t))
            } else {
                None
            })
        },
        None => {
            let tiers = plan_tiers(c.options);
            &&& r.options@.len() == tiers.len()
            &&& forall|i: int|
                0 <= i < tiers.len() ==> option_ok(
                    #[trigger] r.options@[i],
                    p,
                    c,
                    valid,
                    kv_by_context,
                    first_fitting_count(p, c, tier_concurrency(tiers[i], c.options), 1),
                    tiers[i],
                )
            &&& opt_name(r.best_tier) == best_tier_of(r.options@, c.options)
        },
    }
}

/// Sizes the fleet for a model on one GPU type. With a forced GPU count only
/// that count is evaluated; otherwise each tier gets the smallest candidate
/// count that holds its concurrency.
pub fn plan_with_memory_options(
    profile: &ArchitectureProfile,
    weight_bytes: u64,
    kv_bytes_per_request_at_ref: u64,
    activation_bytes_per_request_at_ref: u64,
    reference_context_tokens: u64,
    gpu: &GPUSpec,
    forced_gpu_count: Option<u64>,
    kv_bytes_by_context: &[(u64, u64)],
    activation_bytes_by_context: &[(u64, u64)],
    memory_options: FleetMemoryOptions,
) -> (r: FleetRecommendation)
    requires
        params_fit(*profile),
    ensures
        plan_ok(
            r,
            *profile,
            plan_inputs(
                weight_bytes,
                kv_bytes_per_request_at_ref,
                activation_bytes_per_request_at_ref,
                reference_context_tokens,
                gpu.memory_gb,
                memory_options,
            ),
            forced_gpu_count,
            kv_bytes_by_context@,
        ),
{
    let (total, usable) = memory_budget(gpu.memory_gb);
    let inputs = PlanInputs {
        weight_bytes,
        kv_bytes: kv_bytes_per_request_at_ref,
        activation_bytes: activation_bytes_per_request_at_ref,
        reference_context_tokens,
        total_memory_per_gpu: total,
        usable_per_gpu: usable,
        options: memory_options,
    };
    let valid_tp = valid_tp_sizes(profile);
    let candidates = candidate_gpu_counts(profile);
    let (note_en, note_zh) = constraint_notes(profile, &valid_tp);
    let has_target = match inputs.options.target_concurrent_requests {
        Some(_) => true,
        None => false,
    };
    match forced_gpu_count {
        Some(n) => {
            let t = if has_target {
                Tier::Target
            } else {
                Tier::Min
            };
            let option = evaluate_count(profile, &inputs, &valid_tp, kv_bytes_by_context, n, t);
            let best = if option.fits {
                Some(t.name())
            } else {
                None
            };
            let mut options: Vec<FleetOption> = Vec::new();
            options.push(option);
            FleetRecommendation {
                options,
                best_tier: best,
                valid_tp_sizes: valid_tp,
                constraint_note_en: note_en,
                constraint_note_zh: note_zh,
            }
        },
        None => {
            let mut options: Vec<FleetOption> = Vec::new();
            if has_target {
                let c = Tier::Target.concurrency(&inputs.options);
                let n = smallest_fitting_count(profile, &inputs, &candidates, c);
                options.push(evaluate_count(profile, &inputs, &valid_tp, kv_bytes_by_context, n, Tier::Target));
                let best = if options[0].fits {
                    Some("target")
                } else {
                    None
                };
                proof {
                    reveal_strlit("target");
                    assert(tier_name(Tier::Target) == "target"@);
                }
                FleetRecommendation {
                    options,
                    best_tier: best,
                    valid_tp_sizes: valid_tp,
                    constraint_note_en: note_en,
                    constraint_note_zh: note_zh,
                }
            } else {
                let n_min = smallest_fitting_count(profile, &inputs, &candidates, 1);
                options.push(evaluate_count(profile, &inputs, &valid_tp, kv_bytes_by_context, n_min, Tier::Min));
                let n_dev = smallest_fitting_count(profile, &inputs, &candidates, 8);
                options.push(evaluate_count(profile, &inputs, &valid_tp, kv_bytes_by_context, n_dev, Tier::Dev));
                let n_prod = smallest_fitting_count(profile, &inputs, &candidates, 16);
                options.push(evaluate_count(profile, &inputs, &valid_tp, kv_bytes_by_context, n_prod, Tier::Prod));
                let best = if options[1].fits {
                    Some("dev")
                } else if options[0].fits {
                    Some("min")
                } else if options[2].fits {
                    Some("prod")
                } else {
                    None
                };
                proof {
                    let tiers = plan_tiers(inputs.options);
                    assert(tiers == seq![Tier::Min, Tier::Dev, Tier::Prod]);
                    assert forall|i: int| 0 <= i < tiers.len() implies option_ok(
                        #[trigger] options@[i],
                        *profile,
                        inputs,
                        valid_tp@,
                        kv_bytes_by_context@,
                        first_fitting_count(*profile, inputs, tier_concurrency(tiers[i], inputs.options), 1),
                        tiers[i],
                    ) by {
                        if i == 0 {} else if i == 1 {} else {}
                    }
                }
                FleetRecommendation {
                    options,
                    best_tier: best,
                    valid_tp_sizes: valid_tp,
                    constraint_note_en: note_en,
                    constraint_note_zh: note_zh,
                }
            }
        },
    }
}

/// `plan_with_memory_options` with no activation memory and default options.
pub fn plan(
    profile: &ArchitectureProfile,
    weight_bytes: u64,
    kv_bytes_per_request_at_ref: u64,
    reference_context_tokens: u64,
    gpu: &GPUSpec,
    forced_gpu_count: Option<u64>,
    kv_bytes_by_context: &[(u64, u64)],
) -> (r: FleetRecommendation)
    requires
        params_fit(*profile),
    ensures
        plan_ok(
            r,
            *profile,
            plan_inputs(
                weight_bytes,
                kv_bytes_per_request_at_ref,
                0,
                reference_context_tokens,
                gpu.memory_gb,
                FleetMemoryOptions::default_spec(),
            ),
            forced_gpu_count,
            kv_bytes_by_context@,
        ),
{
    let empty: Vec<(u64, u64)> = Vec::new();
    plan_with_memory_options(
        profile,
        weight_bytes,
        kv_bytes_per_request_at_ref,
        0,
        reference_context_tokens,
        gpu,
        forced_gpu_count,
        kv_bytes_by_context,
        empty.as_slice(),
        FleetMemoryOptions::default(),
    )
}

/// `plan_with_memory_options` with default options.
pub fn plan_with_activation(
    profile: &ArchitectureProfile,
    weight_bytes: u64,
    kv_bytes_per_request_at_ref: u64,
    activation_bytes_per_request_at_ref: u64,
    reference_context_tokens: u64,
    gpu: &GPUSpec,
    forced_gpu_count: Option<u64>,
    kv_bytes_by_context: &[(u64, u64)],
    activation_bytes_by_context: &[(u64, u64)],
) -> (r: FleetRecommendation)
    requires
        params_fit(*profile),
    ensures
        plan_ok(
            r,
            *profile,
            plan_inputs(
                weight_bytes,
                kv_bytes_per_request_at_ref,
                activation_bytes_per_request_at_ref,
                reference_context_tokens,
                gpu.memory_gb,
                FleetMemoryOptions::default_spec(),
            ),
            forced_gpu_count,
            kv_bytes_by_context@,
        ),
{
    plan_with_memory_options(
        profile,
        weight_bytes,
        kv_bytes_per_request_at_ref,
        activation_bytes_per_request_at_ref,
        reference_context_tokens,
        gpu,
        forced_gpu_count,
        kv_bytes_by_context,
        activation_bytes_by_context,
        FleetMemoryOptions::default(),
    )
}

} // verus!
