//! Parallel layouts: which GPU counts a model can be split over, and how.
use vstd::prelude::*;
use crate::profile::{ArchitectureProfile, AttentionVariant};

verus! {

pub const MAX_TP_SINGLE_NODE: u64 = 8;

pub const MAX_DISTRIBUTED_TP: u64 = 64;

pub const MAX_PIPELINE_PARALLEL: u64 = 8;

/// Attention heads of the profile (0 when unknown).
pub open spec fn heads(p: ArchitectureProfile) -> int {
    match p.attention {
        Some(a) => a.num_heads as int,
        None => 0,
    }
}

/// Single-node tensor-parallel sizes: divisors of the head count up to 8
/// (just 1 when the head count is unknown).
pub open spec fn is_valid_tp(p: ArchitectureProfile, t: int) -> bool {
    if heads(p) == 0 {
        t == 1
    } else {
        1 <= t <= MAX_TP_SINGLE_NODE && t <= heads(p) && heads(p) % t == 0
    }
}

/// Cross-node tensor-parallel sizes: divisors of the head count from 9 to 64.
pub open spec fn is_distributed_tp(p: ArchitectureProfile, t: int) -> bool {
    heads(p) > MAX_TP_SINGLE_NODE && MAX_TP_SINGLE_NODE < t <= MAX_DISTRIBUTED_TP && t <= heads(p)
        && heads(p) % t == 0
}

/// The largest divisor of `h` that is at most `t` (1 when none above 1).
pub open spec fn largest_divisor_upto(h: int, t: int) -> int
    decreases t,
{
    if t <= 1 {
        1
    } else if h % t == 0 {
        t
    } else {
        largest_divisor_upto(h, t - 1)
    }
}

pub open spec fn tp_cap(p: ArchitectureProfile) -> int {
    if heads(p) < MAX_TP_SINGLE_NODE {
        heads(p)
    } else {
        MAX_TP_SINGLE_NODE as int
    }
}

/// The largest single-node TP size.
pub open spec fn max_tp(p: ArchitectureProfile) -> int {
    if heads(p) == 0 {
        1
    } else {
        largest_divisor_upto(heads(p), tp_cap(p))
    }
}

/// A pipeline-parallel layout: `max_tp` GPUs per stage, 2 to 8 stages that
/// split the layers evenly (any split when the layer count is unknown).
pub open spec fn is_pipeline_count(p: ArchitectureProfile, n: int) -> bool {
    let pp = n / max_tp(p);
    &&& n % max_tp(p) == 0
    &&& 2 <= pp <= MAX_PIPELINE_PARALLEL
    &&& (p.num_hidden_layers == 0 || (p.num_hidden_layers as int) % pp == 0)
}

/// GPU counts worth trying: single-node TP, cross-node TP, and pipeline
/// layouts.
pub open spec fn is_candidate(p: ArchitectureProfile, n: int) -> bool {
    is_valid_tp(p, n) || is_distributed_tp(p, n) || is_pipeline_count(p, n)
}

/// Strictly increasing.
pub open spec fn increasing(s: Seq<u64>) -> bool {
    forall|i: int, j: int| 0 <= i < j < s.len() ==> s[i] < s[j]
}

proof fn lemma_largest_divisor(h: int, t: int)
    requires
        h > 0,
        t >= 1,
    ensures
        1 <= largest_divisor_upto(h, t) <= t,
        h % largest_divisor_upto(h, t) == 0,
        forall|u: int| largest_divisor_upto(h, t) < u <= t ==> #[trigger] (h % u) != 0,
    decreases t,
{
    if t > 1 && h % t != 0 {
        lemma_largest_divisor(h, t - 1);
    }
}

pub proof fn lemma_max_tp(p: ArchitectureProfile)
    ensures
        is_valid_tp(p, max_tp(p)),
        forall|u: int| #[trigger] is_valid_tp(p, u) ==> u <= max_tp(p),
        1 <= max_tp(p) <= MAX_TP_SINGLE_NODE,
{
    if heads(p) != 0 {
        let h = heads(p);
        lemma_largest_divisor(h, tp_cap(p));
        assert forall|u: int| #[trigger] is_valid_tp(p, u) implies u <= max_tp(p) by {
            if u > max_tp(p) {
                assert(h % u != 0);
            }
        }
    }
}

fn heads_exec(p: &ArchitectureProfile) -> (h: u64)
    ensures
        h == heads(*p),
{
    match &p.attention {
        Some(a) => a.num_heads,
        None => 0,
    }
}

fn is_valid_tp_exec(p: &ArchitectureProfile, t: u64) -> (b: bool)
    ensures
        b == is_valid_tp(*p, t as int),
{
    let h = heads_exec(p);
    if h == 0 {
        t == 1
    } else {
        1 <= t && t <= MAX_TP_SINGLE_NODE && t <= h && h % t == 0
    }
}

fn is_distributed_tp_exec(p: &ArchitectureProfile, t: u64) -> (b: bool)
    ensures
        b == is_distributed_tp(*p, t as int),
{
    let h = heads_exec(p);
    h > MAX_TP_SINGLE_NODE && MAX_TP_SINGLE_NODE < t && t <= MAX_DISTRIBUTED_TP && t <= h && h % t
        == 0
}

/// The largest single-node TP size of the profile.
pub fn max_tp_exec(p: &ArchitectureProfile) -> (t: u64)
    ensures
        t == max_tp(*p),
        1 <= t <= MAX_TP_SINGLE_NODE,
{
    proof {
        lemma_max_tp(*p);
    }
    let h = heads_exec(p);
    if h == 0 {
        return 1;
    }
    let mut t: u64 = if h < MAX_TP_SINGLE_NODE {
        h
    } else {
        MAX_TP_SINGLE_NODE
    };
    while t > 1 && h % t != 0
        invariant
            1 <= t <= tp_cap(*p),
            h == heads(*p),
            h > 0,
            largest_divisor_upto(h as int, t as int) == max_tp(*p),
        decreases t,
    {
        t = t - 1;
    }
    t
}

fn is_pipeline_count_exec(p: &ArchitectureProfile, n: u64) -> (b: bool)
    ensures
        b == is_pipeline_count(*p, n as int),
{
    let m = max_tp_exec(p);
    if n % m != 0 {
        return false;
    }
    let pp = n / m;
    if pp < 2 || pp > MAX_PIPELINE_PARALLEL {
        return false;
    }
    p.num_hidden_layers == 0 || p.num_hidden_layers % pp == 0
}

/// Every candidate GPU count is at most 64.
proof fn lemma_candidate_bound(p: ArchitectureProfile, n: int)
    requires
        is_candidate(p, n),
    ensures
        1 <= n <= MAX_DISTRIBUTED_TP,
{
    lemma_max_tp(p);
    if is_pipeline_count(p, n) {
        let m = max_tp(p);
        let pp = n / m;
        assert(n == m * pp) by (nonlinear_arith)
            requires
                n % m == 0,
                pp == n / m,
                m >= 1,
        ;
        assert(m * pp <= 64 && m * pp >= 1) by (nonlinear_arith)
            requires
                1 <= m <= 8,
                2 <= pp <= 8,
        ;
    }
}

/// Which kind of GPU-count list: 0 single-node TP, 1 cross-node TP,
/// 2 every candidate, 3 pipeline-only candidates.
pub open spec fn count_kind(p: ArchitectureProfile, kind: int, n: int) -> bool {
    if kind == 0 {
        is_valid_tp(p, n)
    } else if kind == 1 {
        is_distributed_tp(p, n)
    } else if kind == 2 {
        is_candidate(p, n)
    } else {
        is_candidate(p, n) && !is_valid_tp(p, n) && !is_distributed_tp(p, n)
    }
}

/// The counts `1..=k` of the given kind, in increasing order.
pub open spec fn counts_upto(p: ArchitectureProfile, kind: int, k: int) -> Seq<u64>
    decreases k,
{
    if k <= 0 {
        Seq::empty()
    } else if count_kind(p, kind, k) {
        counts_upto(p, kind, k - 1).push(k as u64)
    } else {
        counts_upto(p, kind, k - 1)
    }
}

proof fn lemma_no_distributed_below(p: ArchitectureProfile, k: int)
    requires
        k <= MAX_TP_SINGLE_NODE,
    ensures
        counts_upto(p, 1, k) == Seq::<u64>::empty(),
    decreases k,
{
    if k > 0 {
        lemma_no_distributed_below(p, k - 1);
    }
}

/// Appends the counts `from..=to` of a kind to `v`, which holds those below.
fn collect_counts(p: &ArchitectureProfile, kind: u8, from: u64, to: u64) -> (v: Vec<u64>)
    requires
        1 <= from <= to + 1,
        to <= MAX_DISTRIBUTED_TP,
        counts_upto(*p, kind as int, from - 1) == Seq::<u64>::empty(),
    ensures
        v@ == counts_upto(*p, kind as int, to as int),
{
    let mut v: Vec<u64> = Vec::new();
    let mut c: u64 = from;
    while c <= to
        invariant
            1 <= from <= c <= to + 1,
            to <= MAX_DISTRIBUTED_TP,
            v@ == counts_upto(*p, kind as int, c - 1),
        decreases to + 1 - c,
    {
        let valid = is_valid_tp_exec(p, c);
        let dist = is_distributed_tp_exec(p, c);
        let cand = valid || dist || is_pipeline_count_exec(p, c);
        let keep = if kind == 0 {
            valid
        } else if kind == 1 {
            dist
        } else if kind == 2 {
            cand
        } else {
            cand && !valid && !dist
        };
        proof {
            assert(keep == count_kind(*p, kind as int, c as int));
            reveal_with_fuel(counts_upto, 2);
            if keep {
                assert(counts_upto(*p, kind as int, c as int) == counts_upto(*p, kind as int, c - 1).push(c));
            } else {
                assert(counts_upto(*p, kind as int, c as int) == counts_upto(*p, kind as int, c - 1));
            }
        }
        if keep {
            v.push(c);
        }
        c = c + 1;
    }
    v
}

proof fn lemma_counts_upto_props(p: ArchitectureProfile, kind: int, k: int)
    requires
        k <= MAX_DISTRIBUTED_TP,
    ensures
        increasing(counts_upto(p, kind, k)),
        forall|i: int| 0 <= i < counts_upto(p, kind, k).len() ==> count_kind(p, kind, #[trigger] counts_upto(p, kind, k)[i] as int)
            && 1 <= counts_upto(p, kind, k)[i] <= k,
        forall|n: int| 1 <= n <= k && #[trigger] count_kind(p, kind, n) ==> counts_upto(p, kind, k).contains(n as u64),
    decreases k,
{
    if k > 0 {
        lemma_counts_upto_props(p, kind, k - 1);
        let prev = counts_upto(p, kind, k - 1);
        if count_kind(p, kind, k) {
            let cur = prev.push(k as u64);
            assert(counts_upto(p, kind, k) == cur);
            assert forall|i: int, j: int| 0 <= i < j < cur.len() implies cur[i] < cur[j] by {
                if j == cur.len() - 1 {
                    assert(cur[i] == prev[i]);
                } else {
                    assert(cur[i] == prev[i] && cur[j] == prev[j]);
                }
            }
            assert forall|i: int| 0 <= i < cur.len() implies count_kind(p, kind, #[trigger] cur[i] as int)
                && 1 <= cur[i] <= k by {
                if i < cur.len() - 1 {
                    assert(cur[i] == prev[i]);
                }
            }
            assert forall|n: int| 1 <= n <= k && #[trigger] count_kind(p, kind, n) implies cur.contains(n as u64) by {
                if n == k {
                    assert(cur[cur.len() - 1] == k as u64);
                } else {
                    let j = choose|j: int| 0 <= j < prev.len() && prev[j] == n as u64;
                    assert(cur[j] == n as u64);
                }
            }
        }
    }
}

/// Single-node TP sizes, in increasing order.
pub fn valid_tp_sizes(profile: &ArchitectureProfile) -> (v: Vec<u64>)
    ensures
        v@ == counts_upto(*profile, 0, MAX_TP_SINGLE_NODE as int),
        increasing(v@),
        forall|i: int| 0 <= i < v@.len() ==> is_valid_tp(*profile, #[trigger] v@[i] as int),
        forall|t: int| #[trigger] is_valid_tp(*profile, t) ==> v@.contains(t as u64),
        v@.len() > 0,
        v@.contains(max_tp(*profile) as u64),
{
    let v = collect_counts(profile, 0, 1, MAX_TP_SINGLE_NODE);
    proof {
        lemma_counts_upto_props(*profile, 0, 8);
        lemma_max_tp(*profile);
        assert(count_kind(*profile, 0, max_tp(*profile)));
        assert forall|i: int| 0 <= i < v@.len() implies is_valid_tp(*profile, #[trigger] v@[i] as int) by {
            assert(count_kind(*profile, 0, v@[i] as int));
        }
        assert forall|t: int| #[trigger] is_valid_tp(*profile, t) implies v@.contains(t as u64) by {
            assert(count_kind(*profile, 0, t));
        }
    }
    v
}

/// Cross-node TP sizes (divisors of the head count from 9 to 64), in
/// increasing order.
pub fn distributed_tp_sizes(profile: &ArchitectureProfile) -> (v: Vec<u64>)
    ensures
        v@ == counts_upto(*profile, 1, MAX_DISTRIBUTED_TP as int),
        increasing(v@),
        forall|i: int| 0 <= i < v@.len() ==> is_distributed_tp(*profile, #[trigger] v@[i] as int),
        forall|t: int| #[trigger] is_distributed_tp(*profile, t) ==> v@.contains(t as u64),
{
    proof {
        lemma_no_distributed_below(*profile, 8);
    }
    let v = collect_counts(profile, 1, MAX_TP_SINGLE_NODE + 1, MAX_DISTRIBUTED_TP);
    proof {
        lemma_counts_upto_props(*profile, 1, 64);
        assert forall|i: int| 0 <= i < v@.len() implies is_distributed_tp(*profile, #[trigger] v@[i] as int) by {
            assert(count_kind(*profile, 1, v@[i] as int));
        }
        assert forall|t: int| #[trigger] is_distributed_tp(*profile, t) implies v@.contains(t as u64) by {
            assert(count_kind(*profile, 1, t));
        }
    }
    v
}

/// GPU counts the planner tries, in increasing order without repeats.
pub fn candidate_gpu_counts(profile: &ArchitectureProfile) -> (v: Vec<u64>)
    ensures
        v@ == counts_upto(*profile, 2, MAX_DISTRIBUTED_TP as int),
        increasing(v@),
        forall|i: int| 0 <= i < v@.len() ==> is_candidate(*profile, #[trigger] v@[i] as int),
        forall|n: int| #[trigger] is_candidate(*profile, n) ==> v@.contains(n as u64),
        v@.len() > 0,
{
    let v = collect_counts(profile, 2, 1, MAX_DISTRIBUTED_TP);
    proof {
        lemma_counts_upto_props(*profile, 2, 64);
        lemma_max_tp(*profile);
        assert(count_kind(*profile, 2, max_tp(*profile)));
        assert forall|i: int| 0 <= i < v@.len() implies is_candidate(*profile, #[trigger] v@[i] as int) by {
            assert(count_kind(*profile, 2, v@[i] as int));
        }
        assert forall|n: int| #[trigger] is_candidate(*profile, n) implies v@.contains(n as u64) by {
            lemma_candidate_bound(*profile, n);
            assert(count_kind(*profile, 2, n));
        }
    }
    v
}

/// Candidates that need pipeline stages (neither single- nor cross-node TP).
pub fn pipeline_gpu_counts(profile: &ArchitectureProfile) -> (v: Vec<u64>)
    ensures
        v@ == counts_upto(*profile, 3, MAX_DISTRIBUTED_TP as int),
{
    collect_counts(profile, 3, 1, MAX_DISTRIBUTED_TP)
}

pub fn is_candidate_exec(profile: &ArchitectureProfile, n: u64) -> (b: bool)
    ensures
        b == is_candidate(*profile, n as int),
{
    is_valid_tp_exec(profile, n) || is_distributed_tp_exec(profile, n) || is_pipeline_count_exec(
        profile,
        n,
    )
}

/// `value / divisor` rounded up; the value itself for a zero divisor.
pub open spec fn ceil_div(value: int, divisor: int) -> int {
    if divisor == 0 {
        value
    } else {
        (value + divisor - 1) / divisor
    }
}

pub fn ceil_div_u64(value: u64, divisor: u64) -> (r: u64)
    ensures
        r == ceil_div(value as int, divisor as int),
{
    if divisor == 0 {
        value
    } else {
        let q = value / divisor;
        if value % divisor == 0 {
            proof {
                let v = value as int;
                let d = divisor as int;
                vstd::arithmetic::div_mod::lemma_fundamental_div_mod(v, d);
                vstd::arithmetic::div_mod::lemma_fundamental_div_mod(v + d - 1, d);
                assert((v + d - 1) / d == v / d) by (nonlinear_arith)
                    requires
                        d > 0,
                        v % d == 0,
                        v >= 0,
                        v == d * (v / d) + v % d,
                        v + d - 1 == d * ((v + d - 1) / d) + (v + d - 1) % d,
                        0 <= (v + d - 1) % d < d,
                ;
            }
            q
        } else {
            proof {
                let v = value as int;
                let d = divisor as int;
                vstd::arithmetic::div_mod::lemma_fundamental_div_mod(v, d);
                vstd::arithmetic::div_mod::lemma_fundamental_div_mod(v + d - 1, d);
                assert((v + d - 1) / d == v / d + 1) by (nonlinear_arith)
                    requires
                        d > 0,
                        v % d != 0,
                        v >= 0,
                        v == d * (v / d) + v % d,
                        v + d - 1 == d * ((v + d - 1) / d) + (v + d - 1) % d,
                        0 <= v % d < d,
                        0 <= (v + d - 1) % d < d,
                ;
            }
            assert(q < value || divisor == 1 || q + 1 <= u64::MAX) by (nonlinear_arith)
                requires
                    q == value / divisor,
                    divisor >= 1,
                    value <= u64::MAX,
                    value % divisor != 0,
            ;
            q + 1
        }
    }
}

/// (tensor-parallel size, pipeline stages, nodes) used for `n` GPUs.
pub open spec fn layout(p: ArchitectureProfile, n: int) -> (int, int, int) {
    if n <= max_tp(p) {
        (if n < 1 { 1 } else { n }, 1, 1)
    } else if is_distributed_tp(p, n) {
        let nodes = ceil_div(n, MAX_TP_SINGLE_NODE as int);
        (n, 1, if nodes < 1 { 1 } else { nodes })
    } else {
        let pp = ceil_div(n, max_tp(p));
        (max_tp(p), if pp < 1 { 1 } else { pp }, if pp < 1 { 1 } else { pp })
    }
}

pub fn layout_for_count(profile: &ArchitectureProfile, gpu_count: u64) -> (r: (u64, u64, u64))
    ensures
        r.0 == layout(*profile, gpu_count as int).0,
        r.1 == layout(*profile, gpu_count as int).1,
        r.2 == layout(*profile, gpu_count as int).2,
        r.0 >= 1,
        r.1 >= 1,
        r.2 >= 1,
{
    let m = max_tp_exec(profile);
    if gpu_count <= m {
        let tp = if gpu_count < 1 {
            1
        } else {
            gpu_count
        };
        return (tp, 1, 1);
    }
    if is_distributed_tp_exec(profile, gpu_count) {
        let nodes = ceil_div_u64(gpu_count, MAX_TP_SINGLE_NODE);
        return (gpu_count, 1, if nodes < 1 { 1 } else { nodes });
    }
    let pp = ceil_div_u64(gpu_count, m);
    let pp1 = if pp < 1 {
        1
    } else {
        pp
    };
    (m, pp1, pp1)
}

/// How many ways the KV cache of one request splits across a TP group: MLA
/// keeps one latent per token, other variants split by KV head.
pub open spec fn kv_shards_spec(p: ArchitectureProfile, tp: int) -> int {
    match p.attention {
        None => 1,
        Some(a) => if a.variant == AttentionVariant::Mla {
            1
        } else {
            let kv = if a.num_kv_heads < 1 { 1 } else { a.num_kv_heads as int };
            if tp < kv { tp } else { kv }
        },
    }
}

pub fn kv_shards(profile: &ArchitectureProfile, tp_size: u64) -> (r: u64)
    ensures
        r == kv_shards_spec(*profile, tp_size as int),
{
    match &profile.attention {
        None => 1,
        Some(a) => {
            let is_mla = match a.variant {
                AttentionVariant::Mla => true,
                _ => false,
            };
            if is_mla {
                1
            } else {
                let kv = if a.num_kv_heads < 1 {
                    1
                } else {
                    a.num_kv_heads
                };
                if tp_size < kv {
                    tp_size
                } else {
                    kv
                }
            }
        },
    }
}

/// KV-cache shards for `n` GPUs: one per pipeline stage times the TP split.
pub open spec fn effective_kv_shards_spec(p: ArchitectureProfile, n: int) -> int {
    layout(p, n).1 * kv_shards_spec(p, layout(p, n).0)
}

/// Capped at `u64::MAX` (reached only for GPU counts within 8 of it).
pub fn effective_kv_shards(profile: &ArchitectureProfile, gpu_count: u64) -> (r: u64)
    ensures
        r == (if effective_kv_shards_spec(*profile, gpu_count as int) > u64::MAX {
            u64::MAX as int
        } else {
            effective_kv_shards_spec(*profile, gpu_count as int)
        }),
        r >= 1,
{
    let (tp, pp, _) = layout_for_count(profile, gpu_count);
    let k = kv_shards(profile, tp);
    assert(k >= 1);
    assert((pp as u128) * (k as u128) <= u128::MAX && (pp as u128) * (k as u128) >= 1) by (nonlinear_arith)
        requires
            1 <= pp <= u64::MAX,
            1 <= k <= u64::MAX,
    ;
    let wide = (pp as u128) * (k as u128);
    if wide > u64::MAX as u128 {
        u64::MAX
    } else {
        wide as u64
    }
}

} // verus!
