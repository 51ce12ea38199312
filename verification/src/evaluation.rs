//! The evaluation of one model on one GPU type: weights, quantization,
//! KV cache at several context lengths, the fleet, and a launch command.
use vstd::prelude::*;
use crate::command::{
    generate_sglang_command, generate_vllm_command, launch_options, sglang_lines, vllm_lines, Parallelism,
};
use crate::engine_compat::EngineCompatEntry;
use crate::fingerprint::{from_safetensors_dtypes, header_fingerprint, tensor_names_distinct, QuantFingerprint, SourceType};
use crate::hardware::{opt_view, GPUSpec, UnknownGPUError};
use crate::kv_cache::{compute_kv_cache_bytes, kv_cache_label, kv_cache_note, kv_cache_value, kv_fits, kv_fits_check};
use crate::labels::{AnnotatedValue, Label, opt_string};
use crate::layout::{layout, layout_for_count};
use crate::planner::{plan, plan_inputs, plan_ok, FleetMemoryOptions, FleetOption, FleetRecommendation};
use crate::profile::ArchitectureProfile;
use crate::quant::{analyze, analyzes, safetensors_total, safetensors_total_bytes, safetensors_total_fits, spec_bpp_ratio, WeightReport};
use crate::reconciler::{declared_view, reconcile, reconciles, ReconciliationReport};
use crate::sources::{ModelArtifact, SiblingFile};
use crate::text::{joined, str_eq, trim, trimmed};
use crate::weight::{estimate_total_params, has_shape, params_fit, params_fit_check, total_params, total_params_note};

verus! {

/// The context length the fleet is sized at.
pub const KV_REFERENCE_CTX: u64 = 131_072;

/// Context lengths the KV cache is reported at: the override alone; else
/// 4K, 32K and 128K, plus the model's maximum position when longer, none
/// beyond that maximum.
pub open spec fn context_lengths(p: ArchitectureProfile, override_ctx: Option<u64>) -> Seq<u64> {
    match override_ctx {
        Some(o) => seq![o],
        None => {
            let base = seq![4096u64, 32768u64, KV_REFERENCE_CTX];
            match p.position {
                Some(pos) => match pos.max_position_embeddings {
                    Some(m) => {
                        let all = if m > KV_REFERENCE_CTX {
                            base.push(m)
                        } else {
                            base
                        };
                        all.filter(|c: u64| c <= m)
                    },
                    None => base,
                },
                None => base,
            }
        },
    }
}

pub fn select_context_lengths(profile: &ArchitectureProfile, override_ctx: Option<u64>) -> (v: Vec<u64>)
    ensures
        v@ == context_lengths(*profile, override_ctx),
{
    match override_ctx {
        Some(o) => {
            let mut v: Vec<u64> = Vec::new();
            v.push(o);
            assert(v@ =~= seq![o]);
            return v;
        },
        None => {},
    }
    let ghost base = seq![4096u64, 32768u64, KV_REFERENCE_CTX];
    let max_pos: Option<u64> = match &profile.position {
        Some(pos) => pos.max_position_embeddings,
        None => None,
    };
    let mut v: Vec<u64> = Vec::new();
    match max_pos {
        Some(m) => {
            reveal_with_fuel(Seq::filter, 5);
            let ghost all = if m > KV_REFERENCE_CTX {
                base.push(m)
            } else {
                base
            };
            if 4096 <= m {
                v.push(4096);
            }
            if 32768 <= m {
                v.push(32768);
            }
            if KV_REFERENCE_CTX <= m {
                v.push(KV_REFERENCE_CTX);
            }
            if m > KV_REFERENCE_CTX {
                v.push(m);
            }
            assert(all.filter(|c: u64| c <= m) =~= v@) by {
                assert(base.push(m).drop_last() =~= base);
                assert(base.drop_last() =~= seq![4096u64, 32768u64]);
                assert(seq![4096u64, 32768u64].drop_last() =~= seq![4096u64]);
                assert(seq![4096u64].drop_last() =~= Seq::<u64>::empty());
            }
        },
        None => {
            v.push(4096);
            v.push(32768);
            v.push(KV_REFERENCE_CTX);
            assert(v@ =~= base);
        },
    }
    v
}

/// A declared scheme agrees with the bytes on disk: its exact prediction
/// `bpp * total_params` is within 15% of the observed bytes. Schemes
/// without an anchor, and a zero count on either side, always agree.
pub open spec fn matches_bytes(s: crate::quant::QuantizationScheme, observed: u64, total_params: u64) -> bool {
    match spec_bpp_ratio(s) {
        Some((n, d)) => {
            if total_params == 0 || observed == 0 {
                true
            } else {
                let x = observed * d - n * total_params;
                let dist = if x < 0 {
                    -x
                } else {
                    x
                };
                100 * dist <= 15 * n * total_params
            }
        },
        None => true,
    }
}

pub fn fingerprint_matches_bytes(fp: &QuantFingerprint, observed_bytes: u64, total_params: u64) -> (b: bool)
    ensures
        b == matches_bytes(fp.scheme, observed_bytes, total_params),
{
    match fp.scheme.bpp_ratio() {
        Some((n, d)) => {
            if total_params == 0 || observed_bytes == 0 {
                return true;
            }
            assert(n <= 55 && d <= 100);
            assert(observed_bytes * d <= 100 * 0xffff_ffff_ffff_ffffu128 && n * total_params <= 55
                * 0xffff_ffff_ffff_ffffu128) by (nonlinear_arith)
                requires
                    d <= 100,
                    n <= 55,
                    observed_bytes <= 0xffff_ffff_ffff_ffffu64,
                    total_params <= 0xffff_ffff_ffff_ffffu64,
            ;
            let a: u128 = observed_bytes as u128 * d as u128;
            let p: u128 = n as u128 * total_params as u128;
            let dist: u128 = if a >= p {
                a - p
            } else {
                p - a
            };
            assert(dist <= 100 * 0xffff_ffff_ffff_ffffu128) by (nonlinear_arith)
                requires
                    a == observed_bytes * d,
                    p == n * total_params,
                    d <= 100,
                    n <= 55,
                    observed_bytes <= 0xffff_ffff_ffff_ffffu64,
                    total_params <= 0xffff_ffff_ffff_ffffu64,
                    dist == (if a >= p { a - p } else { p - a }),
            ;
            assert(15 * n * total_params == 15 * (n * total_params)) by (nonlinear_arith);
            100 * dist <= 15 * p
        },
        None => true,
    }
}

/// The revision a weight shard is read at: the pinned commit, else the
/// hub's default branch (`master` on ModelScope, `main` elsewhere).
pub open spec fn revision_of(source: Seq<char>, commit_sha: Option<Seq<char>>) -> Seq<char> {
    match commit_sha {
        Some(c) => c,
        None => if source == "modelscope"@ {
            "master"@
        } else {
            "main"@
        },
    }
}

/// The parameter count an evaluation works with: the shape's estimate, or
/// zero without a shape.
pub open spec fn params_or_zero(p: ArchitectureProfile) -> int {
    if has_shape(p) {
        total_params(p)
    } else {
        0
    }
}

/// Whether the config's quantization stands without reading a shard
/// header: it is declared, and the safetensors bytes agree with it.
pub fn config_fingerprint_stands(
    config_fp: &Option<QuantFingerprint>,
    profile: &ArchitectureProfile,
    files: &Vec<SiblingFile>,
) -> (b: bool)
    requires
        params_fit(*profile),
        safetensors_total(files@) <= u64::MAX,
    ensures
        b == match config_fp {
            Some(f) => matches_bytes(f.scheme, safetensors_total(files@) as u64, params_or_zero(*profile) as u64),
            None => false,
        },
{
    match config_fp {
        Some(f) => {
            let total = estimate_total_params(profile).value;
            let observed = safetensors_total_bytes(files);
            fingerprint_matches_bytes(f, observed, total)
        },
        None => false,
    }
}

/// The quantization to report once a shard header may have been read: the
/// header's when it shows one, else the config's.
pub fn settle_fingerprint(
    config_fp: Option<QuantFingerprint>,
    header_dtypes: Option<Vec<(String, String)>>,
) -> (r: Option<QuantFingerprint>)
    requires
        header_dtypes matches Some(v) ==> tensor_names_distinct(v@),
    ensures
        match header_dtypes {
            Some(v) => match header_fingerprint(v@) {
                Some((scheme, evidence)) => r matches Some(f) && f.scheme == scheme && f.evidence@ == evidence
                    && f.source_type == SourceType::SafetensorsHeader,
                None => r == config_fp,
            },
            None => r == config_fp,
        },
{
    match header_dtypes {
        Some(v) => match from_safetensors_dtypes(&v) {
            Some(f) => Some(f),
            None => config_fp,
        },
        None => config_fp,
    }
}

pub fn sample_revision(artifact: &ModelArtifact) -> (r: String)
    ensures
        r@ == revision_of(artifact.source@, opt_view(artifact.commit_sha)),
{
    match &artifact.commit_sha {
        Some(c) => c.clone(),
        None => if str_eq(artifact.source.as_str(), "modelscope") {
            "master".to_string()
        } else {
            "main".to_string()
        },
    }
}

/// ASCII lower case of one character.
pub open spec fn ascii_lower(c: char) -> char {
    if 'A' <= c <= 'Z' {
        ((c as u32) + 32) as char
    } else {
        c
    }
}

/// The engine names SGLang, compared without surrounding white space and
/// ignoring ASCII case.
pub open spec fn is_sglang(engine: Seq<char>) -> bool {
    let t = trimmed(engine);
    t.len() == 6 && forall|i: int| 0 <= i < 6 ==> ascii_lower(#[trigger] t[i]) == "sglang"@[i]
}

fn is_sglang_exec(engine: &str) -> (b: bool)
    ensures
        b == is_sglang(engine@),
{
    let t = trim(engine);
    let chars = crate::text::chars_of(t);
    let target = crate::text::chars_of("sglang");
    proof {
        reveal_strlit("sglang");
    }
    if chars.len() != 6 {
        return false;
    }
    let mut i: usize = 0;
    while i < 6
        invariant
            i <= 6,
            chars@ == t@,
            t@ == trimmed(engine@),
            chars@.len() == 6,
            target@ == "sglang"@,
            "sglang"@.len() == 6,
            forall|j: int| 0 <= j < i ==> ascii_lower(#[trigger] chars@[j]) == "sglang"@[j],
        decreases 6 - i,
    {
        let c = chars[i];
        let lower = if 'A' <= c && c <= 'Z' {
            ((c as u32) + 32) as u8 as char
        } else {
            c
        };
        assert(lower == ascii_lower(c)) by {
            if 'A' <= c && c <= 'Z' {
                assert((c as u32) + 32 < 256);
            }
        }
        if lower != target[i] {
            assert(ascii_lower(t@[i as int]) != "sglang"@[i as int]);
            assert(trimmed(engine@) == t@);
            assert(!is_sglang(engine@));
            return false;
        }
        i = i + 1;
    }
    true
}

/// What an evaluation is asked for beyond the model and the GPU.
pub struct EvaluationOptions {
    pub gpu_count: Option<u64>,
    pub context_length: Option<u64>,
    pub refresh: bool,
    pub input_tokens: Option<u64>,
    pub output_tokens: Option<u64>,
}

impl EvaluationOptions {
    /// Nothing forced and nothing overridden.
    pub fn default() -> (o: Self)
        ensures
            o.gpu_count is None,
            o.context_length is None,
            !o.refresh,
            o.input_tokens is None,
            o.output_tokens is None,
    {
        EvaluationOptions { gpu_count: None, context_length: None, refresh: false, input_tokens: None, output_tokens: None }
    }
}

/// Everything an evaluation found. The GPU and the engine entry are those
/// of the catalogues it was given.
pub struct EvaluationReport<'a> {
    pub model_id: String,
    pub source: String,
    pub commit_sha: Option<String>,
    pub gpu: String,
    pub gpu_spec: Option<&'a GPUSpec>,
    pub gpu_error: Option<String>,
    pub engine: String,
    pub profile: ArchitectureProfile,
    pub weight: WeightReport,
    pub total_params_estimate: AnnotatedValue<u64>,
    pub reconciliation: ReconciliationReport,
    /// KV-cache bytes per request by context length, shortest first.
    pub kv_cache_by_context: Vec<(u64, AnnotatedValue<u64>)>,
    pub engine_match: Option<&'a EngineCompatEntry>,
    pub fleet: Option<FleetRecommendation>,
    pub generated_command: Option<String>,
    pub perf_input_tokens: Option<u64>,
    pub perf_output_tokens: Option<u64>,
}

/// The parameter estimate of a profile (zero without a shape).
pub open spec fn param_estimate(p: ArchitectureProfile) -> u64 {
    if has_shape(p) {
        total_params(p) as u64
    } else {
        0
    }
}

/// The KV entries at the context lengths `ctxs`, at two bytes per element.
pub open spec fn kv_entries_ok(kv: Seq<(u64, AnnotatedValue<u64>)>, p: ArchitectureProfile, ctxs: Seq<u64>) -> bool {
    &&& kv.len() == ctxs.len()
    &&& forall|i: int|
        0 <= i < kv.len() ==> {
            &&& (#[trigger] kv[i]).0 == ctxs[i]
            &&& kv[i].1.value == kv_cache_value(p, ctxs[i], 2)
            &&& kv[i].1.label == kv_cache_label(p, ctxs[i])
            &&& opt_string(kv[i].1.source) == Some(kv_cache_note(p, ctxs[i], 2, "B"@))
        }
}

/// The entries with a positive size, as (context, bytes).
pub open spec fn positive_pairs(kv: Seq<(u64, AnnotatedValue<u64>)>) -> Seq<(u64, u64)>
    decreases kv.len(),
{
    if kv.len() == 0 {
        Seq::empty()
    } else {
        let rest = positive_pairs(kv.drop_last());
        if kv.last().1.value > 0 {
            rest.push((kv.last().0, kv.last().1.value))
        } else {
            rest
        }
    }
}

/// The first option of a tier.
pub open spec fn option_of_tier(opts: Seq<FleetOption>, tier: Seq<char>) -> Option<FleetOption>
    decreases opts.len(),
{
    if opts.len() == 0 {
        None
    } else if opts[0].tier@ == tier {
        Some(opts[0])
    } else {
        option_of_tier(opts.drop_first(), tier)
    }
}

/// The GPU count a command is generated for: the forced one, else the
/// recommended tier's, else the first option's, else one.
pub open spec fn chosen_count(r: FleetRecommendation, forced: Option<u64>) -> u64 {
    match forced {
        Some(n) => n,
        None => {
            let by_tier = match r.best_tier {
                Some(t) => option_of_tier(r.options@, t@),
                None => None,
            };
            match by_tier {
                Some(o) => o.gpu_count,
                None => if r.options@.len() > 0 {
                    r.options@[0].gpu_count
                } else {
                    1
                },
            }
        },
    }
}

pub fn chosen_gpu_count(r: &FleetRecommendation, forced: Option<u64>) -> (n: u64)
    ensures
        n == chosen_count(*r, forced),
{
    match forced {
        Some(n) => {
            return n;
        },
        None => {},
    }
    match r.best_tier {
        Some(t) => {
            let mut i: usize = 0;
            assert(r.options@.subrange(0, r.options@.len() as int) =~= r.options@);
            while i < r.options.len()
                invariant
                    i <= r.options@.len(),
                    r.best_tier == Some(t),
                    forced is None,
                    option_of_tier(r.options@, t@) == option_of_tier(r.options@.subrange(i as int, r.options@.len() as int), t@),
                decreases r.options.len() - i,
            {
                let ghost rest = r.options@.subrange(i as int, r.options@.len() as int);
                assert(rest.drop_first() =~= r.options@.subrange(i + 1, r.options@.len() as int));
                assert(rest[0] == r.options@[i as int]);
                if str_eq(r.options[i].tier, t) {
                    return r.options[i].gpu_count;
                }
                i = i + 1;
            }
            assert(r.options@.subrange(i as int, r.options@.len() as int) =~= Seq::<FleetOption>::empty());
        },
        None => {},
    }
    if r.options.len() > 0 {
        r.options[0].gpu_count
    } else {
        1
    }
}

/// The layout a command is generated for: `n` GPUs laid out as the fleet
/// lays them out.
pub open spec fn parallelism_for(p: ArchitectureProfile, n: u64) -> Parallelism {
    Parallelism {
        total_gpus: n,
        tensor_parallel_size: layout(p, n as int).0 as u64,
        pipeline_parallel_size: layout(p, n as int).1 as u64,
    }
}

/// The launch command for the engine: SGLang's when named, else vLLM's.
pub open spec fn command_text(
    engine: Seq<char>,
    model_id: Seq<char>,
    p: ArchitectureProfile,
    par: Parallelism,
    entry: Option<&EngineCompatEntry>,
    max_model_len: Option<u64>,
) -> Seq<char> {
    let o = launch_options(None, None, None, None);
    if is_sglang(engine) {
        joined(sglang_lines(model_id, p, par, entry, max_model_len, o), " \\\n"@)
    } else {
        joined(vllm_lines(model_id, p, par, entry, max_model_len, o), " \\\n"@)
    }
}

/// The counts an evaluation computes fit in `u64`: the listing's weight
/// bytes, the parameter estimate, and the KV cache at every reported
/// context length and at the reference length.
pub open spec fn evaluation_fits(p: ArchitectureProfile, files: Seq<SiblingFile>, override_ctx: Option<u64>) -> bool {
    &&& params_fit(p)
    &&& safetensors_total(files) <= u64::MAX
    &&& kv_fits(p, KV_REFERENCE_CTX, 2)
    &&& forall|i: int| 0 <= i < context_lengths(p, override_ctx).len() ==> kv_fits(p, #[trigger] context_lengths(p, override_ctx)[i], 2)
}

/// Whether an evaluation's counts fit in `u64` (see `evaluation_fits`).
pub fn evaluation_fits_check(profile: &ArchitectureProfile, files: &Vec<SiblingFile>, override_ctx: Option<u64>) -> (b: bool)
    ensures
        b == evaluation_fits(*profile, files@, override_ctx),
{
    if !params_fit_check(profile) || !safetensors_total_fits(files) || !kv_fits_check(profile, KV_REFERENCE_CTX, 2) {
        return false;
    }
    let ctxs = select_context_lengths(profile, override_ctx);
    let mut i: usize = 0;
    while i < ctxs.len()
        invariant
            i <= ctxs@.len(),
            ctxs@ == context_lengths(*profile, override_ctx),
            forall|j: int| 0 <= j < i ==> kv_fits(*profile, #[trigger] ctxs@[j], 2),
        decreases ctxs.len() - i,
    {
        if !kv_fits_check(profile, ctxs[i], 2) {
            return false;
        }
        i = i + 1;
    }
    true
}

/// The estimate `estimate_total_params` gives for a profile.
pub open spec fn estimate_ok(av: AnnotatedValue<u64>, p: ArchitectureProfile) -> bool {
    &&& av.value == param_estimate(p)
    &&& av.label == (if has_shape(p) {
        Label::Estimated
    } else {
        Label::Unknown
    })
    &&& opt_string(av.source) == Some(
        if has_shape(p) {
            total_params_note(p)
        } else {
            "insufficient shape info in profile"@
        },
    )
}

pub open spec fn unwrap_or(o: Option<u64>, d: u64) -> u64 {
    match o {
        Some(x) => x,
        None => d,
    }
}

/// What `evaluate_artifact` reports for a fetched model whose profile,
/// declared fingerprint, GPU lookup and engine entry are given.
pub open spec fn evaluates(
    r: EvaluationReport,
    artifact: ModelArtifact,
    model_id: Seq<char>,
    gpu: Seq<char>,
    engine: Seq<char>,
    p: ArchitectureProfile,
    declared: Option<(crate::quant::QuantizationScheme, Seq<char>)>,
    gpu_lookup: Result<&GPUSpec, UnknownGPUError>,
    entry: Option<&EngineCompatEntry>,
    gpu_count: Option<u64>,
    context_length: Option<u64>,
    input_tokens: Option<u64>,
    output_tokens: Option<u64>,
) -> bool {
    let t = param_estimate(p);
    let observed = safetensors_total(artifact.siblings@);
    &&& r.model_id@ == model_id
    &&& r.source@ == artifact.source@
    &&& opt_view(r.commit_sha) == opt_view(artifact.commit_sha)
    &&& r.gpu@ == gpu
    &&& r.engine@ == engine
    &&& r.profile == p
    &&& estimate_ok(r.total_params_estimate, p)
    &&& analyzes(r.weight, artifact.siblings@, if t > 0 { Some(t) } else { None }, declared)
    &&& reconciles(r.reconciliation, observed as u64, if t > 0 { t } else { 1 }, declared)
    &&& kv_entries_ok(r.kv_cache_by_context@, p, context_lengths(p, context_length))
    &&& r.engine_match == entry
    &&& match gpu_lookup {
        Ok(g) => r.gpu_spec == Some(g) && r.gpu_error is None,
        Err(e) => r.gpu_spec is None && opt_view(r.gpu_error) == Some(e.message@),
    }
    &&& if gpu_lookup is Ok && observed > 0 {
        let g = gpu_lookup->Ok_0;
        let kv_ref = kv_cache_value(p, KV_REFERENCE_CTX, 2);
        match r.fleet {
            Some(f) => plan_ok(
            f,
            p,
            plan_inputs(
                observed as u64,
                (if kv_ref > 1 { kv_ref } else { 1 }) as u64,
                0,
                KV_REFERENCE_CTX,
                g.memory_gb,
                FleetMemoryOptions::default_spec(),
            ),
            gpu_count,
            positive_pairs(r.kv_cache_by_context@),
        ) && match r.generated_command {
                Some(c) => c@ == command_text(
                    engine,
                    model_id,
                    p,
                    parallelism_for(p, chosen_count(f, gpu_count)),
                    entry,
                    context_length,
                ),
                None => false,
            },
            None => false,
        }
    } else {
        r.fleet is None && r.generated_command is None
    }
    &&& r.perf_input_tokens == (if r.fleet is Some { Some(unwrap_or(input_tokens, 2000)) } else { None })
    &&& r.perf_output_tokens == (if r.fleet is Some { Some(unwrap_or(output_tokens, 512)) } else { None })
}

fn kv_entries(profile: &ArchitectureProfile, ctxs: &Vec<u64>) -> (kv: Vec<(u64, AnnotatedValue<u64>)>)
    requires
        forall|j: int| 0 <= j < ctxs@.len() ==> kv_fits(*profile, #[trigger] ctxs@[j], 2),
    ensures
        kv_entries_ok(kv@, *profile, ctxs@),
{
    let mut kv: Vec<(u64, AnnotatedValue<u64>)> = Vec::new();
    let mut i: usize = 0;
    while i < ctxs.len()
        invariant
            i <= ctxs@.len(),
            forall|j: int| 0 <= j < ctxs@.len() ==> kv_fits(*profile, #[trigger] ctxs@[j], 2),
            kv_entries_ok(kv@, *profile, ctxs@.subrange(0, i as int)),
        decreases ctxs.len() - i,
    {
        let c = ctxs[i];
        let v = compute_kv_cache_bytes(profile, c, 2);
        kv.push((c, v));
        i = i + 1;
        assert(kv_entries_ok(kv@, *profile, ctxs@.subrange(0, i as int))) by {
            assert forall|j: int| 0 <= j < kv@.len() implies {
                &&& (#[trigger] kv@[j]).0 == ctxs@.subrange(0, i as int)[j]
                &&& kv@[j].1.value == kv_cache_value(*profile, ctxs@.subrange(0, i as int)[j], 2)
                &&& kv@[j].1.label == kv_cache_label(*profile, ctxs@.subrange(0, i as int)[j])
                &&& opt_string(kv@[j].1.source) == Some(kv_cache_note(*profile, ctxs@.subrange(0, i as int)[j], 2, "B"@))
            } by {
                if j < i - 1 {
                    assert(ctxs@.subrange(0, i as int)[j] == ctxs@.subrange(0, i - 1)[j]);
                }
            }
        }
    }
    assert(ctxs@.subrange(0, ctxs@.len() as int) =~= ctxs@);
    kv
}

fn positive_entries(kv: &Vec<(u64, AnnotatedValue<u64>)>) -> (r: Vec<(u64, u64)>)
    ensures
        r@ == positive_pairs(kv@),
{
    let mut r: Vec<(u64, u64)> = Vec::new();
    let mut i: usize = 0;
    while i < kv.len()
        invariant
            i <= kv@.len(),
            r@ == positive_pairs(kv@.subrange(0, i as int)),
        decreases kv.len() - i,
    {
        assert(kv@.subrange(0, i + 1).drop_last() =~= kv@.subrange(0, i as int));
        if kv[i].1.value > 0 {
            r.push((kv[i].0, kv[i].1.value));
        }
        i = i + 1;
    }
    assert(kv@.subrange(0, kv@.len() as int) =~= kv@);
    r
}

/// Evaluates a fetched model on a GPU type for an engine: estimates the
/// parameters, reads the weights, reconciles the quantization, sizes the
/// KV cache, and, when the GPU is known and there are weights, plans the
/// fleet and generates the launch command. `profile` is the one detected
/// from the artifact's config.
pub fn evaluate_artifact<'a>(
    artifact: &ModelArtifact,
    model_id: &str,
    gpu: &str,
    engine: &str,
    profile: ArchitectureProfile,
    fingerprint: Option<&QuantFingerprint>,
    gpu_lookup: Result<&'a GPUSpec, UnknownGPUError>,
    engine_match: Option<&'a EngineCompatEntry>,
    options: &EvaluationOptions,
) -> (r: EvaluationReport<'a>)
    requires
        crate::detector::detects_profile(profile, artifact.config),
        evaluation_fits(profile, artifact.siblings@, options.context_length),
    ensures
        evaluates(
            r,
            *artifact,
            model_id@,
            gpu@,
            engine@,
            profile,
            declared_view(fingerprint),
            gpu_lookup,
            engine_match,
            options.gpu_count,
            options.context_length,
            options.input_tokens,
            options.output_tokens,
        ),
{
    let total_params_estimate = estimate_total_params(&profile);
    let t = total_params_estimate.value;
    let weight = analyze(&artifact.siblings, if t > 0 { Some(t) } else { None }, fingerprint);
    let observed = weight.total_bytes.value;
    let reconciliation = reconcile(observed, if t > 0 { t } else { 1 }, fingerprint);
    let ctxs = select_context_lengths(&profile, options.context_length);
    let kv = kv_entries(&profile, &ctxs);
    let (gpu_spec, gpu_error) = match gpu_lookup {
        Ok(g) => (Some(g), None),
        Err(e) => (None, Some(e.to_string())),
    };
    let mut fleet: Option<FleetRecommendation> = None;
    let mut generated_command: Option<String> = None;
    match gpu_spec {
        Some(g) => {
            if observed > 0 {
                let kv_ref = compute_kv_cache_bytes(&profile, KV_REFERENCE_CTX, 2);
                let kv_ref_bytes = if kv_ref.value > 1 {
                    kv_ref.value
                } else {
                    1
                };
                let pairs = positive_entries(&kv);
                let rec = plan(&profile, observed, kv_ref_bytes, KV_REFERENCE_CTX, g, options.gpu_count, pairs.as_slice());
                let n = chosen_gpu_count(&rec, options.gpu_count);
                let (tp, pp, _) = layout_for_count(&profile, n);
                let par = Parallelism { total_gpus: n, tensor_parallel_size: tp, pipeline_parallel_size: pp };
                let cmd = if is_sglang_exec(engine) {
                    generate_sglang_command(model_id, &profile, par, engine_match, options.context_length)
                } else {
                    generate_vllm_command(model_id, &profile, par, engine_match, options.context_length)
                };
                generated_command = Some(cmd);
                fleet = Some(rec);
            }
        },
        None => {},
    }
    let has_fleet = fleet.is_some();
    EvaluationReport {
        model_id: model_id.to_string(),
        source: artifact.source.clone(),
        commit_sha: artifact.commit_sha.clone(),
        gpu: gpu.to_string(),
        gpu_spec,
        gpu_error,
        engine: engine.to_string(),
        profile,
        weight,
        total_params_estimate,
        reconciliation,
        kv_cache_by_context: kv,
        engine_match,
        fleet,
        generated_command,
        perf_input_tokens: if has_fleet {
            Some(
                match options.input_tokens {
                    Some(x) => x,
                    None => 2000,
                },
            )
        } else {
            None
        },
        perf_output_tokens: if has_fleet {
            Some(
                match options.output_tokens {
                    Some(x) => x,
                    None => 512,
                },
            )
        } else {
            None
        },
    }
}

} // verus!
