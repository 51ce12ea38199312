//! Derivation traces: each reported number with its formula, inputs, steps
//! and source.
use vstd::prelude::*;
use crate::evaluation::EvaluationReport;
use crate::kv_cache::{
    common_ratio, common_ratio_exec, per_layer_per_token, ratio_units, ratio_units_exec,
};
use crate::labels::{AnnotatedValue, Label};
use crate::profile::{ArchitectureProfile, AttentionTraits, AttentionVariant};
use crate::hardware::GPUSpec;
use crate::layout::{ceil_div, ceil_div_u64, effective_kv_shards, effective_kv_shards_spec};
use crate::planner::{context_text, fmt_context, FleetOption, FleetRecommendation};
use crate::text::{debug_list, fmt_list, str_eq};
use crate::capped::{cap_add, cap_mul, cap_of};
use crate::labels::{label_name, opt_string};
use crate::quant::scheme_name;
use crate::reconciler::{percent, percent_text, ReconciliationCandidate};
use crate::concurrency::{bottleneck_name, ConcurrencyBounds};
use crate::text::{dec, fixed, fmt_fixed, fmt_u64, grouped, join, joined, lemma_views_push, u64_to_string, views};

verus! {

pub struct ExplainInput {
    pub name: String,
    pub value: String,
    pub label: String,
    pub note: String,
}

impl ExplainInput {
    pub fn new(name: &str, value: &str, label: &str) -> (r: Self)
        ensures
            r.name@ == name@,
            r.value@ == value@,
            r.label@ == label@,
            r.note@ == Seq::<char>::empty(),
    {
        ExplainInput {
            name: name.to_string(),
            value: value.to_string(),
            label: label.to_string(),
            note: String::new(),
        }
    }

    pub fn with_note(name: &str, value: &str, label: &str, note: &str) -> (r: Self)
        ensures
            r.name@ == name@,
            r.value@ == value@,
            r.label@ == label@,
            r.note@ == note@,
    {
        ExplainInput {
            name: name.to_string(),
            value: value.to_string(),
            label: label.to_string(),
            note: note.to_string(),
        }
    }
}

pub struct ExplainEntry {
    pub heading: String,
    pub formula: String,
    pub inputs: Vec<ExplainInput>,
    pub steps: Vec<String>,
    pub result: String,
    pub source: String,
    pub methodology_anchor: String,
}

impl ExplainEntry {
    /// An entry with a heading and formula and nothing else yet.
    pub fn new(heading: &str, formula: &str) -> (r: Self)
        ensures
            r.heading@ == heading@,
            r.formula@ == formula@,
            r.inputs@.len() == 0,
            r.steps@.len() == 0,
            r.result@.len() == 0,
            r.source@.len() == 0,
            r.methodology_anchor@.len() == 0,
    {
        ExplainEntry {
            heading: heading.to_string(),
            formula: formula.to_string(),
            inputs: Vec::new(),
            steps: Vec::new(),
            result: String::new(),
            source: String::new(),
            methodology_anchor: String::new(),
        }
    }
}

/// An input as (name, value, label, note).
pub open spec fn input_view(i: ExplainInput) -> (Seq<char>, Seq<char>, Seq<char>, Seq<char>) {
    (i.name@, i.value@, i.label@, i.note@)
}

pub open spec fn inputs_view(v: Seq<ExplainInput>) -> Seq<(Seq<char>, Seq<char>, Seq<char>, Seq<char>)> {
    v.map_values(|i: ExplainInput| input_view(i))
}

/// An entry as (heading, formula, inputs, steps, result, source, anchor).
pub open spec fn entry_view(e: ExplainEntry) -> (
    Seq<char>,
    Seq<char>,
    Seq<(Seq<char>, Seq<char>, Seq<char>, Seq<char>)>,
    Seq<Seq<char>>,
    Seq<char>,
    Seq<char>,
    Seq<char>,
) {
    (e.heading@, e.formula@, inputs_view(e.inputs@), views(e.steps@), e.result@, e.source@, e.methodology_anchor@)
}

pub open spec fn entries_view(v: Seq<ExplainEntry>) -> Seq<
    (
        Seq<char>,
        Seq<char>,
        Seq<(Seq<char>, Seq<char>, Seq<char>, Seq<char>)>,
        Seq<Seq<char>>,
        Seq<char>,
        Seq<char>,
        Seq<char>,
    ),
> {
    v.map_values(|e: ExplainEntry| entry_view(e))
}

/// Bytes as decimal gigabytes with two decimals.
pub open spec fn gb2(bytes: u64) -> Seq<char> {
    fixed(bytes as nat, 1_000_000_000, 2)
}

fn fmt_gb2(bytes: u64) -> (s: String)
    ensures
        s@ == gb2(bytes),
{
    fmt_fixed(bytes, 1_000_000_000, 2)
}

fn text_of(s: Seq<char>, v: &str) -> (r: String)
    requires
        v@ == s,
    ensures
        r@ == s,
{
    v.to_string()
}

fn push_text(v: &mut Vec<String>, s: String)
    ensures
        views(final(v)@) == views(old(v)@).push(s@),
{
    proof {
        lemma_views_push(v@, s);
    }
    v.push(s);
}

fn push_input(v: &mut Vec<ExplainInput>, i: ExplainInput)
    ensures
        inputs_view(final(v)@) == inputs_view(old(v)@).push(input_view(i)),
{
    v.push(i);
    assert(inputs_view(v@) =~= inputs_view(old(v)@).push(input_view(i)));
}

pub open spec fn sha_text(sha: Option<String>) -> Seq<char> {
    match sha {
        Some(s) => s@,
        None => "HEAD"@,
    }
}

/// The weight-bytes entry.
pub open spec fn weight_entry(r: EvaluationReport) -> (
    Seq<char>,
    Seq<char>,
    Seq<(Seq<char>, Seq<char>, Seq<char>, Seq<char>)>,
    Seq<Seq<char>>,
    Seq<char>,
    Seq<char>,
    Seq<char>,
) {
    let w = r.weight.total_bytes;
    (
        "Weight bytes (safetensors file sum)"@,
        "sum(file.size for file in model_source.file_metadata if file.endswith('.safetensors'))"@,
        seq![("model source API"@, "source="@ + r.source@ + ", sha="@ + sha_text(r.commit_sha), "[verified]"@, Seq::empty())],
        seq!["Raw value from API = "@ + grouped(w.value as nat) + " bytes"@, "= "@ + gb2(w.value) + " GB"@],
        grouped(w.value as nat) + " bytes [verified]"@,
        match opt_string(w.source) {
            Some(s) => s,
            None => "HF siblings API"@,
        },
        "#weight-bytes"@,
    )
}

fn weight_bytes(report: &EvaluationReport) -> (e: ExplainEntry)
    ensures
        entry_view(e) == weight_entry(*report),
{
    let w = &report.weight.total_bytes;
    let mut e = ExplainEntry::new(
        "Weight bytes (safetensors file sum)",
        "sum(file.size for file in model_source.file_metadata if file.endswith('.safetensors'))",
    );
    let mut value = "source=".to_string();
    value.append(report.source.as_str());
    value.append(", sha=");
    match &report.commit_sha {
        Some(sha) => value.append(sha.as_str()),
        None => value.append("HEAD"),
    }
    push_input(&mut e.inputs, ExplainInput::new("model source API", value.as_str(), "[verified]"));
    let mut s1 = "Raw value from API = ".to_string();
    s1.append(fmt_u64(w.value).as_str());
    s1.append(" bytes");
    push_text(&mut e.steps, s1);
    let mut s2 = "= ".to_string();
    s2.append(fmt_gb2(w.value).as_str());
    s2.append(" GB");
    push_text(&mut e.steps, s2);
    let mut result = fmt_u64(w.value);
    result.append(" bytes [verified]");
    e.result = result;
    e.source = match &w.source {
        Some(s) => s.clone(),
        None => "HF siblings API".to_string(),
    };
    e.methodology_anchor = "#weight-bytes".to_string();
    proof {
        reveal_strlit("");
        assert(inputs_view(e.inputs@) =~= seq![("model source API"@, value@, "[verified]"@, Seq::empty())]);
        assert(views(e.steps@) =~= seq![s1@, s2@]);
    }
    e
}

/// A scheme name left-aligned in sixteen columns.
pub open spec fn padded16(name: Seq<char>) -> Seq<char> {
    if name.len() >= 16 {
        name
    } else {
        name + Seq::new((16 - name.len()) as nat, |i: int| ' ')
    }
}

fn pad16(name: &str) -> (s: String)
    ensures
        s@ == padded16(name@),
{
    let mut s = name.to_string();
    let n = name.unicode_len();
    if n < 16 {
        let mut k: usize = n;
        while k < 16
            invariant
                n <= k <= 16,
                n == name@.len(),
                s@ == name@ + Seq::new((k - n) as nat, |i: int| ' '),
            decreases 16 - k,
        {
            s.push(' ');
            k = k + 1;
            assert(s@ =~= name@ + Seq::new((k - n) as nat, |i: int| ' '));
        }
    }
    s
}

/// One row of the candidate table.
pub open spec fn candidate_row(c: ReconciliationCandidate) -> Seq<char> {
    "      "@ + padded16(scheme_name(c.scheme)) + " predicted="@ + gb2(c.predicted_bytes) + " GB  error="@
        + percent_text(c) + "%"@
}

pub open spec fn candidate_rows(cs: Seq<ReconciliationCandidate>) -> Seq<Seq<char>> {
    cs.map_values(|c: ReconciliationCandidate| candidate_row(c))
}

/// The quantization entry, when there are candidates.
pub open spec fn quantization_entries(r: EvaluationReport) -> Seq<
    (
        Seq<char>,
        Seq<char>,
        Seq<(Seq<char>, Seq<char>, Seq<char>, Seq<char>)>,
        Seq<Seq<char>>,
        Seq<char>,
        Seq<char>,
        Seq<char>,
    ),
> {
    let rec = r.reconciliation;
    let cs = rec.candidates@;
    if cs.len() == 0 {
        Seq::empty()
    } else {
        let shown = if cs.len() > 6 { cs.subrange(0, 6) } else { cs };
        seq![
            (
                "Quantization scheme (reconciliation)"@,
                "best_match = argmin_scheme |observed_bytes - scheme.bpp x total_params|"@,
                seq![
                    ("observed_bytes"@, grouped(rec.observed_bytes as nat), "[verified]"@, Seq::empty()),
                    (
                        "total_params"@,
                        grouped(rec.total_params as nat),
                        "[estimated]"@,
                        "from architecture formula - see '#params-estimate' entry below"@,
                    ),
                ],
                seq![
                    "For each known quantization scheme, predict total bytes = bpp x params:"@,
                    joined(candidate_rows(shown), "\n"@),
                    "Winner: "@ + scheme_name(cs[0].scheme) + " at "@ + percent_text(cs[0]) + "% error"@,
                ],
                scheme_name(rec.best.value) + " ["@ + label_name(rec.best.label) + "]"@,
                "Nearest-anchor match against known bytes-per-param values"@,
                "#quantization-scheme"@,
            ),
        ]
    }
}

fn quantization(report: &EvaluationReport, entries: &mut Vec<ExplainEntry>)
    ensures
        entries_view(final(entries)@) == entries_view(old(entries)@) + quantization_entries(*report),
{
    let rec = &report.reconciliation;
    if rec.candidates.len() == 0 {
        assert(entries_view(entries@) =~= entries_view(entries@) + quantization_entries(*report));
        return;
    }
    let n: usize = if rec.candidates.len() > 6 {
        6
    } else {
        rec.candidates.len()
    };
    let ghost shown = if rec.candidates@.len() > 6 { rec.candidates@.subrange(0, 6) } else { rec.candidates@ };
    assert(shown =~= rec.candidates@.subrange(0, n as int));
    let mut rows: Vec<String> = Vec::new();
    let mut i: usize = 0;
    while i < n
        invariant
            i <= n,
            n <= rec.candidates@.len(),
            views(rows@) == candidate_rows(rec.candidates@.subrange(0, i as int)),
        decreases n - i,
    {
        let c = &rec.candidates[i];
        let mut row = "      ".to_string();
        row.append(pad16(c.scheme.as_str()).as_str());
        row.append(" predicted=");
        row.append(fmt_gb2(c.predicted_bytes).as_str());
        row.append(" GB  error=");
        row.append(percent(c).as_str());
        row.append("%");
        proof {
            lemma_views_push(rows@, row);
            assert(candidate_rows(rec.candidates@.subrange(0, i + 1)) =~= candidate_rows(
                rec.candidates@.subrange(0, i as int),
            ).push(candidate_row(rec.candidates@[i as int])));
        }
        rows.push(row);
        i = i + 1;
    }
    let best = &rec.candidates[0];
    let mut e = ExplainEntry::new(
        "Quantization scheme (reconciliation)",
        "best_match = argmin_scheme |observed_bytes - scheme.bpp x total_params|",
    );
    push_input(&mut e.inputs, ExplainInput::new("observed_bytes", fmt_u64(rec.observed_bytes).as_str(), "[verified]"));
    push_input(
        &mut e.inputs,
        ExplainInput::with_note(
            "total_params",
            fmt_u64(rec.total_params).as_str(),
            "[estimated]",
            "from architecture formula - see '#params-estimate' entry below",
        ),
    );
    push_text(&mut e.steps, "For each known quantization scheme, predict total bytes = bpp x params:".to_string());
    push_text(&mut e.steps, join(&rows, "\n"));
    let mut winner = "Winner: ".to_string();
    winner.append(best.scheme.as_str());
    winner.append(" at ");
    winner.append(percent(best).as_str());
    winner.append("% error");
    push_text(&mut e.steps, winner);
    let mut result = rec.best.value.to_string();
    result.append(" [");
    result.append(rec.best.label.as_str());
    result.append("]");
    e.result = result;
    e.source = "Nearest-anchor match against known bytes-per-param values".to_string();
    e.methodology_anchor = "#quantization-scheme".to_string();
    proof {
        reveal_strlit("");
        assert(inputs_view(e.inputs@) =~= quantization_entries(*report)[0].2);
        assert(views(e.steps@) =~= quantization_entries(*report)[0].3);
    }
    entries.push(e);
    assert(entries_view(entries@) =~= entries_view(old(entries)@) + quantization_entries(*report));
}

/// A context length in short form: whole millions as `M`, else whole
/// 1024-token blocks as `K`.
pub open spec fn ctx_short(ctx: u64) -> Seq<char> {
    if ctx >= 1_000_000 {
        dec((ctx / 1_000_000) as nat) + "M"@
    } else if ctx >= 1024 {
        dec((ctx / 1024) as nat) + "K"@
    } else {
        dec(ctx as nat)
    }
}

fn fmt_ctx(ctx: u64) -> (s: String)
    ensures
        s@ == ctx_short(ctx),
{
    let mut s = if ctx >= 1_000_000 {
        u64_to_string(ctx / 1_000_000)
    } else if ctx >= 1024 {
        u64_to_string(ctx / 1024)
    } else {
        u64_to_string(ctx)
    };
    if ctx >= 1_000_000 {
        s.append("M");
    } else if ctx >= 1024 {
        s.append("K");
    }
    s
}

/// The average kept fraction of the ratios can be written exactly: its
/// denominator over their common multiple fits in 64 bits.
pub open spec fn avg_exact(r: Seq<u64>) -> bool {
    r.len() > 0 && common_ratio(r) * r.len() <= u64::MAX
}

/// The average of `1/ratio` (a zero ratio counting as one) to four decimals.
pub open spec fn avg_keep_text(r: Seq<u64>) -> Seq<char> {
    fixed(ratio_units(r, common_ratio(r)) as nat, (common_ratio(r) * r.len()) as nat, 4)
}

pub open spec fn mla_cached(a: AttentionTraits) -> bool {
    a.variant == AttentionVariant::Mla && a.kv_lora_rank is Some && a.kv_lora_rank->0 > 0
}

pub open spec fn csa_shown(a: AttentionTraits) -> bool {
    a.variant == AttentionVariant::CsaHca && a.compress_ratios is Some && avg_exact(a.compress_ratios->0@)
}

pub open spec fn unwrap0(o: Option<u64>) -> u64 {
    match o {
        Some(x) => x,
        None => 0,
    }
}

/// The uncompressed cache of an entry at `ctx` fits in `u64`.
pub open spec fn baseline_fits(p: ArchitectureProfile, a: AttentionTraits, ctx: u64) -> bool {
    per_layer_per_token(a, 2) * ctx * p.num_hidden_layers <= u64::MAX
}

/// The KV-cache entry of one context length.
pub open spec fn kv_explain(p: ArchitectureProfile, a: AttentionTraits, ctx: u64, v: AnnotatedValue<u64>) -> (
    Seq<char>,
    Seq<char>,
    Seq<(Seq<char>, Seq<char>, Seq<char>, Seq<char>)>,
    Seq<Seq<char>>,
    Seq<char>,
    Seq<char>,
    Seq<char>,
) {
    let per = per_layer_per_token(a, 2);
    let base = per * ctx * p.num_hidden_layers;
    let shape = if mla_cached(a) {
        seq![
            ("kv_lora_rank"@, dec(unwrap0(a.kv_lora_rank) as nat), "[verified]"@, Seq::empty()),
            ("qk_rope_head_dim"@, dec(unwrap0(a.qk_rope_head_dim) as nat), "[verified]"@, Seq::empty()),
        ]
    } else {
        seq![
            ("num_kv_heads"@, dec(a.num_kv_heads as nat), "[verified]"@, Seq::empty()),
            ("head_dim"@, dec(a.head_dim as nat), "[verified]"@, Seq::empty()),
        ]
    };
    let common = seq![
        ("dtype_bytes"@, "2"@, "[verified]"@, "BF16/FP16"@),
        ("seq_len"@, grouped(ctx as nat), "[verified]"@, Seq::empty()),
        ("num_layers"@, dec(p.num_hidden_layers as nat), "[verified]"@, Seq::empty()),
    ];
    let formula = if mla_cached(a) {
        "per_tok_per_layer = (kv_lora_rank + qk_rope_head_dim) x dtype_bytes   (MLA: latent KV plus decoupled RoPE key)"@
    } else {
        "per_tok_per_layer = 2 x num_kv_heads x head_dim x dtype_bytes   (standard attention)"@
    };
    let head_steps = seq![
        "per_tok_per_layer = "@ + grouped(per as nat) + " bytes"@,
        "baseline = per_tok_per_layer x seq_len x num_layers = "@ + grouped(base as nat) + " bytes"@,
    ];
    let (formula2, inputs, steps) = if csa_shown(a) {
        let r = a.compress_ratios->0@;
        (
            formula + "\napply_csa_hca: baseline x avg(1/r_i for r_i in compress_ratios, 0 = keep-all=1)"@,
            shape + common + seq![
                (
                    "compress_ratios"@,
                    "len="@ + dec(r.len()) + " (avg keep-fraction="@ + avg_keep_text(r) + ")"@,
                    "[verified]"@,
                    Seq::empty(),
                ),
            ],
            head_steps + seq![
                "avg_keep_fraction = "@ + avg_keep_text(r),
                "result = baseline x avg_keep_fraction = "@ + grouped(v.value as nat) + " bytes"@,
            ],
        )
    } else {
        (formula, shape + common, head_steps.push("result = baseline = "@ + grouped(v.value as nat) + " bytes"@))
    };
    (
        "KV cache @ "@ + ctx_short(ctx) + " context"@,
        formula2,
        inputs,
        steps,
        grouped(v.value as nat) + " bytes = "@ + gb2(v.value) + " GB ["@ + label_name(v.label) + "]"@,
        "DeepSeek-V2 paper (MLA); DeepSeek-V4 tech report (CSA+HCA); standard attention formula per Attention Is All You Need (Vaswani 2017)"@,
        "#kv-cache-per-request"@,
    )
}

/// The KV-cache entries: one per reported context length with a non-zero
/// size, when the profile has attention traits.
pub open spec fn kv_explain_entries(p: ArchitectureProfile, kv: Seq<(u64, AnnotatedValue<u64>)>) -> Seq<
    (
        Seq<char>,
        Seq<char>,
        Seq<(Seq<char>, Seq<char>, Seq<char>, Seq<char>)>,
        Seq<Seq<char>>,
        Seq<char>,
        Seq<char>,
        Seq<char>,
    ),
>
    decreases kv.len(),
{
    if kv.len() == 0 || p.attention is None {
        Seq::empty()
    } else {
        let rest = kv_explain_entries(p, kv.drop_last());
        let (ctx, v) = kv.last();
        if v.value == 0 {
            rest
        } else {
            rest.push(kv_explain(p, p.attention->0, ctx, v))
        }
    }
}

fn per_token_bytes(a: &AttentionTraits) -> (per: u64)
    requires
        per_layer_per_token(*a, 2) <= u64::MAX,
    ensures
        per == per_layer_per_token(*a, 2),
{
    let mla = match a.variant {
        AttentionVariant::Mla => true,
        _ => false,
    } && match a.kv_lora_rank {
        Some(k) => k > 0,
        None => false,
    };
    if mla {
        let k = match a.kv_lora_rank {
            Some(k) => k,
            None => 0,
        };
        let r = match a.qk_rope_head_dim {
            Some(r) => r,
            None => 0,
        };
        (k + r) * 2
    } else if a.num_kv_heads == 0 || a.head_dim == 0 {
        assert(2 * a.num_kv_heads * a.head_dim * 2 == 0) by (nonlinear_arith)
            requires
                a.num_kv_heads == 0 || a.head_dim == 0,
        ;
        0
    } else {
        assert(2 * a.num_kv_heads <= 2 * a.num_kv_heads * a.head_dim <= 2 * a.num_kv_heads * a.head_dim * 2)
            by (nonlinear_arith)
            requires
                a.num_kv_heads >= 1,
                a.head_dim >= 1,
        ;
        2 * a.num_kv_heads * a.head_dim * 2
    }
}

fn kv_entry(p: &ArchitectureProfile, a: &AttentionTraits, ctx: u64, v: &AnnotatedValue<u64>) -> (e: ExplainEntry)
    requires
        baseline_fits(*p, *a, ctx),
        ctx >= 1,
        p.num_hidden_layers >= 1,
    ensures
        entry_view(e) == kv_explain(*p, *a, ctx, *v),
{
    let ghost per_v = per_layer_per_token(*a, 2);
    proof {
        assert(per_v >= 0) by (nonlinear_arith)
            requires
                per_v == (if mla_cached(*a) {
                    (a.kv_lora_rank->0 + crate::kv_cache::rope_dim(*a)) * 2
                } else {
                    2 * a.num_kv_heads * a.head_dim * 2
                }),
                crate::kv_cache::rope_dim(*a) >= 0,
        ;
        assert(per_v <= per_v * ctx <= per_v * ctx * p.num_hidden_layers) by (nonlinear_arith)
            requires
                per_v >= 0,
                ctx >= 1,
                p.num_hidden_layers >= 1,
        ;
    }
    let per = per_token_bytes(a);
    let base = per * ctx * p.num_hidden_layers;
    let mla = match a.variant {
        AttentionVariant::Mla => true,
        _ => false,
    } && match a.kv_lora_rank {
        Some(k) => k > 0,
        None => false,
    };
    let mut e = if mla {
        ExplainEntry::new(
            "",
            "per_tok_per_layer = (kv_lora_rank + qk_rope_head_dim) x dtype_bytes   (MLA: latent KV plus decoupled RoPE key)",
        )
    } else {
        ExplainEntry::new("", "per_tok_per_layer = 2 x num_kv_heads x head_dim x dtype_bytes   (standard attention)")
    };
    if mla {
        let k = match a.kv_lora_rank {
            Some(k) => k,
            None => 0,
        };
        let r = match a.qk_rope_head_dim {
            Some(r) => r,
            None => 0,
        };
        push_input(&mut e.inputs, ExplainInput::new("kv_lora_rank", u64_to_string(k).as_str(), "[verified]"));
        push_input(&mut e.inputs, ExplainInput::new("qk_rope_head_dim", u64_to_string(r).as_str(), "[verified]"));
    } else {
        push_input(&mut e.inputs, ExplainInput::new("num_kv_heads", u64_to_string(a.num_kv_heads).as_str(), "[verified]"));
        push_input(&mut e.inputs, ExplainInput::new("head_dim", u64_to_string(a.head_dim).as_str(), "[verified]"));
    }
    push_input(&mut e.inputs, ExplainInput::with_note("dtype_bytes", "2", "[verified]", "BF16/FP16"));
    push_input(&mut e.inputs, ExplainInput::new("seq_len", fmt_u64(ctx).as_str(), "[verified]"));
    push_input(&mut e.inputs, ExplainInput::new("num_layers", u64_to_string(p.num_hidden_layers).as_str(), "[verified]"));
    let mut s1 = "per_tok_per_layer = ".to_string();
    s1.append(fmt_u64(per).as_str());
    s1.append(" bytes");
    push_text(&mut e.steps, s1);
    let mut s2 = "baseline = per_tok_per_layer x seq_len x num_layers = ".to_string();
    s2.append(fmt_u64(base).as_str());
    s2.append(" bytes");
    push_text(&mut e.steps, s2);
    let shown: Option<String> = match (&a.variant, &a.compress_ratios) {
        (AttentionVariant::CsaHca, Some(r)) => {
            if r.len() == 0 {
                None
            } else {
                proof {
                    crate::kv_cache::lemma_common_ratio_pos(r@);
                }
                let cm = common_ratio_exec(r);
                let fits = match cm {
                    Some(m) => m.checked_mul(r.len() as u64).is_some(),
                    None => false,
                };
                if !fits {
                    proof {
                        if cm is None {
                            assert(common_ratio(r@) * r@.len() > u64::MAX) by (nonlinear_arith)
                                requires
                                    common_ratio(r@) > u64::MAX,
                                    r@.len() >= 1,
                            ;
                        }
                    }
                    None
                } else {
                    let m = cm.unwrap();
                    let units = ratio_units_exec(r, m);
                    let den: u64 = m * (r.len() as u64);
                    assert(den > 0) by (nonlinear_arith)
                        requires
                            den == m * r.len(),
                            m >= 1,
                            r.len() >= 1,
                    ;
                    Some(fmt_fixed(units, den, 4))
                }
            }
        },
        _ => None,
    };
    match shown {
        Some(avg) => {
            let n = match &a.compress_ratios {
                Some(r) => r.len(),
                None => 0,
            };
            e.formula.append("\napply_csa_hca: baseline x avg(1/r_i for r_i in compress_ratios, 0 = keep-all=1)");
            let mut value = "len=".to_string();
            value.append(u64_to_string(n as u64).as_str());
            value.append(" (avg keep-fraction=");
            value.append(avg.as_str());
            value.append(")");
            push_input(&mut e.inputs, ExplainInput::new("compress_ratios", value.as_str(), "[verified]"));
            let mut s3 = "avg_keep_fraction = ".to_string();
            s3.append(avg.as_str());
            push_text(&mut e.steps, s3);
            let mut s4 = "result = baseline x avg_keep_fraction = ".to_string();
            s4.append(fmt_u64(v.value).as_str());
            s4.append(" bytes");
            push_text(&mut e.steps, s4);
        },
        None => {
            let mut s3 = "result = baseline = ".to_string();
            s3.append(fmt_u64(v.value).as_str());
            s3.append(" bytes");
            push_text(&mut e.steps, s3);
        },
    }
    let mut heading = "KV cache @ ".to_string();
    heading.append(fmt_ctx(ctx).as_str());
    heading.append(" context");
    e.heading = heading;
    let mut result = fmt_u64(v.value);
    result.append(" bytes = ");
    result.append(fmt_gb2(v.value).as_str());
    result.append(" GB [");
    result.append(v.label.as_str());
    result.append("]");
    e.result = result;
    e.source = "DeepSeek-V2 paper (MLA); DeepSeek-V4 tech report (CSA+HCA); standard attention formula per Attention Is All You Need (Vaswani 2017)".to_string();
    e.methodology_anchor = "#kv-cache-per-request".to_string();
    proof {
        let want = kv_explain(*p, *a, ctx, *v);
        assert(inputs_view(e.inputs@) =~= want.2);
        assert(views(e.steps@) =~= want.3);
        assert(e.formula@ =~= want.1);
    }
    e
}

pub open spec fn sat_sub(a: u64, b: u64) -> u64 {
    if a >= b {
        (a - b) as u64
    } else {
        0
    }
}

/// How many concurrent requests a tier is sized for.
pub open spec fn tier_criterion(tier: Seq<char>) -> nat {
    if tier == "dev"@ {
        8
    } else if tier == "prod"@ {
        16
    } else {
        1
    }
}

pub open spec fn layout_text(o: FleetOption) -> Seq<char> {
    if o.pipeline_parallel_size > 1 {
        "TP"@ + dec(o.tensor_parallel_size as nat) + " x PP"@ + dec(o.pipeline_parallel_size as nat) + " ("@
            + dec(o.node_count as nat) + " nodes)"@
    } else {
        "TP"@ + dec(o.tensor_parallel_size as nat)
    }
}

/// The KV shards of a layout as the fleet counts them, at most `u64::MAX`.
pub open spec fn shards_of(p: ArchitectureProfile, n: u64) -> u64 {
    let s = effective_kv_shards_spec(p, n as int);
    if s > u64::MAX {
        u64::MAX
    } else {
        s as u64
    }
}

/// The entry of one fleet tier.
pub open spec fn fleet_explain(r: EvaluationReport, f: FleetRecommendation, g: GPUSpec, o: FleetOption) -> (
    Seq<char>,
    Seq<char>,
    Seq<(Seq<char>, Seq<char>, Seq<char>, Seq<char>)>,
    Seq<Seq<char>>,
    Seq<char>,
    Seq<char>,
    Seq<char>,
) {
    let headroom = sat_sub(sat_sub(o.usable_bytes_per_gpu, o.weight_bytes_per_gpu), o.activation_bytes_per_request_per_gpu);
    let shards = shards_of(r.profile, o.gpu_count);
    let kv_per_gpu = ceil_div(o.kv_bytes_per_request as int, (if shards > 1 { shards } else { 1 }) as int);
    let refctx = context_text(o.kv_reference_context_tokens);
    let total = r.weight.total_bytes.value;
    let steps = seq![
        "per-GPU HBM usable (HBM - reserve) = "@ + grouped(o.usable_bytes_per_gpu as nat) + " bytes; reserve = "@
            + grouped(o.reserved_bytes_per_gpu as nat) + " bytes"@,
        "parallel layout = "@ + layout_text(o),
        "resident weight per GPU = "@ + grouped(o.weight_bytes_per_gpu as nat) + " bytes"@,
        "activation working set per GPU = "@ + grouped(o.activation_bytes_per_request_per_gpu as nat) + " bytes"@,
        "total model weight bytes = "@ + grouped(total as nat) + " (observed safetensors), allocated over "@
            + dec(o.gpu_count as nat) + " GPUs"@,
        "per-GPU KV @ "@ + refctx + " = total_KV / effective_kv_shards = "@ + grouped(o.kv_bytes_per_request as nat)
            + " / "@ + dec(shards as nat) + " = "@ + grouped(kv_per_gpu as nat) + " bytes"@,
        "KV headroom per GPU = usable - resident_weight - activation = "@ + grouped(headroom as nat) + " bytes ("@
            + gb2(headroom) + " GB)"@,
        "tier criterion: headroom >= "@ + dec(tier_criterion(o.tier@)) + " x per_gpu_kv_per_request_at_"@ + refctx,
        "selected smallest candidate satisfying the criterion: "@ + dec(o.gpu_count as nat) + " GPUs ("@
            + layout_text(o) + ")"@,
    ];
    (
        "Fleet tier: "@ + o.tier@ + " ("@ + dec(o.gpu_count as nat) + " GPUs)"@,
        "smallest TP/PP candidate where resident_weight_per_gpu + activation_working_set_per_gpu + concurrent x per_gpu_kv_per_request <= usable_per_gpu"@,
        seq![
            ("total_weight_bytes"@, grouped(total as nat), "[verified]"@, Seq::empty()),
            (
                "valid_TP_sizes"@,
                debug_list(f.valid_tp_sizes@),
                "[estimated]"@,
                "divisors of num_attention_heads capped at 8 (single node)"@,
            ),
            ("selected_layout"@, layout_text(o), "[estimated]"@, Seq::empty()),
            ("GPU memory_gb"@, dec(g.memory_gb as nat) + " GB"@, "[verified]"@, Seq::empty()),
        ],
        if o.fits {
            steps
        } else {
            steps.push(
                "NOTE: does not fit the criterion - the chosen "@ + dec(o.gpu_count as nat)
                    + " is the best available."@,
            )
        },
        dec(o.gpu_count as nat) + " GPUs, fit="@ + (if o.fits { "true"@ } else { "false"@ }),
        "vLLM GPU memory profiling reserves weights, peak activation, and KV cache inside gpu_memory_utilization; SGLang memory pool similarly budgets static weights plus KV cache"@,
        "#tppp-aware-kv-sharding"@,
    )
}

fn layout_string(o: &FleetOption) -> (s: String)
    ensures
        s@ == layout_text(*o),
{
    let mut s = "TP".to_string();
    s.append(u64_to_string(o.tensor_parallel_size).as_str());
    if o.pipeline_parallel_size > 1 {
        s.append(" x PP");
        s.append(u64_to_string(o.pipeline_parallel_size).as_str());
        s.append(" (");
        s.append(u64_to_string(o.node_count).as_str());
        s.append(" nodes)");
    }
    s
}

fn fleet_entry(report: &EvaluationReport, f: &FleetRecommendation, g: &GPUSpec, o: &FleetOption) -> (e: ExplainEntry)
    ensures
        entry_view(e) == fleet_explain(*report, *f, *g, *o),
{
    let ghost want = fleet_explain(*report, *f, *g, *o);
    let h1: u64 = if o.usable_bytes_per_gpu >= o.weight_bytes_per_gpu {
        o.usable_bytes_per_gpu - o.weight_bytes_per_gpu
    } else {
        0
    };
    let headroom: u64 = if h1 >= o.activation_bytes_per_request_per_gpu {
        h1 - o.activation_bytes_per_request_per_gpu
    } else {
        0
    };
    let shards = effective_kv_shards(&report.profile, o.gpu_count);
    let kv_per_gpu = ceil_div_u64(o.kv_bytes_per_request, if shards > 1 {
        shards
    } else {
        1
    });
    let refctx = fmt_context(o.kv_reference_context_tokens);
    let layout = layout_string(o);
    let total = report.weight.total_bytes.value;
    let crit: u64 = if str_eq(o.tier, "dev") {
        8
    } else if str_eq(o.tier, "prod") {
        16
    } else {
        1
    };
    let mut steps: Vec<String> = Vec::new();
    let mut s1 = "per-GPU HBM usable (HBM - reserve) = ".to_string();
    s1.append(fmt_u64(o.usable_bytes_per_gpu).as_str());
    s1.append(" bytes; reserve = ");
    s1.append(fmt_u64(o.reserved_bytes_per_gpu).as_str());
    s1.append(" bytes");
    push_text(&mut steps, s1);
    let mut s2 = "parallel layout = ".to_string();
    s2.append(layout.as_str());
    push_text(&mut steps, s2);
    let mut s3 = "resident weight per GPU = ".to_string();
    s3.append(fmt_u64(o.weight_bytes_per_gpu).as_str());
    s3.append(" bytes");
    push_text(&mut steps, s3);
    let mut s4 = "activation working set per GPU = ".to_string();
    s4.append(fmt_u64(o.activation_bytes_per_request_per_gpu).as_str());
    s4.append(" bytes");
    push_text(&mut steps, s4);
    let mut s5 = "total model weight bytes = ".to_string();
    s5.append(fmt_u64(total).as_str());
    s5.append(" (observed safetensors), allocated over ");
    s5.append(u64_to_string(o.gpu_count).as_str());
    s5.append(" GPUs");
    push_text(&mut steps, s5);
    let mut s6 = "per-GPU KV @ ".to_string();
    s6.append(refctx.as_str());
    s6.append(" = total_KV / effective_kv_shards = ");
    s6.append(fmt_u64(o.kv_bytes_per_request).as_str());
    s6.append(" / ");
    s6.append(u64_to_string(shards).as_str());
    s6.append(" = ");
    s6.append(fmt_u64(kv_per_gpu).as_str());
    s6.append(" bytes");
    push_text(&mut steps, s6);
    let mut s7 = "KV headroom per GPU = usable - resident_weight - activation = ".to_string();
    s7.append(fmt_u64(headroom).as_str());
    s7.append(" bytes (");
    s7.append(fmt_gb2(headroom).as_str());
    s7.append(" GB)");
    push_text(&mut steps, s7);
    let mut s8 = "tier criterion: headroom >= ".to_string();
    s8.append(u64_to_string(crit).as_str());
    s8.append(" x per_gpu_kv_per_request_at_");
    s8.append(refctx.as_str());
    push_text(&mut steps, s8);
    let mut s9 = "selected smallest candidate satisfying the criterion: ".to_string();
    s9.append(u64_to_string(o.gpu_count).as_str());
    s9.append(" GPUs (");
    s9.append(layout.as_str());
    s9.append(")");
    push_text(&mut steps, s9);
    if !o.fits {
        let mut s10 = "NOTE: does not fit the criterion - the chosen ".to_string();
        s10.append(u64_to_string(o.gpu_count).as_str());
        s10.append(" is the best available.");
        push_text(&mut steps, s10);
    }
    let mut heading = "Fleet tier: ".to_string();
    heading.append(o.tier);
    heading.append(" (");
    heading.append(u64_to_string(o.gpu_count).as_str());
    heading.append(" GPUs)");
    let mut e = ExplainEntry::new(
        "",
        "smallest TP/PP candidate where resident_weight_per_gpu + activation_working_set_per_gpu + concurrent x per_gpu_kv_per_request <= usable_per_gpu",
    );
    e.heading = heading;
    push_input(&mut e.inputs, ExplainInput::new("total_weight_bytes", fmt_u64(total).as_str(), "[verified]"));
    push_input(
        &mut e.inputs,
        ExplainInput::with_note(
            "valid_TP_sizes",
            fmt_list(&f.valid_tp_sizes).as_str(),
            "[estimated]",
            "divisors of num_attention_heads capped at 8 (single node)",
        ),
    );
    push_input(&mut e.inputs, ExplainInput::new("selected_layout", layout.as_str(), "[estimated]"));
    let mut mem = u64_to_string(g.memory_gb);
    mem.append(" GB");
    push_input(&mut e.inputs, ExplainInput::new("GPU memory_gb", mem.as_str(), "[verified]"));
    e.steps = steps;
    let mut result = u64_to_string(o.gpu_count);
    result.append(" GPUs, fit=");
    result.append(if o.fits {
        "true"
    } else {
        "false"
    });
    e.result = result;
    e.source = "vLLM GPU memory profiling reserves weights, peak activation, and KV cache inside gpu_memory_utilization; SGLang memory pool similarly budgets static weights plus KV cache".to_string();
    e.methodology_anchor = "#tppp-aware-kv-sharding".to_string();
    proof {
        reveal_strlit("dev");
        reveal_strlit("prod");
        assert(crit == tier_criterion(o.tier@));
        assert(inputs_view(e.inputs@) =~= want.2);
        assert(views(e.steps@) =~= want.3);
    }
    e
}

/// The fleet entries: one per tier, when there is a fleet and a GPU.
pub open spec fn fleet_entries(r: EvaluationReport) -> Seq<
    (
        Seq<char>,
        Seq<char>,
        Seq<(Seq<char>, Seq<char>, Seq<char>, Seq<char>)>,
        Seq<Seq<char>>,
        Seq<char>,
        Seq<char>,
        Seq<char>,
    ),
> {
    match (r.fleet, r.gpu_spec) {
        (Some(f), Some(g)) => f.options@.map_values(|o: FleetOption| fleet_explain(r, f, *g, o)),
        _ => Seq::empty(),
    }
}

fn fleet_tiers(report: &EvaluationReport, entries: &mut Vec<ExplainEntry>)
    ensures
        entries_view(final(entries)@) == entries_view(old(entries)@) + fleet_entries(*report),
{
    match (&report.fleet, &report.gpu_spec) {
        (Some(f), Some(g)) => {
            let ghost start = entries_view(entries@);
            let mut i: usize = 0;
            while i < f.options.len()
                invariant
                    i <= f.options@.len(),
                    report.fleet == Some(*f),
                    report.gpu_spec == Some(*g),
                    entries_view(entries@) == start + f.options@.subrange(0, i as int).map_values(
                        |o: FleetOption| fleet_explain(*report, *f, **g, o),
                    ),
                decreases f.options.len() - i,
            {
                let e = fleet_entry(report, f, g, &f.options[i]);
                let ghost before = entries@;
                entries.push(e);
                assert(entries_view(entries@) =~= entries_view(before).push(entry_view(e)));
                assert(f.options@.subrange(0, i + 1).map_values(|o: FleetOption| fleet_explain(*report, *f, **g, o))
                    =~= f.options@.subrange(0, i as int).map_values(|o: FleetOption| fleet_explain(*report, *f, **g, o)).push(
                    fleet_explain(*report, *f, **g, f.options@[i as int])));
                i = i + 1;
            }
            assert(f.options@.subrange(0, f.options@.len() as int) =~= f.options@);
        },
        _ => {
            assert(entries_view(entries@) =~= entries_view(entries@) + fleet_entries(*report));
        },
    }
}

/// The numbers the KV entries print fit in `u64`: for every reported
/// context with a non-zero cache, the uncompressed cache at that length.
pub open spec fn explain_fits(r: EvaluationReport) -> bool {
    forall|i: int|
        0 <= i < r.kv_cache_by_context@.len() && (#[trigger] r.kv_cache_by_context@[i]).1.value != 0
            && r.profile.attention is Some ==> r.kv_cache_by_context@[i].0 >= 1 && r.profile.num_hidden_layers >= 1
            && baseline_fits(r.profile, r.profile.attention->0, r.kv_cache_by_context@[i].0)
}

pub fn explain_fits_check(report: &EvaluationReport) -> (b: bool)
    ensures
        b == explain_fits(*report),
{
    let a = match &report.profile.attention {
        Some(a) => a,
        None => {
            return true;
        },
    };
    let p = &report.profile;
    let mut i: usize = 0;
    while i < report.kv_cache_by_context.len()
        invariant
            i <= report.kv_cache_by_context@.len(),
            report.profile.attention == Some(*a),
            *p == report.profile,
            forall|j: int|
                0 <= j < i && (#[trigger] report.kv_cache_by_context@[j]).1.value != 0 ==> report.kv_cache_by_context@[j].0 >= 1
                    && report.profile.num_hidden_layers >= 1 && baseline_fits(
                    report.profile,
                    *a,
                    report.kv_cache_by_context@[j].0,
                ),
        decreases report.kv_cache_by_context.len() - i,
    {
        let ctx = report.kv_cache_by_context[i].0;
        if report.kv_cache_by_context[i].1.value != 0 {
            if ctx == 0 || p.num_hidden_layers == 0 {
                assert(report.kv_cache_by_context@[i as int].1.value != 0);
                return false;
            }
            if !baseline_fits_exec(p, a, ctx) {
                assert(report.kv_cache_by_context@[i as int].1.value != 0);
                return false;
            }
        }
        i = i + 1;
    }
    true
}

fn baseline_fits_exec(p: &ArchitectureProfile, a: &AttentionTraits, ctx: u64) -> (b: bool)
    ensures
        b == baseline_fits(*p, *a, ctx),
{
    let ghost per_v = per_layer_per_token(*a, 2);
    proof {
        assert(per_v >= 0) by (nonlinear_arith)
            requires
                per_v == (if mla_cached(*a) {
                    (a.kv_lora_rank->0 + crate::kv_cache::rope_dim(*a)) * 2
                } else {
                    2 * a.num_kv_heads * a.head_dim * 2
                }),
                crate::kv_cache::rope_dim(*a) >= 0,
        ;
        assert(per_v * ctx >= 0) by (nonlinear_arith)
            requires
                per_v >= 0,
                ctx >= 0,
        ;
    }
    let per: Option<u64> = if mla_cached_exec(a) {
        let k = match a.kv_lora_rank {
            Some(k) => k,
            None => 0,
        };
        let r = match a.qk_rope_head_dim {
            Some(r) => r,
            None => 0,
        };
        let sum = cap_add(cap_of(k), cap_of(r), Ghost(k as int), Ghost(r as int));
        cap_mul(sum, cap_of(2), Ghost(k + r), Ghost(2))
    } else {
        let two_k = cap_mul(cap_of(2), cap_of(a.num_kv_heads), Ghost(2), Ghost(a.num_kv_heads as int));
        proof {
            assert(2 * a.num_kv_heads * a.head_dim >= 0) by (nonlinear_arith);
        }
        let kh = cap_mul(two_k, cap_of(a.head_dim), Ghost(2 * a.num_kv_heads), Ghost(a.head_dim as int));
        cap_mul(kh, cap_of(2), Ghost(2 * a.num_kv_heads * a.head_dim), Ghost(2))
    };
    let pc = cap_mul(per, cap_of(ctx), Ghost(per_v), Ghost(ctx as int));
    let total = cap_mul(pc, cap_of(p.num_hidden_layers), Ghost(per_v * ctx), Ghost(p.num_hidden_layers as int));
    total.is_some()
}

fn mla_cached_exec(a: &AttentionTraits) -> (b: bool)
    ensures
        b == mla_cached(*a),
{
    let is_mla = match a.variant {
        AttentionVariant::Mla => true,
        _ => false,
    };
    is_mla && match a.kv_lora_rank {
        Some(k) => k > 0,
        None => false,
    }
}

fn kv_cache_contexts(report: &EvaluationReport, entries: &mut Vec<ExplainEntry>)
    requires
        explain_fits(*report),
    ensures
        entries_view(final(entries)@) == entries_view(old(entries)@) + kv_explain_entries(
            report.profile,
            report.kv_cache_by_context@,
        ),
{
    let ghost start = entries_view(entries@);
    let p = &report.profile;
    let a = match &p.attention {
        Some(a) => a,
        None => {
            assert(entries_view(entries@) =~= start + kv_explain_entries(*p, report.kv_cache_by_context@));
            return;
        },
    };
    let kv = &report.kv_cache_by_context;
    let mut i: usize = 0;
    while i < kv.len()
        invariant
            i <= kv@.len(),
            explain_fits(*report),
            p.attention == Some(*a),
            *p == report.profile,
            *kv == report.kv_cache_by_context,
            entries_view(entries@) == start + kv_explain_entries(*p, kv@.subrange(0, i as int)),
        decreases kv.len() - i,
    {
        assert(kv@.subrange(0, i + 1).drop_last() =~= kv@.subrange(0, i as int));
        if kv[i].1.value != 0 {
            let e = kv_entry(p, a, kv[i].0, &kv[i].1);
            let ghost before = entries@;
            entries.push(e);
            assert(entries_view(entries@) =~= entries_view(before).push(entry_view(e)));
        }
        i = i + 1;
    }
    assert(kv@.subrange(0, kv@.len() as int) =~= kv@);
}

/// The explain entries of the evaluated numbers: weight bytes, the
/// quantization match, the KV cache at each context, and each fleet tier.
pub open spec fn built_entries(r: EvaluationReport) -> Seq<
    (
        Seq<char>,
        Seq<char>,
        Seq<(Seq<char>, Seq<char>, Seq<char>, Seq<char>)>,
        Seq<Seq<char>>,
        Seq<char>,
        Seq<char>,
        Seq<char>,
    ),
> {
    seq![weight_entry(r)] + quantization_entries(r) + kv_explain_entries(r.profile, r.kv_cache_by_context@)
        + fleet_entries(r)
}

/// Builds the explain entries of a report, in report order.
pub fn build(report: &EvaluationReport) -> (entries: Vec<ExplainEntry>)
    requires
        explain_fits(*report),
    ensures
        entries_view(entries@) == built_entries(*report),
{
    let mut entries: Vec<ExplainEntry> = Vec::new();
    let w = weight_bytes(report);
    entries.push(w);
    assert(entries_view(entries@) =~= seq![weight_entry(*report)]);
    quantization(report, &mut entries);
    kv_cache_contexts(report, &mut entries);
    fleet_tiers(report, &mut entries);
    entries
}

/// A label in brackets, as in `[estimated]`.
pub open spec fn tagged(label: Label) -> Seq<char> {
    seq!['['] + label_name(label) + seq![']']
}

/// The three entries behind the concurrency figure: K, bound by memory
/// capacity; L, bound by throughput at the service level; and which of the
/// two binds. The throughput figures
/// are rendered elsewhere and come in as text.
pub open spec fn concurrency_explain(c: ConcurrencyBounds, tps: Seq<char>, target: Seq<char>, degradation: Seq<char>) -> Seq<
    (
        Seq<char>,
        Seq<char>,
        Seq<(Seq<char>, Seq<char>, Seq<char>, Seq<char>)>,
        Seq<Seq<char>>,
        Seq<char>,
        Seq<char>,
        Seq<char>,
    ),
> {
    let h = grouped(c.k_source_headroom_bytes as nat);
    let kv = grouped(c.k_source_kv_per_req_bytes as nat);
    let k = dec(c.k_bound.value as nat);
    let l = dec(c.l_bound.value as nat);
    let m = dec(c.max_concurrent.value as nat);
    let b = bottleneck_name(c.bottleneck);
    seq![
        (
            "K bound (memory capacity)"@,
            "K = floor(per_GPU_headroom_bytes / per_GPU_kv_bytes_per_request)"@,
            seq![
                ("per_GPU_headroom_bytes"@, h, "[estimated]"@, Seq::empty()),
                (
                    "per_GPU_kv_bytes_per_request"@,
                    kv,
                    "[estimated]"@,
                    "post TP/PP sharding; MLA uses one TP KV shard and PP splits by pipeline stage"@,
                ),
            ],
            seq!["K = floor("@ + h + " / "@ + kv + ") = "@ + k],
            "K = "@ + k + " "@ + tagged(c.k_bound.label),
            "TP KV sharding rule plus vLLM/SGLang multi-node TP/PP launch conventions"@,
            "#k-bound-memory-capacity"@,
        ),
        (
            "L bound (compute/bandwidth at SLA)"@,
            "L = floor(cluster_tok_per_sec / target_per_user_tok_per_sec / degradation_factor)"@,
            seq![
                ("cluster_tok_per_sec"@, tps, "[estimated]"@, Seq::empty()),
                ("target_per_user_tok_per_sec"@, target, "[user-set]"@, "SLA, override with --target-tokens-per-sec"@),
                (
                    "degradation_factor"@,
                    degradation,
                    "[user-set]"@,
                    "default 1.0 = no degradation; override with --concurrency-degradation"@,
                ),
            ],
            seq!["L = floor("@ + tps + " / "@ + target + " / "@ + degradation + ") = "@ + l],
            "L = "@ + l + " "@ + tagged(c.l_bound.label),
            "Standard SLA-based capacity planning"@,
            "#l-bound-compute-bandwidth-at-sla"@,
        ),
        (
            "Max concurrent + bottleneck verdict"@,
            "max_concurrent = min(K, L); bottleneck = 'memory_capacity' if K <= L else 'memory_bandwidth / compute'"@,
            seq![("K"@, k, tagged(c.k_bound.label), Seq::empty()), ("L"@, l, tagged(c.l_bound.label), Seq::empty())],
            seq!["max_concurrent = min(K="@ + k + ", L="@ + l + ") = "@ + m, "bottleneck = "@ + b],
            m + " concurrent, bottleneck = "@ + b,
            c.bottleneck_reason_en@,
            "#concurrency-bounds-k-l"@,
        ),
    ]
}

fn tag_text(label: Label) -> (s: String)
    ensures
        s@ == tagged(label),
{
    let mut s = String::new();
    s.push('[');
    s.append(label.as_str());
    s.push(']');
    assert(s@ =~= tagged(label));
    s
}

fn k_bound_entry(c: &ConcurrencyBounds) -> (e: ExplainEntry)
    ensures
        entry_view(e) == concurrency_explain(*c, Seq::empty(), Seq::empty(), Seq::empty())[0],
{
    proof {
        reveal_strlit("");
    }
    let h = fmt_u64(c.k_source_headroom_bytes);
    let kv = fmt_u64(c.k_source_kv_per_req_bytes);
    let k = u64_to_string(c.k_bound.value);
    let mut e = ExplainEntry::new(
        "K bound (memory capacity)",
        "K = floor(per_GPU_headroom_bytes / per_GPU_kv_bytes_per_request)",
    );
    push_input(&mut e.inputs, ExplainInput::new("per_GPU_headroom_bytes", h.as_str(), "[estimated]"));
    push_input(
        &mut e.inputs,
        ExplainInput::with_note(
            "per_GPU_kv_bytes_per_request",
            kv.as_str(),
            "[estimated]",
            "post TP/PP sharding; MLA uses one TP KV shard and PP splits by pipeline stage",
        ),
    );
    let mut step = "K = floor(".to_string();
    step.append(h.as_str());
    step.append(" / ");
    step.append(kv.as_str());
    step.append(") = ");
    step.append(k.as_str());
    push_text(&mut e.steps, step);
    let mut result = "K = ".to_string();
    result.append(k.as_str());
    result.append(" ");
    result.append(tag_text(c.k_bound.label).as_str());
    e.result = result;
    e.source = "TP KV sharding rule plus vLLM/SGLang multi-node TP/PP launch conventions".to_string();
    e.methodology_anchor = "#k-bound-memory-capacity".to_string();
    let ghost want = concurrency_explain(*c, Seq::empty(), Seq::empty(), Seq::empty())[0];
    assert(inputs_view(e.inputs@) =~= want.2);
    assert(views(e.steps@) =~= want.3);
    assert(e.result@ =~= want.4);
    e
}

fn l_bound_entry(c: &ConcurrencyBounds, tps: &str, target: &str, degradation: &str) -> (e: ExplainEntry)
    ensures
        entry_view(e) == concurrency_explain(*c, tps@, target@, degradation@)[1],
{
    proof {
        reveal_strlit("");
    }
    let l = u64_to_string(c.l_bound.value);
    let mut e = ExplainEntry::new(
        "L bound (compute/bandwidth at SLA)",
        "L = floor(cluster_tok_per_sec / target_per_user_tok_per_sec / degradation_factor)",
    );
    push_input(&mut e.inputs, ExplainInput::new("cluster_tok_per_sec", tps, "[estimated]"));
    push_input(
        &mut e.inputs,
        ExplainInput::with_note(
            "target_per_user_tok_per_sec",
            target,
            "[user-set]",
            "SLA, override with --target-tokens-per-sec",
        ),
    );
    push_input(
        &mut e.inputs,
        ExplainInput::with_note(
            "degradation_factor",
            degradation,
            "[user-set]",
            "default 1.0 = no degradation; override with --concurrency-degradation",
        ),
    );
    let mut step = "L = floor(".to_string();
    step.append(tps);
    step.append(" / ");
    step.append(target);
    step.append(" / ");
    step.append(degradation);
    step.append(") = ");
    step.append(l.as_str());
    push_text(&mut e.steps, step);
    let mut result = "L = ".to_string();
    result.append(l.as_str());
    result.append(" ");
    result.append(tag_text(c.l_bound.label).as_str());
    e.result = result;
    e.source = "Standard SLA-based capacity planning".to_string();
    e.methodology_anchor = "#l-bound-compute-bandwidth-at-sla".to_string();
    let ghost want = concurrency_explain(*c, tps@, target@, degradation@)[1];
    assert(inputs_view(e.inputs@) =~= want.2);
    assert(views(e.steps@) =~= want.3);
    assert(e.result@ =~= want.4);
    e
}

fn verdict_entry(c: &ConcurrencyBounds) -> (e: ExplainEntry)
    ensures
        entry_view(e) == concurrency_explain(*c, Seq::empty(), Seq::empty(), Seq::empty())[2],
{
    proof {
        reveal_strlit("");
    }
    let k = u64_to_string(c.k_bound.value);
    let l = u64_to_string(c.l_bound.value);
    let m = u64_to_string(c.max_concurrent.value);
    let mut e = ExplainEntry::new(
        "Max concurrent + bottleneck verdict",
        "max_concurrent = min(K, L); bottleneck = 'memory_capacity' if K <= L else 'memory_bandwidth / compute'",
    );
    push_input(&mut e.inputs, ExplainInput::new("K", k.as_str(), tag_text(c.k_bound.label).as_str()));
    push_input(&mut e.inputs, ExplainInput::new("L", l.as_str(), tag_text(c.l_bound.label).as_str()));
    let mut step = "max_concurrent = min(K=".to_string();
    step.append(k.as_str());
    step.append(", L=");
    step.append(l.as_str());
    step.append(") = ");
    step.append(m.as_str());
    push_text(&mut e.steps, step);
    let mut step2 = "bottleneck = ".to_string();
    step2.append(c.bottleneck.as_str());
    push_text(&mut e.steps, step2);
    let mut result = m.clone();
    result.append(" concurrent, bottleneck = ");
    result.append(c.bottleneck.as_str());
    e.result = result;
    e.source = c.bottleneck_reason_en.clone();
    e.methodology_anchor = "#concurrency-bounds-k-l".to_string();
    let ghost want = concurrency_explain(*c, Seq::empty(), Seq::empty(), Seq::empty())[2];
    assert(inputs_view(e.inputs@) =~= want.2);
    assert(views(e.steps@) =~= want.3);
    assert(e.result@ =~= want.4);
    e
}

/// Appends the derivations of the concurrency verdict (K, L, and the
/// verdict) to `entries`. The cluster throughput, the per-user target and
/// the degradation factor are handed in already rendered.
pub fn concurrency(
    bounds: &ConcurrencyBounds,
    cluster_tps: &str,
    target_tps: &str,
    degradation: &str,
    entries: &mut Vec<ExplainEntry>,
)
    ensures
        entries_view(final(entries)@) == entries_view(old(entries)@) + concurrency_explain(
            *bounds,
            cluster_tps@,
            target_tps@,
            degradation@,
        ),
{
    let ghost want = concurrency_explain(*bounds, cluster_tps@, target_tps@, degradation@);
    let k = k_bound_entry(bounds);
    let l = l_bound_entry(bounds, cluster_tps, target_tps, degradation);
    let v = verdict_entry(bounds);
    entries.push(k);
    entries.push(l);
    entries.push(v);
    assert(entries_view(entries@) =~= entries_view(old(entries)@) + want);
}

} // verus!
