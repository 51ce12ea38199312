//! The full text report: one section per part of an evaluation, each a run
//! of lines.
use vstd::prelude::*;
use crate::evaluation::EvaluationReport;
use crate::formatter::{yes_no, bytes_text, fmt_bytes, fmt_params, format_tag, params_text, tag_text, tr};
use crate::quant::{bits_per_param_text, bits_text, scheme_name};
use crate::reconciler::{percent, percent_text, ReconciliationCandidate, ReconciliationReport};
use crate::labels::AnnotatedValue;
use crate::engine_compat::{EngineCompatEntry, EngineFlag, EngineSource};
use crate::hardware::{opt_view, GPUSpec};
use crate::text::{chars_of, fixed, fmt_fixed, join, joined, string_of};
use crate::explain::sat_sub;
use crate::concurrency::{bottleneck_name, ConcurrencyBounds};
use crate::planner::{context_text, fmt_context, opt_name, FleetOption, FleetRecommendation};
use crate::i18n::{distinct_names, kw_view, LocaleState, t, t_with, translated};
use crate::labels::Label;
use crate::profile::{variant_name, ArchitectureProfile, AttentionTraits, Confidence, Family, JsonScalar, MoeTraits};
use crate::json::JsonNumber;
use crate::text::{dec, dec_signed, fmt_u64, grouped, i64_to_string, lemma_views_push, str_eq, u64_to_string, views};

verus! {

/// `field: value label`, the label left out when empty.
pub open spec fn row_text(field: Seq<char>, value: Seq<char>, label: Seq<char>) -> Seq<char> {
    if label.len() == 0 {
        field + ": "@ + value
    } else {
        field + ": "@ + value + " "@ + label
    }
}

fn row(field: String, value: &str, label: &str) -> (s: String)
    ensures
        s@ == row_text(field@, value@, label@),
{
    let mut s = field;
    s.append(": ");
    s.append(value);
    if label.unicode_len() > 0 {
        s.append(" ");
        s.append(label);
    }
    s
}

fn push_line(out: &mut Vec<String>, line: String)
    ensures
        views(final(out)@) == views(old(out)@).push(line@),
{
    proof {
        lemma_views_push(out@, line);
    }
    out.push(line);
}

fn tag(state: &LocaleState, label: Label) -> (s: String)
    ensures
        s@ == tag_text(state.locale@, label),
{
    let mut key = "label.".to_string();
    key.append(label.as_str());
    let mut s = "[".to_string();
    s.append(t(state, key.as_str()).as_str());
    s.append("]");
    s
}

pub open spec fn family_name(f: Family) -> Seq<char> {
    match f {
        Family::Transformer => "transformer"@,
        Family::StateSpace => "state_space"@,
        Family::Unknown => "unknown"@,
    }
}

pub open spec fn confidence_name(c: Confidence) -> Seq<char> {
    match c {
        Confidence::High => "high"@,
        Confidence::Medium => "medium"@,
        Confidence::Low => "low"@,
    }
}

/// How many of the ratios are zero (dense layers).
pub open spec fn zeros(r: Seq<u64>) -> nat
    decreases r.len(),
{
    if r.len() == 0 {
        0
    } else {
        zeros(r.drop_last()) + if r.last() == 0 {
            1nat
        } else {
            0nat
        }
    }
}

/// The attention row (variant, heads, KV heads, head size) and, where the
/// layers compress, the count of ratios and of dense layers.
pub open spec fn attention_rows(locale: Seq<char>, a: AttentionTraits) -> Seq<Seq<char>> {
    let v = tag_text(locale, Label::Verified);
    seq![
        row_text(
            tr(locale, "arch.attention"@),
            translated(
                locale,
                "arch.attn_summary"@,
                seq![
                    ("variant"@, variant_name(a.variant)),
                    ("heads"@, dec(a.num_heads as nat)),
                    ("kv_heads"@, dec(a.num_kv_heads as nat)),
                    ("head_dim"@, dec(a.head_dim as nat)),
                ],
            ),
            v,
        ),
    ] + match a.compress_ratios {
        Some(r) => seq![
            row_text(
                tr(locale, "arch.compress_ratios"@),
                translated(
                    locale,
                    "arch.compress_ratios_summary"@,
                    seq![("n"@, dec(r@.len())), ("dense"@, dec(zeros(r@)))],
                ),
                v,
            ),
        ],
        None => Seq::empty(),
    }
}

pub open spec fn moe_row(locale: Seq<char>, m: MoeTraits) -> Seq<char> {
    row_text(
        tr(locale, "arch.moe"@),
        translated(
            locale,
            "arch.moe_summary"@,
            seq![
                ("routed"@, dec(m.num_routed_experts as nat)),
                ("shared"@, dec(m.num_shared_experts as nat)),
                ("topk"@, dec(m.num_experts_per_tok as nat)),
            ],
        ),
        tag_text(locale, Label::Verified),
    )
}

/// A kept fact as text: a string as it is, anything else as JSON.
pub open spec fn scalar_text(j: JsonScalar) -> Seq<char> {
    match j {
        JsonScalar::Null => "null"@,
        JsonScalar::Bool(b) => if b {
            "true"@
        } else {
            "false"@
        },
        JsonScalar::Number(JsonNumber::Unsigned(n)) => dec(n as nat),
        JsonScalar::Number(JsonNumber::Negative(n)) => dec_signed(n as int),
        JsonScalar::Number(JsonNumber::Float { text, .. }) => text@,
        JsonScalar::Text(s) => s@,
    }
}

/// The first kept fact under `key`.
pub open spec fn aux_get(aux: Seq<(String, JsonScalar)>, key: Seq<char>) -> Option<JsonScalar>
    decreases aux.len(),
{
    if aux.len() == 0 {
        None
    } else if aux[0].0@ == key {
        Some(aux[0].1)
    } else {
        aux_get(aux.drop_first(), key)
    }
}

/// The architecture section's head: model type, family, confidence, layer
/// count, hidden size and vocabulary.
pub open spec fn architecture_head(locale: Seq<char>, p: ArchitectureProfile) -> Seq<Seq<char>> {
    let v = tag_text(locale, Label::Verified);
    seq![
        Seq::empty(),
        tr(locale, "section.architecture"@),
        row_text(
            tr(locale, "arch.model_type"@),
            if p.model_type@.len() == 0 {
                tr(locale, "arch.none"@)
            } else {
                p.model_type@
            },
            v,
        ),
        row_text(tr(locale, "arch.family"@), family_name(p.family), v),
        row_text(
            tr(locale, "arch.confidence"@),
            confidence_name(p.confidence),
            "["@ + confidence_name(p.confidence) + "]"@,
        ),
        row_text(tr(locale, "arch.layers"@), dec(p.num_hidden_layers as nat), v),
        row_text(tr(locale, "arch.hidden_size"@), dec(p.hidden_size as nat), v),
        row_text(tr(locale, "arch.vocab_size"@), grouped(p.vocab_size as nat), v),
    ]
}

/// The rows known only for some models: attention, mixture of experts,
/// sliding window and context length.
pub open spec fn architecture_extras(locale: Seq<char>, p: ArchitectureProfile) -> Seq<Seq<char>> {
    let v = tag_text(locale, Label::Verified);
    (match p.attention {
        Some(a) => attention_rows(locale, a),
        None => Seq::empty(),
    }) + (match p.moe {
        Some(m) => seq![moe_row(locale, m)],
        None => Seq::empty(),
    }) + (match p.sliding_window {
        Some(w) => seq![row_text(tr(locale, "arch.sliding_window"@), dec(w as nat), v)],
        None => Seq::empty(),
    }) + (match p.position {
        Some(pos) => match pos.max_position_embeddings {
            Some(m) => seq![row_text(tr(locale, "arch.max_position"@), grouped(m as nat), v)],
            None => Seq::empty(),
        },
        None => Seq::empty(),
    })
}

/// The profile's warnings: the one it carries, then the note on state-space
/// models.
pub open spec fn architecture_warnings(locale: Seq<char>, p: ArchitectureProfile) -> Seq<Seq<char>> {
    (match aux_get(p.auxiliary@, "warning"@) {
        Some(w) => seq!["WARNING: "@ + scalar_text(w)],
        None => Seq::empty(),
    }) + (if aux_get(p.auxiliary@, "v0_1_unsupported"@) is Some {
        seq!["WARNING: "@ + tr(locale, "arch.unsupported_state_space"@)]
    } else {
        Seq::empty()
    })
}

/// The architecture section: model type, family, confidence, layer count,
/// hidden size and vocabulary, then attention, mixture of experts, sliding
/// window and context length where known, and the profile's warnings.
#[verifier::opaque]
pub open spec fn architecture_lines(locale: Seq<char>, p: ArchitectureProfile) -> Seq<Seq<char>> {
    architecture_head(locale, p) + architecture_extras(locale, p) + architecture_warnings(locale, p)
}

fn scalar_to_text(j: &JsonScalar) -> (s: String)
    ensures
        s@ == scalar_text(*j),
{
    match j {
        JsonScalar::Null => "null".to_string(),
        JsonScalar::Bool(b) => if *b {
            "true".to_string()
        } else {
            "false".to_string()
        },
        JsonScalar::Number(JsonNumber::Unsigned(n)) => u64_to_string(*n),
        JsonScalar::Number(JsonNumber::Negative(n)) => i64_to_string(*n),
        JsonScalar::Number(JsonNumber::Float { text, .. }) => text.clone(),
        JsonScalar::Text(s) => s.clone(),
    }
}

fn find_aux<'a>(aux: &'a Vec<(String, JsonScalar)>, key: &str) -> (r: Option<&'a JsonScalar>)
    ensures
        match r {
            Some(j) => aux_get(aux@, key@) == Some(*j),
            None => aux_get(aux@, key@) is None,
        },
{
    let mut i: usize = 0;
    assert(aux@.subrange(0, aux@.len() as int) =~= aux@);
    while i < aux.len()
        invariant
            i <= aux@.len(),
            aux_get(aux@, key@) == aux_get(aux@.subrange(i as int, aux@.len() as int), key@),
        decreases aux.len() - i,
    {
        assert(aux@.subrange(i as int, aux@.len() as int).drop_first() =~= aux@.subrange(i + 1, aux@.len() as int));
        if str_eq(aux[i].0.as_str(), key) {
            return Some(&aux[i].1);
        }
        i = i + 1;
    }
    None
}

fn count_zeros(r: &Vec<u64>) -> (n: usize)
    ensures
        n == zeros(r@),
{
    let mut n: usize = 0;
    let mut i: usize = 0;
    while i < r.len()
        invariant
            i <= r@.len(),
            n == zeros(r@.subrange(0, i as int)),
            n <= i,
        decreases r.len() - i,
    {
        assert(r@.subrange(0, i + 1).drop_last() =~= r@.subrange(0, i as int));
        if r[i] == 0 {
            n = n + 1;
        }
        i = i + 1;
    }
    assert(r@.subrange(0, r@.len() as int) =~= r@);
    n
}

fn kv(k: &str, v: String) -> (p: (String, String))
    ensures
        p.0@ == k@,
        p.1@ == v@,
{
    (k.to_string(), v)
}

fn push_attention_rows(state: &LocaleState, a: &AttentionTraits, out: &mut Vec<String>)
    ensures
        views(final(out)@) == views(old(out)@) + attention_rows(state.locale@, *a),
{
    let v = tag(state, Label::Verified);
    let mut kw: Vec<(String, String)> = Vec::new();
    kw.push(kv("variant", a.variant.as_str().to_string()));
    kw.push(kv("heads", u64_to_string(a.num_heads)));
    kw.push(kv("kv_heads", u64_to_string(a.num_kv_heads)));
    kw.push(kv("head_dim", u64_to_string(a.head_dim)));
    assert(kw_view(kw@) =~= seq![
        ("variant"@, variant_name(a.variant)),
        ("heads"@, dec(a.num_heads as nat)),
        ("kv_heads"@, dec(a.num_kv_heads as nat)),
        ("head_dim"@, dec(a.head_dim as nat)),
    ]);
    proof {
        reveal_strlit("variant");
        reveal_strlit("heads");
        reveal_strlit("kv_heads");
        reveal_strlit("head_dim");
        assert forall|i: int, j: int| 0 <= i < j < 4 implies #[trigger] kw_view(kw@)[i].0 != #[trigger] kw_view(kw@)[j].0 by {
            if i == 0 && j == 1 {
                assert("variant"@.len() != "heads"@.len());
            } else if i == 0 && j == 2 {
                assert("variant"@.len() != "kv_heads"@.len());
            } else if i == 0 && j == 3 {
                assert("variant"@.len() != "head_dim"@.len());
            } else if i == 1 && j == 2 {
                assert("heads"@.len() != "kv_heads"@.len());
            } else if i == 1 && j == 3 {
                assert("heads"@.len() != "head_dim"@.len());
            } else if i == 2 && j == 3 {
                assert("kv_heads"@[0] != "head_dim"@[0]);
            }
        }
    }
    push_line(out, row(t(state, "arch.attention"), t_with(state, "arch.attn_summary", &kw).as_str(), v.as_str()));
    let ghost mid = views(out@);
    match &a.compress_ratios {
        Some(r) => {
            let mut kw2: Vec<(String, String)> = Vec::new();
            kw2.push(kv("n", u64_to_string(r.len() as u64)));
            kw2.push(kv("dense", u64_to_string(count_zeros(r) as u64)));
            assert(kw_view(kw2@) =~= seq![("n"@, dec(r@.len())), ("dense"@, dec(zeros(r@)))]);
            proof {
                reveal_strlit("n");
                reveal_strlit("dense");
                assert forall|i: int, j: int| 0 <= i < j < 2 implies #[trigger] kw_view(kw2@)[i].0 != #[trigger] kw_view(kw2@)[j].0 by {
                    if i == 0 && j == 1 {
                        assert("n"@.len() != "dense"@.len());
                    }
                }
            }
            push_line(
                out,
                row(t(state, "arch.compress_ratios"), t_with(state, "arch.compress_ratios_summary", &kw2).as_str(), v.as_str()),
            );
        },
        None => {},
    }
    assert(views(out@) =~= views(old(out)@) + attention_rows(state.locale@, *a));
}

fn moe_line(state: &LocaleState, m: &MoeTraits) -> (s: String)
    ensures
        s@ == moe_row(state.locale@, *m),
{
    let mut kw: Vec<(String, String)> = Vec::new();
    kw.push(kv("routed", u64_to_string(m.num_routed_experts)));
    kw.push(kv("shared", u64_to_string(m.num_shared_experts)));
    kw.push(kv("topk", u64_to_string(m.num_experts_per_tok)));
    assert(kw_view(kw@) =~= seq![
        ("routed"@, dec(m.num_routed_experts as nat)),
        ("shared"@, dec(m.num_shared_experts as nat)),
        ("topk"@, dec(m.num_experts_per_tok as nat)),
    ]);
    proof {
        reveal_strlit("routed");
        reveal_strlit("shared");
        reveal_strlit("topk");
        assert forall|i: int, j: int| 0 <= i < j < 3 implies #[trigger] kw_view(kw@)[i].0 != #[trigger] kw_view(kw@)[j].0 by {
            if i == 0 && j == 1 {
                assert("routed"@[0] != "shared"@[0]);
            } else if i == 0 && j == 2 {
                assert("routed"@.len() != "topk"@.len());
            } else if i == 1 && j == 2 {
                assert("shared"@.len() != "topk"@.len());
            }
        }
    }
    row(t(state, "arch.moe"), t_with(state, "arch.moe_summary", &kw).as_str(), tag(state, Label::Verified).as_str())
}

fn push_architecture_head(state: &LocaleState, p: &ArchitectureProfile, out: &mut Vec<String>)
    ensures
        views(final(out)@) == views(old(out)@) + architecture_head(state.locale@, *p),
{
    let v = tag(state, Label::Verified);
    push_line(out, String::new());
    push_line(out, t(state, "section.architecture"));
    let model_type = if p.model_type.as_str().unicode_len() == 0 {
        t(state, "arch.none")
    } else {
        p.model_type.clone()
    };
    push_line(out, row(t(state, "arch.model_type"), model_type.as_str(), v.as_str()));
    push_line(out, row(t(state, "arch.family"), p.family.as_str(), v.as_str()));
    let mut conf = "[".to_string();
    conf.append(p.confidence.as_str());
    conf.append("]");
    push_line(out, row(t(state, "arch.confidence"), p.confidence.as_str(), conf.as_str()));
    push_line(out, row(t(state, "arch.layers"), u64_to_string(p.num_hidden_layers).as_str(), v.as_str()));
    push_line(out, row(t(state, "arch.hidden_size"), u64_to_string(p.hidden_size).as_str(), v.as_str()));
    push_line(out, row(t(state, "arch.vocab_size"), fmt_u64(p.vocab_size).as_str(), v.as_str()));
    proof {
        reveal_strlit("");
    }
    assert(views(out@) =~= views(old(out)@) + architecture_head(state.locale@, *p));
}

fn push_architecture_extras(state: &LocaleState, p: &ArchitectureProfile, out: &mut Vec<String>)
    ensures
        views(final(out)@) == views(old(out)@) + architecture_extras(state.locale@, *p),
{
    let v = tag(state, Label::Verified);
    match &p.attention {
        Some(a) => push_attention_rows(state, a, out),
        None => {},
    }
    match &p.moe {
        Some(m) => push_line(out, moe_line(state, m)),
        None => {},
    }
    match p.sliding_window {
        Some(w) => push_line(out, row(t(state, "arch.sliding_window"), u64_to_string(w).as_str(), v.as_str())),
        None => {},
    }
    match &p.position {
        Some(pos) => match pos.max_position_embeddings {
            Some(m) => push_line(out, row(t(state, "arch.max_position"), fmt_u64(m).as_str(), v.as_str())),
            None => {},
        },
        None => {},
    }
    assert(views(out@) =~= views(old(out)@) + architecture_extras(state.locale@, *p));
}

fn push_architecture_warnings(state: &LocaleState, p: &ArchitectureProfile, out: &mut Vec<String>)
    ensures
        views(final(out)@) == views(old(out)@) + architecture_warnings(state.locale@, *p),
{
    match find_aux(&p.auxiliary, "warning") {
        Some(w) => {
            let mut line = "WARNING: ".to_string();
            line.append(scalar_to_text(w).as_str());
            push_line(out, line);
        },
        None => {},
    }
    match find_aux(&p.auxiliary, "v0_1_unsupported") {
        Some(_) => {
            let mut line = "WARNING: ".to_string();
            line.append(t(state, "arch.unsupported_state_space").as_str());
            push_line(out, line);
        },
        None => {},
    }
    assert(views(out@) =~= views(old(out)@) + architecture_warnings(state.locale@, *p));
}

/// Appends the architecture section of a report.
pub fn render_architecture(state: &LocaleState, report: &EvaluationReport, out: &mut Vec<String>)
    ensures
        views(final(out)@) == views(old(out)@) + architecture_lines(state.locale@, report.profile),
{
    reveal(architecture_lines);
    let p = &report.profile;
    push_architecture_head(state, p, out);
    push_architecture_extras(state, p, out);
    push_architecture_warnings(state, p, out);
    assert(views(out@) =~= views(old(out)@) + architecture_lines(state.locale@, *p));
}

/// Bits per parameter with two decimals; with no parameters, what a float
/// division prints: `inf`, or `NaN` for no bytes either.
pub open spec fn bits_cell(bytes: u64, params: u64) -> Seq<char> {
    if params > 0 {
        bits_text(bytes, params)
    } else if bytes > 0 {
        "inf"@
    } else {
        "NaN"@
    }
}

/// A reconciliation candidate: scheme, predicted bytes, the gap and its
/// direction, and the gap as a percentage of the prediction.
pub open spec fn candidate_line(locale: Seq<char>, c: ReconciliationCandidate) -> Seq<char> {
    scheme_name(c.scheme) + ": "@ + bytes_text(c.predicted_bytes) + " | "@ + bytes_text(c.abs_delta_bytes) + " "@ + (
    if c.delta_bytes > 0 {
        tr(locale, "recon.over"@)
    } else {
        tr(locale, "recon.under"@)
    }) + " | "@ + percent_text(c) + "%"@
}

/// The reconciliation block: nothing without candidates; otherwise a title,
/// the first six candidates and the scheme settled on.
pub open spec fn reconciliation_lines(locale: Seq<char>, r: ReconciliationReport) -> Seq<Seq<char>> {
    if r.candidates@.len() == 0 {
        Seq::empty()
    } else {
        let shown = if r.candidates@.len() <= 6 {
            r.candidates@
        } else {
            r.candidates@.take(6)
        };
        seq![tr(locale, "section.reconciliation"@)] + shown.map_values(
            |c: ReconciliationCandidate| candidate_line(locale, c),
        ) + seq![
            tr(locale, "recon.best"@) + " "@ + scheme_name(r.best.value) + " "@ + tag_text(locale, r.best.label),
        ]
    }
}

/// The weights section: bytes on disk, estimated parameters, bits per
/// parameter where known, the quantization guess, then the reconciliation.
#[verifier::opaque]
pub open spec fn weight_lines(locale: Seq<char>, r: EvaluationReport) -> Seq<Seq<char>> {
    let w = r.weight;
    seq![
        Seq::empty(),
        tr(locale, "section.weights"@),
        row_text(
            tr(locale, "weights.safetensors_bytes"@),
            bytes_text(w.total_bytes.value),
            tag_text(locale, w.total_bytes.label),
        ),
        row_text(
            tr(locale, "weights.params_estimated"@),
            params_text(r.total_params_estimate.value),
            tag_text(locale, r.total_params_estimate.label),
        ),
    ] + (match w.bits_per_param {
        Some(b) => seq![
            row_text(tr(locale, "weights.bits_per_param"@), bits_cell(b.value.0, b.value.1), tag_text(locale, b.label)),
        ],
        None => Seq::empty(),
    }) + seq![
        row_text(
            tr(locale, "weights.quant_guess"@),
            scheme_name(w.quantization_guess.value),
            tag_text(locale, w.quantization_guess.label),
        ),
    ] + reconciliation_lines(locale, r.reconciliation)
}

/// One line per context length: tokens, KV-cache bytes and their label.
pub open spec fn kv_line(locale: Seq<char>, e: (u64, AnnotatedValue<u64>)) -> Seq<char> {
    grouped(e.0 as nat) + " "@ + tr(locale, "kv.tokens"@) + ": "@ + bytes_text(e.1.value) + " "@ + tag_text(
        locale,
        e.1.label,
    )
}

/// The KV-cache section, left out when no context length was evaluated.
#[verifier::opaque]
pub open spec fn kv_cache_lines(locale: Seq<char>, kv: Seq<(u64, AnnotatedValue<u64>)>) -> Seq<Seq<char>> {
    if kv.len() == 0 {
        Seq::empty()
    } else {
        seq![Seq::empty(), tr(locale, "section.kv_cache"@)] + kv.map_values(
            |e: (u64, AnnotatedValue<u64>)| kv_line(locale, e),
        )
    }
}

fn bits_value(bytes: u64, params: u64) -> (s: String)
    ensures
        s@ == bits_cell(bytes, params),
{
    if params > 0 {
        bits_per_param_text(bytes, params)
    } else if bytes > 0 {
        "inf".to_string()
    } else {
        "NaN".to_string()
    }
}

fn candidate_text(state: &LocaleState, c: &ReconciliationCandidate) -> (s: String)
    ensures
        s@ == candidate_line(state.locale@, *c),
{
    let mut s = c.scheme.as_str().to_string();
    s.append(": ");
    s.append(fmt_bytes(c.predicted_bytes).as_str());
    s.append(" | ");
    s.append(fmt_bytes(c.abs_delta_bytes).as_str());
    s.append(" ");
    if c.delta_bytes > 0 {
        s.append(t(state, "recon.over").as_str());
    } else {
        s.append(t(state, "recon.under").as_str());
    }
    s.append(" | ");
    s.append(percent(c).as_str());
    s.append("%");
    s
}

fn push_reconciliation(state: &LocaleState, r: &ReconciliationReport, out: &mut Vec<String>)
    ensures
        views(final(out)@) == views(old(out)@) + reconciliation_lines(state.locale@, *r),
{
    if r.candidates.len() == 0 {
        assert(views(out@) =~= views(old(out)@) + reconciliation_lines(state.locale@, *r));
        return;
    }
    push_line(out, t(state, "section.reconciliation"));
    let ghost head = views(out@);
    let n: usize = if r.candidates.len() <= 6 {
        r.candidates.len()
    } else {
        6
    };
    let ghost shown = if r.candidates@.len() <= 6 {
        r.candidates@
    } else {
        r.candidates@.take(6)
    };
    assert(shown.len() == n);
    let mut i: usize = 0;
    while i < n
        invariant
            i <= n,
            n == shown.len(),
            n <= r.candidates@.len(),
            forall|j: int| 0 <= j < n ==> shown[j] == r.candidates@[j],
            views(out@) == head + shown.subrange(0, i as int).map_values(
                |c: ReconciliationCandidate| candidate_line(state.locale@, c),
            ),
        decreases n - i,
    {
        let line = candidate_text(state, &r.candidates[i]);
        push_line(out, line);
        assert(shown.subrange(0, i + 1).map_values(|c: ReconciliationCandidate| candidate_line(state.locale@, c))
            =~= shown.subrange(0, i as int).map_values(|c: ReconciliationCandidate| candidate_line(state.locale@, c)).push(
            candidate_line(state.locale@, shown[i as int]),
        ));
        i = i + 1;
    }
    assert(shown.subrange(0, n as int) =~= shown);
    let mut best = t(state, "recon.best");
    best.append(" ");
    best.append(r.best.value.as_str());
    best.append(" ");
    best.append(format_tag(state, &r.best).as_str());
    push_line(out, best);
    assert(views(out@) =~= views(old(out)@) + reconciliation_lines(state.locale@, *r));
}

/// Appends the weights section of a report.
pub fn render_weight(state: &LocaleState, report: &EvaluationReport, out: &mut Vec<String>)
    ensures
        views(final(out)@) == views(old(out)@) + weight_lines(state.locale@, *report),
{
    reveal(weight_lines);
    let w = &report.weight;
    push_line(out, String::new());
    push_line(out, t(state, "section.weights"));
    push_line(
        out,
        row(
            t(state, "weights.safetensors_bytes"),
            fmt_bytes(w.total_bytes.value).as_str(),
            format_tag(state, &w.total_bytes).as_str(),
        ),
    );
    push_line(
        out,
        row(
            t(state, "weights.params_estimated"),
            fmt_params(report.total_params_estimate.value).as_str(),
            format_tag(state, &report.total_params_estimate).as_str(),
        ),
    );
    match &w.bits_per_param {
        Some(b) => push_line(
            out,
            row(
                t(state, "weights.bits_per_param"),
                bits_value(b.value.0, b.value.1).as_str(),
                format_tag(state, b).as_str(),
            ),
        ),
        None => {},
    }
    push_line(
        out,
        row(
            t(state, "weights.quant_guess"),
            w.quantization_guess.value.as_str(),
            format_tag(state, &w.quantization_guess).as_str(),
        ),
    );
    proof {
        reveal_strlit("");
    }
    let ghost mid = views(out@);
    assert(mid =~= views(old(out)@) + weight_lines(state.locale@, *report).subrange(0, mid.len() - views(old(out)@).len()));
    push_reconciliation(state, &report.reconciliation, out);
    assert(views(out@) =~= views(old(out)@) + weight_lines(state.locale@, *report));
}

/// Appends the KV-cache section of a report.
pub fn render_kv_cache(state: &LocaleState, report: &EvaluationReport, out: &mut Vec<String>)
    ensures
        views(final(out)@) == views(old(out)@) + kv_cache_lines(state.locale@, report.kv_cache_by_context@),
{
    reveal(kv_cache_lines);
    let kv = &report.kv_cache_by_context;
    if kv.len() == 0 {
        assert(views(out@) =~= views(old(out)@) + kv_cache_lines(state.locale@, kv@));
        return;
    }
    push_line(out, String::new());
    push_line(out, t(state, "section.kv_cache"));
    proof {
        reveal_strlit("");
    }
    let ghost head = views(out@);
    let tokens = t(state, "kv.tokens");
    let mut i: usize = 0;
    while i < kv.len()
        invariant
            i <= kv@.len(),
            tokens@ == tr(state.locale@, "kv.tokens"@),
            views(out@) == head + kv@.subrange(0, i as int).map_values(
                |e: (u64, AnnotatedValue<u64>)| kv_line(state.locale@, e),
            ),
        decreases kv.len() - i,
    {
        let mut line = fmt_u64(kv[i].0);
        line.append(" ");
        line.append(tokens.as_str());
        line.append(": ");
        line.append(fmt_bytes(kv[i].1.value).as_str());
        line.append(" ");
        line.append(format_tag(state, &kv[i].1).as_str());
        push_line(out, line);
        assert(kv@.subrange(0, i + 1).map_values(|e: (u64, AnnotatedValue<u64>)| kv_line(state.locale@, e))
            =~= kv@.subrange(0, i as int).map_values(|e: (u64, AnnotatedValue<u64>)| kv_line(state.locale@, e)).push(
            kv_line(state.locale@, kv@[i as int]),
        ));
        i = i + 1;
    }
    assert(kv@.subrange(0, kv@.len() as int) =~= kv@);
    assert(views(out@) =~= views(old(out)@) + kv_cache_lines(state.locale@, kv@));
}

/// A flag with its value, if it takes one.
pub open spec fn flag_text(f: EngineFlag) -> Seq<char> {
    match f.value {
        Some(v) => f.flag@ + " "@ + v@,
        None => f.flag@,
    }
}

pub open spec fn or_empty(o: Option<String>) -> Seq<char> {
    match o {
        Some(s) => s@,
        None => Seq::empty(),
    }
}

/// A source: its kind in brackets, then who tested it on what and when, or
/// the link and the day it was captured.
pub open spec fn source_text(locale: Seq<char>, s: EngineSource) -> Seq<char> {
    let label = tr(locale, "source."@ + s.source_type@);
    if s.source_type@ == "tested"@ {
        "["@ + label + "] "@ + or_empty(s.tester) + " @ "@ + or_empty(s.hardware) + " ("@ + or_empty(s.date) + ")"@
    } else {
        match s.url {
            Some(u) => "["@ + label + "] "@ + u@ + match s.captured_date {
                Some(d) => " ("@ + tr(locale, "source.captured_on"@) + " "@ + d@ + ")"@,
                None => Seq::empty(),
            },
            None => "["@ + label + "]"@,
        }
    }
}

/// The label that goes with a verification level.
pub open spec fn level_label(level: Seq<char>) -> Label {
    if level == "verified"@ {
        Label::Verified
    } else if level == "cited"@ {
        Label::Cited
    } else if level == "unverified"@ {
        Label::Unverified
    } else {
        Label::Unknown
    }
}

pub open spec fn flags_row(locale: Seq<char>, key: Seq<char>, flags: Seq<EngineFlag>) -> Seq<Seq<char>> {
    if flags.len() == 0 {
        Seq::empty()
    } else {
        seq![row_text(tr(locale, key), joined(flags.map_values(|f: EngineFlag| flag_text(f)), ", "@), Seq::empty())]
    }
}

/// The engine section: no match, or the version range, support and
/// verification, the flags, the caveats in the current language and the
/// sources.
#[verifier::opaque]
pub open spec fn engine_lines(locale: Seq<char>, m: Option<&EngineCompatEntry>) -> Seq<Seq<char>> {
    match m {
        None => seq![Seq::empty(), tr(locale, "section.engine_compat"@) + ": "@ + tr(locale, "engine.no_match"@)],
        Some(e) => {
            let lv = tag_text(locale, level_label(e.verification_level@));
            let caveats = if locale == "zh"@ {
                e.caveats_zh@
            } else {
                e.caveats_en@
            };
            seq![
                Seq::empty(),
                tr(locale, "section.engine_compat"@) + " - "@ + e.engine@,
                row_text(tr(locale, "engine.version_spec"@), e.version_spec@, Seq::empty()),
                row_text(tr(locale, "engine.support"@), e.support@, lv),
                row_text(tr(locale, "engine.verification"@), e.verification_level@, lv),
            ] + flags_row(locale, "engine.required_flags"@, e.required_flags@) + flags_row(
                locale,
                "engine.optional_flags"@,
                e.optional_flags@,
            ) + (if caveats.len() == 0 {
                Seq::empty()
            } else {
                seq![row_text(tr(locale, "engine.caveats"@), joined(views(caveats), "; "@), Seq::empty())]
            }) + (if e.sources@.len() == 0 {
                Seq::empty()
            } else {
                seq![
                    row_text(
                        tr(locale, "engine.sources"@),
                        joined(e.sources@.map_values(|s: EngineSource| source_text(locale, s)), "; "@),
                        Seq::empty(),
                    ),
                ]
            })
        },
    }
}

/// The notes in the current language, else in the other one.
pub open spec fn notes_for(locale: Seq<char>, g: GPUSpec) -> Option<Seq<char>> {
    if locale == "zh"@ {
        if g.notes_zh is Some {
            opt_view(g.notes_zh)
        } else {
            opt_view(g.notes_en)
        }
    } else {
        if g.notes_en is Some {
            opt_view(g.notes_en)
        } else {
            opt_view(g.notes_zh)
        }
    }
}

/// A known GPU: memory, interconnect, FP16 throughput, FP8 and FP4
/// support, notes and source.
pub open spec fn gpu_lines(locale: Seq<char>, g: GPUSpec) -> Seq<Seq<char>> {
    seq![
        Seq::empty(),
        tr(locale, "section.hardware"@) + " - "@ + g.id@,
        row_text(tr(locale, "hw.memory"@), dec(g.memory_gb as nat) + " GB HBM"@, Seq::empty()),
        row_text(tr(locale, "hw.nvlink_bandwidth"@), dec(g.nvlink_bandwidth_gbps as nat) + " GB/s"@, Seq::empty()),
        row_text(tr(locale, "hw.fp16_tflops"@), fixed(g.fp16_tflops_milli as nat, 1000, 0) + " TFLOPS"@, Seq::empty()),
        row_text(tr(locale, "hw.fp8_support"@), yes_no(locale, g.fp8_support), Seq::empty()),
        row_text(tr(locale, "hw.fp4_support"@), yes_no(locale, g.fp4_support), Seq::empty()),
    ] + match notes_for(locale, g) {
        Some(n) => seq![row_text(tr(locale, "hw.notes"@), n, Seq::empty())],
        None => Seq::empty(),
    } + match g.spec_source {
        Some(s) => seq![row_text(tr(locale, "hw.spec_source"@), s@, Seq::empty())],
        None => Seq::empty(),
    }
}

/// Why no GPU is known: the lookup's message, else a default.
pub open spec fn lookup_error(r: EvaluationReport) -> Seq<char> {
    match r.gpu_error {
        Some(e) => e@,
        None => "Unknown GPU '"@ + r.gpu@ + "'"@,
    }
}

/// The hardware section: the lookup error, or the GPU's figures.
#[verifier::opaque]
pub open spec fn hardware_lines(locale: Seq<char>, r: EvaluationReport) -> Seq<Seq<char>> {
    match r.gpu_spec {
        None => seq![Seq::empty(), tr(locale, "section.hardware"@) + ": "@ + lookup_error(r)],
        Some(g) => gpu_lines(locale, *g),
    }
}

fn flag_str(f: &EngineFlag) -> (s: String)
    ensures
        s@ == flag_text(*f),
{
    match &f.value {
        Some(v) => {
            let mut s = f.flag.clone();
            s.append(" ");
            s.append(v.as_str());
            s
        },
        None => f.flag.clone(),
    }
}

fn opt_str(o: &Option<String>) -> (s: &str)
    ensures
        s@ == or_empty(*o),
{
    proof {
        reveal_strlit("");
    }
    match o {
        Some(s) => s.as_str(),
        None => "",
    }
}

fn source_str(state: &LocaleState, s: &EngineSource) -> (r: String)
    ensures
        r@ == source_text(state.locale@, *s),
{
    let mut key = "source.".to_string();
    key.append(s.source_type.as_str());
    let label = t(state, key.as_str());
    let mut r = "[".to_string();
    r.append(label.as_str());
    if str_eq(s.source_type.as_str(), "tested") {
        r.append("] ");
        r.append(opt_str(&s.tester));
        r.append(" @ ");
        r.append(opt_str(&s.hardware));
        r.append(" (");
        r.append(opt_str(&s.date));
        r.append(")");
        return r;
    }
    match &s.url {
        Some(u) => {
            r.append("] ");
            r.append(u.as_str());
            match &s.captured_date {
                Some(d) => {
                    r.append(" (");
                    r.append(t(state, "source.captured_on").as_str());
                    r.append(" ");
                    r.append(d.as_str());
                    r.append(")");
                },
                None => {},
            }
        },
        None => {
            r.append("]");
        },
    }
    r
}

fn level_tag(state: &LocaleState, level: &str) -> (s: String)
    ensures
        s@ == tag_text(state.locale@, level_label(level@)),
{
    let label = if str_eq(level, "verified") {
        Label::Verified
    } else if str_eq(level, "cited") {
        Label::Cited
    } else if str_eq(level, "unverified") {
        Label::Unverified
    } else {
        Label::Unknown
    };
    tag(state, label)
}

fn push_flags_row(state: &LocaleState, key: &str, flags: &Vec<EngineFlag>, out: &mut Vec<String>)
    ensures
        views(final(out)@) == views(old(out)@) + flags_row(state.locale@, key@, flags@),
{
    if flags.len() == 0 {
        assert(views(out@) =~= views(old(out)@) + flags_row(state.locale@, key@, flags@));
        return;
    }
    let mut parts: Vec<String> = Vec::new();
    let mut i: usize = 0;
    while i < flags.len()
        invariant
            i <= flags@.len(),
            views(parts@) == flags@.subrange(0, i as int).map_values(|f: EngineFlag| flag_text(f)),
        decreases flags.len() - i,
    {
        let f = flag_str(&flags[i]);
        proof {
            lemma_views_push(parts@, f);
        }
        parts.push(f);
        assert(flags@.subrange(0, i + 1).map_values(|f: EngineFlag| flag_text(f)) =~= flags@.subrange(
            0,
            i as int,
        ).map_values(|f: EngineFlag| flag_text(f)).push(flag_text(flags@[i as int])));
        i = i + 1;
    }
    assert(flags@.subrange(0, flags@.len() as int) =~= flags@);
    proof {
        reveal_strlit("");
    }
    push_line(out, row(t(state, key), join(&parts, ", ").as_str(), ""));
    assert(views(out@) =~= views(old(out)@) + flags_row(state.locale@, key@, flags@));
}

fn sources_joined(state: &LocaleState, sources: &Vec<EngineSource>) -> (s: String)
    ensures
        s@ == joined(sources@.map_values(|x: EngineSource| source_text(state.locale@, x)), "; "@),
{
    let mut parts: Vec<String> = Vec::new();
    let mut i: usize = 0;
    while i < sources.len()
        invariant
            i <= sources@.len(),
            views(parts@) == sources@.subrange(0, i as int).map_values(|x: EngineSource| source_text(state.locale@, x)),
        decreases sources.len() - i,
    {
        let x = source_str(state, &sources[i]);
        proof {
            lemma_views_push(parts@, x);
        }
        parts.push(x);
        assert(sources@.subrange(0, i + 1).map_values(|x: EngineSource| source_text(state.locale@, x))
            =~= sources@.subrange(0, i as int).map_values(|x: EngineSource| source_text(state.locale@, x)).push(
            source_text(state.locale@, sources@[i as int]),
        ));
        i = i + 1;
    }
    assert(sources@.subrange(0, sources@.len() as int) =~= sources@);
    join(&parts, "; ")
}

fn push_engine_entry(state: &LocaleState, e: &EngineCompatEntry, out: &mut Vec<String>)
    ensures
        views(final(out)@) == views(old(out)@) + engine_lines(state.locale@, Some(e)),
{
    reveal(engine_lines);
    proof {
        reveal_strlit("");
    }
    let lv = level_tag(state, e.verification_level.as_str());
    push_line(out, String::new());
    let mut head = t(state, "section.engine_compat");
    head.append(" - ");
    head.append(e.engine.as_str());
    push_line(out, head);
    push_line(out, row(t(state, "engine.version_spec"), e.version_spec.as_str(), ""));
    push_line(out, row(t(state, "engine.support"), e.support.as_str(), lv.as_str()));
    push_line(out, row(t(state, "engine.verification"), e.verification_level.as_str(), lv.as_str()));
    let ghost five = views(out@);
    push_flags_row(state, "engine.required_flags", &e.required_flags, out);
    push_flags_row(state, "engine.optional_flags", &e.optional_flags, out);
    let caveats = if str_eq(state.locale.as_str(), "zh") {
        &e.caveats_zh
    } else {
        &e.caveats_en
    };
    if caveats.len() > 0 {
        push_line(out, row(t(state, "engine.caveats"), join(caveats, "; ").as_str(), ""));
    }
    if e.sources.len() > 0 {
        push_line(out, row(t(state, "engine.sources"), sources_joined(state, &e.sources).as_str(), ""));
    }
    assert(views(out@) =~= views(old(out)@) + engine_lines(state.locale@, Some(e)));
}

/// Appends the engine compatibility section of a report.
pub fn render_engine_compat(state: &LocaleState, report: &EvaluationReport, out: &mut Vec<String>)
    ensures
        views(final(out)@) == views(old(out)@) + engine_lines(state.locale@, report.engine_match),
{
    reveal(engine_lines);
    match report.engine_match {
        None => {
            push_line(out, String::new());
            let mut line = t(state, "section.engine_compat");
            line.append(": ");
            line.append(t(state, "engine.no_match").as_str());
            push_line(out, line);
            proof {
                reveal_strlit("");
            }
            assert(views(out@) =~= views(old(out)@) + engine_lines(state.locale@, report.engine_match));
        },
        Some(e) => push_engine_entry(state, e, out),
    }
}

fn yes_no_text(state: &LocaleState, b: bool) -> (s: String)
    ensures
        s@ == yes_no(state.locale@, b),
{
    if b {
        t(state, "hw.bool_yes")
    } else {
        t(state, "hw.bool_no")
    }
}

fn push_gpu_lines(state: &LocaleState, g: &GPUSpec, out: &mut Vec<String>)
    ensures
        views(final(out)@) == views(old(out)@) + gpu_lines(state.locale@, *g),
{
    proof {
        reveal_strlit("");
    }
    push_line(out, String::new());
    let mut head = t(state, "section.hardware");
    head.append(" - ");
    head.append(g.id.as_str());
    push_line(out, head);
    let mut mem = u64_to_string(g.memory_gb);
    mem.append(" GB HBM");
    push_line(out, row(t(state, "hw.memory"), mem.as_str(), ""));
    let mut nv = u64_to_string(g.nvlink_bandwidth_gbps);
    nv.append(" GB/s");
    push_line(out, row(t(state, "hw.nvlink_bandwidth"), nv.as_str(), ""));
    let mut fp16 = fmt_fixed(g.fp16_tflops_milli, 1000, 0);
    fp16.append(" TFLOPS");
    push_line(out, row(t(state, "hw.fp16_tflops"), fp16.as_str(), ""));
    push_line(out, row(t(state, "hw.fp8_support"), yes_no_text(state, g.fp8_support).as_str(), ""));
    push_line(out, row(t(state, "hw.fp4_support"), yes_no_text(state, g.fp4_support).as_str(), ""));
    match g.localized_notes(state.locale.as_str()) {
        Some(n) => push_line(out, row(t(state, "hw.notes"), n, "")),
        None => {},
    }
    match &g.spec_source {
        Some(src) => push_line(out, row(t(state, "hw.spec_source"), src.as_str(), "")),
        None => {},
    }
    assert(views(out@) =~= views(old(out)@) + gpu_lines(state.locale@, *g));
}

fn lookup_error_text(report: &EvaluationReport) -> (s: String)
    ensures
        s@ == lookup_error(*report),
{
    match &report.gpu_error {
        Some(e) => e.clone(),
        None => {
            let mut s = "Unknown GPU '".to_string();
            s.append(report.gpu.as_str());
            s.append("'");
            s
        },
    }
}

/// Appends the hardware section of a report.
pub fn render_hardware(state: &LocaleState, report: &EvaluationReport, out: &mut Vec<String>)
    ensures
        views(final(out)@) == views(old(out)@) + hardware_lines(state.locale@, *report),
{
    reveal(hardware_lines);
    match report.gpu_spec {
        Some(g) => push_gpu_lines(state, g, out),
        None => {
            push_line(out, String::new());
            let mut line = t(state, "section.hardware");
            line.append(": ");
            line.append(lookup_error_text(report).as_str());
            push_line(out, line);
            proof {
                reveal_strlit("");
            }
            assert(views(out@) =~= views(old(out)@) + hardware_lines(state.locale@, *report));
        },
    }
}

/// The context lengths of every option's concurrency figures, in order.
pub open spec fn ctx_list(opts: Seq<FleetOption>) -> Seq<u64>
    decreases opts.len(),
{
    if opts.len() == 0 {
        Seq::empty()
    } else {
        ctx_list(opts.drop_last()) + opts.last().max_concurrent_by_context@.map_values(|p: (u64, u64)| p.0)
    }
}

/// The largest element (zero for none).
pub open spec fn seq_max(s: Seq<u64>) -> u64
    decreases s.len(),
{
    if s.len() == 0 {
        0
    } else if s.last() > seq_max(s.drop_last()) {
        s.last()
    } else {
        seq_max(s.drop_last())
    }
}

/// The context lengths shown as columns: 128K where present, and the
/// longest when beyond it; otherwise 32K where present, else the longest.
pub open spec fn concurrency_columns(opts: Seq<FleetOption>) -> Seq<u64> {
    let cs = ctx_list(opts);
    let m = seq_max(cs);
    if cs.len() == 0 {
        Seq::empty()
    } else if cs.contains(131_072) {
        if m > 131_072 {
            seq![131_072, m]
        } else {
            seq![131_072]
        }
    } else if m > 131_072 {
        seq![m]
    } else if cs.contains(32_768) {
        seq![32_768]
    } else {
        seq![m]
    }
}

/// The first concurrency figure at `ctx`, zero when none.
pub open spec fn concurrent_at(pairs: Seq<(u64, u64)>, ctx: u64) -> u64
    decreases pairs.len(),
{
    if pairs.len() == 0 {
        0
    } else if pairs[0].0 == ctx {
        pairs[0].1
    } else {
        concurrent_at(pairs.drop_first(), ctx)
    }
}

pub open spec fn column_text(locale: Seq<char>, o: FleetOption, ctx: u64) -> Seq<char> {
    let c = concurrent_at(o.max_concurrent_by_context@, ctx);
    ", "@ + translated(locale, "fleet.col.concurrent_at_ctx"@, seq![("ctx"@, context_text(ctx))]) + " "@ + if c > 0 {
        "~"@ + dec(c as nat)
    } else {
        "x"@
    }
}

pub open spec fn columns_text(locale: Seq<char>, o: FleetOption, cols: Seq<u64>) -> Seq<char>
    decreases cols.len(),
{
    if cols.len() == 0 {
        Seq::empty()
    } else {
        columns_text(locale, o, cols.drop_last()) + column_text(locale, o, cols.last())
    }
}

/// One tier's head: its name (starred when recommended), GPU count,
/// weight and headroom per GPU, and the layout when pipelined.
pub open spec fn option_head(locale: Seq<char>, f: FleetRecommendation, o: FleetOption) -> Seq<char> {
    let headroom = sat_sub(o.usable_bytes_per_gpu, o.weight_bytes_per_gpu);
    tr(locale, "fleet.tier."@ + o.tier@) + (if opt_name(f.best_tier) == Some(o.tier@) {
        " *"@
    } else {
        Seq::empty()
    }) + ": "@ + dec(o.gpu_count as nat) + " GPUs, weight/GPU "@ + bytes_text(o.weight_bytes_per_gpu) + ", headroom "@
        + (if headroom > 0 {
        bytes_text(headroom)
    } else {
        "-"@
    }) + (if o.pipeline_parallel_size > 1 {
        ", layout TP"@ + dec(o.tensor_parallel_size as nat) + "xPP"@ + dec(o.pipeline_parallel_size as nat) + " ("@
            + dec(o.node_count as nat) + " nodes)"@
    } else {
        Seq::empty()
    })
}

/// One tier: its head, the concurrency at each shown context, and whether
/// it does not fit.
pub open spec fn option_line(locale: Seq<char>, f: FleetRecommendation, o: FleetOption, cols: Seq<u64>) -> Seq<char> {
    option_head(locale, f, o) + columns_text(locale, o, cols) + if !o.fits {
        " (does not fit)"@
    } else {
        Seq::empty()
    }
}

/// The fleet section: nothing without a plan (a note when the GPU is known
/// but not its figures), else the GPU, one line per tier, the constraint in
/// the current language, and the marker's meaning or that no tier fits.
#[verifier::opaque]
pub open spec fn fleet_lines(locale: Seq<char>, r: EvaluationReport) -> Seq<Seq<char>> {
    match r.fleet {
        None => if r.gpu_spec is Some {
            seq![tr(locale, "fleet.gpu_spec_unknown"@)]
        } else {
            Seq::empty()
        },
        Some(f) => seq![
            Seq::empty(),
            tr(locale, "section.fleet"@) + " - "@ + match r.gpu_spec {
                Some(g) => g.id@,
                None => r.gpu@,
            },
        ] + f.options@.map_values(|o: FleetOption| option_line(locale, f, o, concurrency_columns(f.options@))) + seq![
            tr(locale, "fleet.constraint"@) + " "@ + if locale == "zh"@ {
                f.constraint_note_zh@
            } else {
                f.constraint_note_en@
            },
            if f.best_tier is Some {
                "* "@ + tr(locale, "fleet.best_marker"@)
            } else {
                tr(locale, "fleet.no_recommended_tier"@)
            },
        ],
    }
}

fn all_contexts(opts: &Vec<FleetOption>) -> (all: Vec<u64>)
    ensures
        all@ == ctx_list(opts@),
{
    let mut all: Vec<u64> = Vec::new();
    let mut i: usize = 0;
    while i < opts.len()
        invariant
            i <= opts@.len(),
            all@ == ctx_list(opts@.subrange(0, i as int)),
        decreases opts.len() - i,
    {
        let pairs = &opts[i].max_concurrent_by_context;
        let ghost before = all@;
        let mut j: usize = 0;
        while j < pairs.len()
            invariant
                j <= pairs@.len(),
                all@ == before + pairs@.subrange(0, j as int).map_values(|p: (u64, u64)| p.0),
            decreases pairs.len() - j,
        {
            all.push(pairs[j].0);
            assert(pairs@.subrange(0, j + 1).map_values(|p: (u64, u64)| p.0) =~= pairs@.subrange(0, j as int).map_values(
                |p: (u64, u64)| p.0,
            ).push(pairs@[j as int].0));
            j = j + 1;
        }
        assert(pairs@.subrange(0, pairs@.len() as int) =~= pairs@);
        assert(opts@.subrange(0, i + 1).drop_last() =~= opts@.subrange(0, i as int));
        i = i + 1;
    }
    assert(opts@.subrange(0, opts@.len() as int) =~= opts@);
    all
}

/// The context lengths shown as concurrency columns in the fleet table.
pub fn select_concurrency_columns(fleet: &FleetRecommendation) -> (cols: Vec<u64>)
    ensures
        cols@ == concurrency_columns(fleet.options@),
{
    let all = all_contexts(&fleet.options);
    let mut m: u64 = 0;
    let mut has_long = false;
    let mut has_short = false;
    let mut k: usize = 0;
    while k < all.len()
        invariant
            k <= all@.len(),
            m == seq_max(all@.subrange(0, k as int)),
            has_long == all@.subrange(0, k as int).contains(131_072),
            has_short == all@.subrange(0, k as int).contains(32_768),
        decreases all.len() - k,
    {
        let c = all[k];
        let ghost pre = all@.subrange(0, k as int);
        assert(all@.subrange(0, k + 1) =~= pre.push(c));
        assert(all@.subrange(0, k + 1).drop_last() =~= pre);
        proof {
            assert(pre.push(c)[k as int] == c);
            if pre.contains(131_072) {
                let w = choose|x: int| 0 <= x < pre.len() && pre[x] == 131_072;
                assert(pre.push(c)[w] == 131_072);
            }
            if pre.contains(32_768) {
                let w = choose|x: int| 0 <= x < pre.len() && pre[x] == 32_768;
                assert(pre.push(c)[w] == 32_768);
            }
            if pre.push(c).contains(131_072) && c != 131_072 {
                let w = choose|x: int| 0 <= x < pre.len() + 1 && pre.push(c)[x] == 131_072;
                assert(pre[w] == 131_072);
            }
            if pre.push(c).contains(32_768) && c != 32_768 {
                let w = choose|x: int| 0 <= x < pre.len() + 1 && pre.push(c)[x] == 32_768;
                assert(pre[w] == 32_768);
            }
        }
        if c > m {
            m = c;
        }
        if c == 131_072 {
            has_long = true;
        }
        if c == 32_768 {
            has_short = true;
        }
        k = k + 1;
    }
    assert(all@.subrange(0, all@.len() as int) =~= all@);
    let mut cols: Vec<u64> = Vec::new();
    if all.len() == 0 {
        return cols;
    }
    if has_long {
        cols.push(131_072);
        if m > 131_072 {
            cols.push(m);
        }
    } else if m > 131_072 {
        cols.push(m);
    } else if has_short {
        cols.push(32_768);
    } else {
        cols.push(m);
    }
    cols
}

fn concurrent_for(pairs: &Vec<(u64, u64)>, ctx: u64) -> (c: u64)
    ensures
        c == concurrent_at(pairs@, ctx),
{
    let mut i: usize = 0;
    assert(pairs@.subrange(0, pairs@.len() as int) =~= pairs@);
    while i < pairs.len()
        invariant
            i <= pairs@.len(),
            concurrent_at(pairs@, ctx) == concurrent_at(pairs@.subrange(i as int, pairs@.len() as int), ctx),
        decreases pairs.len() - i,
    {
        assert(pairs@.subrange(i as int, pairs@.len() as int).drop_first() =~= pairs@.subrange(
            i + 1,
            pairs@.len() as int,
        ));
        if pairs[i].0 == ctx {
            return pairs[i].1;
        }
        i = i + 1;
    }
    0
}

fn option_head_text(state: &LocaleState, f: &FleetRecommendation, o: &FleetOption) -> (s: String)
    ensures
        s@ == option_head(state.locale@, *f, *o),
{
    let headroom = if o.usable_bytes_per_gpu >= o.weight_bytes_per_gpu {
        o.usable_bytes_per_gpu - o.weight_bytes_per_gpu
    } else {
        0
    };
    let mut key = "fleet.tier.".to_string();
    key.append(o.tier);
    let mut s = t(state, key.as_str());
    let starred = match f.best_tier {
        Some(b) => str_eq(b, o.tier),
        None => false,
    };
    if starred {
        s.append(" *");
    }
    s.append(": ");
    s.append(u64_to_string(o.gpu_count).as_str());
    s.append(" GPUs, weight/GPU ");
    s.append(fmt_bytes(o.weight_bytes_per_gpu).as_str());
    s.append(", headroom ");
    if headroom > 0 {
        s.append(fmt_bytes(headroom).as_str());
    } else {
        s.append("-");
    }
    if o.pipeline_parallel_size > 1 {
        s.append(", layout TP");
        s.append(u64_to_string(o.tensor_parallel_size).as_str());
        s.append("xPP");
        s.append(u64_to_string(o.pipeline_parallel_size).as_str());
        s.append(" (");
        s.append(u64_to_string(o.node_count).as_str());
        s.append(" nodes)");
    }
    proof {
        reveal_strlit("");
    }
    assert(s@ =~= option_head(state.locale@, *f, *o));
    s
}

fn column_str(state: &LocaleState, o: &FleetOption, ctx: u64) -> (s: String)
    ensures
        s@ == column_text(state.locale@, *o, ctx),
{
    let c = concurrent_for(&o.max_concurrent_by_context, ctx);
    let mut kw: Vec<(String, String)> = Vec::new();
    kw.push(kv("ctx", fmt_context(ctx)));
    assert(kw_view(kw@) =~= seq![("ctx"@, context_text(ctx))]);
    let mut s = ", ".to_string();
    s.append(t_with(state, "fleet.col.concurrent_at_ctx", &kw).as_str());
    s.append(" ");
    if c > 0 {
        s.append("~");
        s.append(u64_to_string(c).as_str());
    } else {
        s.append("x");
    }
    s
}

fn option_text(state: &LocaleState, f: &FleetRecommendation, o: &FleetOption, cols: &Vec<u64>) -> (s: String)
    ensures
        s@ == option_line(state.locale@, *f, *o, cols@),
{
    let mut s = option_head_text(state, f, o);
    let ghost base = s@;
    let mut i: usize = 0;
    while i < cols.len()
        invariant
            i <= cols@.len(),
            s@ == base + columns_text(state.locale@, *o, cols@.subrange(0, i as int)),
        decreases cols.len() - i,
    {
        s.append(column_str(state, o, cols[i]).as_str());
        assert(cols@.subrange(0, i + 1).drop_last() =~= cols@.subrange(0, i as int));
        i = i + 1;
    }
    assert(cols@.subrange(0, cols@.len() as int) =~= cols@);
    if !o.fits {
        s.append(" (does not fit)");
    }
    proof {
        reveal_strlit("");
    }
    assert(s@ =~= option_line(state.locale@, *f, *o, cols@));
    s
}

fn push_fleet(state: &LocaleState, report: &EvaluationReport, f: &FleetRecommendation, out: &mut Vec<String>)
    requires
        report.fleet == Some(*f),
    ensures
        views(final(out)@) == views(old(out)@) + fleet_lines(state.locale@, *report),
{
    reveal(fleet_lines);
    proof {
        reveal_strlit("");
    }
    push_line(out, String::new());
    let mut head = t(state, "section.fleet");
    head.append(" - ");
    match report.gpu_spec {
        Some(g) => head.append(g.id.as_str()),
        None => head.append(report.gpu.as_str()),
    }
    push_line(out, head);
    let ghost start = views(out@);
    let cols = select_concurrency_columns(f);
    let mut i: usize = 0;
    while i < f.options.len()
        invariant
            i <= f.options@.len(),
            cols@ == concurrency_columns(f.options@),
            views(out@) == start + f.options@.subrange(0, i as int).map_values(
                |o: FleetOption| option_line(state.locale@, *f, o, concurrency_columns(f.options@)),
            ),
        decreases f.options.len() - i,
    {
        let line = option_text(state, f, &f.options[i], &cols);
        push_line(out, line);
        assert(f.options@.subrange(0, i + 1).map_values(
            |o: FleetOption| option_line(state.locale@, *f, o, concurrency_columns(f.options@)),
        ) =~= f.options@.subrange(0, i as int).map_values(
            |o: FleetOption| option_line(state.locale@, *f, o, concurrency_columns(f.options@)),
        ).push(option_line(state.locale@, *f, f.options@[i as int], concurrency_columns(f.options@))));
        i = i + 1;
    }
    assert(f.options@.subrange(0, f.options@.len() as int) =~= f.options@);
    let mut note = t(state, "fleet.constraint");
    note.append(" ");
    if str_eq(state.locale.as_str(), "zh") {
        note.append(f.constraint_note_zh.as_str());
    } else {
        note.append(f.constraint_note_en.as_str());
    }
    push_line(out, note);
    if f.best_tier.is_some() {
        let mut line = "* ".to_string();
        line.append(t(state, "fleet.best_marker").as_str());
        push_line(out, line);
    } else {
        push_line(out, t(state, "fleet.no_recommended_tier"));
    }
    assert(views(out@) =~= views(old(out)@) + fleet_lines(state.locale@, *report));
}

/// Appends the fleet section of a report.
pub fn render_fleet(state: &LocaleState, report: &EvaluationReport, out: &mut Vec<String>)
    ensures
        views(final(out)@) == views(old(out)@) + fleet_lines(state.locale@, *report),
{
    reveal(fleet_lines);
    match &report.fleet {
        Some(f) => push_fleet(state, report, f, out),
        None => {
            if report.gpu_spec.is_some() {
                push_line(out, t(state, "fleet.gpu_spec_unknown"));
            }
            assert(views(out@) =~= views(old(out)@) + fleet_lines(state.locale@, *report));
        },
    }
}

/// The first option of the tier that fits.
pub open spec fn fitting_option(opts: Seq<FleetOption>, tier: Seq<char>) -> Option<FleetOption>
    decreases opts.len(),
{
    if opts.len() == 0 {
        None
    } else if opts[0].tier@ == tier && opts[0].fits {
        Some(opts[0])
    } else {
        fitting_option(opts.drop_first(), tier)
    }
}

/// The option of the recommended tier, if one fits.
pub open spec fn recommended(f: FleetRecommendation) -> Option<FleetOption> {
    match f.best_tier {
        Some(t) => fitting_option(f.options@, t@),
        None => None,
    }
}

proof fn lemma_fitting_at(opts: Seq<FleetOption>, tier: Seq<char>, i: int)
    requires
        0 <= i < opts.len(),
        opts[i].tier@ == tier && opts[i].fits,
        forall|j: int| 0 <= j < i ==> !(#[trigger] opts[j].tier@ == tier && opts[j].fits),
    ensures
        fitting_option(opts, tier) == Some(opts[i]),
    decreases i,
{
    if i > 0 {
        assert(!(opts[0].tier@ == tier && opts[0].fits));
        let rest = opts.drop_first();
        assert forall|j: int| 0 <= j < i - 1 implies !(#[trigger] rest[j].tier@ == tier && rest[j].fits) by {
            assert(rest[j] == opts[j + 1]);
        }
        lemma_fitting_at(rest, tier, i - 1);
    }
}

proof fn lemma_fitting_none(opts: Seq<FleetOption>, tier: Seq<char>)
    requires
        forall|j: int| 0 <= j < opts.len() ==> !(#[trigger] opts[j].tier@ == tier && opts[j].fits),
    ensures
        fitting_option(opts, tier) is None,
    decreases opts.len(),
{
    if opts.len() > 0 {
        let rest = opts.drop_first();
        assert forall|j: int| 0 <= j < rest.len() implies !(#[trigger] rest[j].tier@ == tier && rest[j].fits) by {
            assert(rest[j] == opts[j + 1]);
        }
        lemma_fitting_none(rest, tier);
    }
}

/// The launch command, with the tier and GPU count it is for; left out
/// without a command or a fitting recommended tier.
#[verifier::opaque]
pub open spec fn command_lines(locale: Seq<char>, r: EvaluationReport) -> Seq<Seq<char>> {
    match (r.generated_command, r.fleet) {
        (Some(c), Some(f)) => match recommended(f) {
            Some(best) => seq![
                Seq::empty(),
                tr(locale, "section.command"@) + " - "@ + translated(
                    locale,
                    "command.tier_note"@,
                    seq![("tier"@, tr(locale, "fleet.tier."@ + best.tier@)), ("gpus"@, dec(best.gpu_count as nat))],
                ),
                c@,
            ],
            None => Seq::empty(),
        },
        _ => Seq::empty(),
    }
}

/// Every label with its tag, after a title.
#[verifier::opaque]
pub open spec fn legend_lines(locale: Seq<char>) -> Seq<Seq<char>> {
    seq![
        Seq::empty(),
        tr(locale, "section.labels"@) + " "@ + joined(
            seq![
                Label::Verified,
                Label::Inferred,
                Label::Estimated,
                Label::Cited,
                Label::Unverified,
                Label::Unknown,
                Label::LlmOpinion,
            ].map_values(|l: Label| tag_text(locale, l)),
            " "@,
        ),
    ]
}

/// The bytes a character takes in UTF-8.
pub open spec fn utf8_width(c: char) -> nat {
    if (c as u32) < 0x80 {
        1
    } else if (c as u32) < 0x800 {
        2
    } else if (c as u32) < 0x10000 {
        3
    } else {
        4
    }
}

pub open spec fn utf8_len(s: Seq<char>) -> nat
    decreases s.len(),
{
    if s.len() == 0 {
        0
    } else {
        utf8_width(s[0]) + utf8_len(s.drop_first())
    }
}

/// The longest prefix that takes at most `budget` bytes.
pub open spec fn bytes_prefix(s: Seq<char>, budget: nat) -> Seq<char>
    decreases s.len(),
{
    if s.len() == 0 || utf8_width(s[0]) > budget {
        Seq::empty()
    } else {
        seq![s[0]] + bytes_prefix(s.drop_first(), (budget - utf8_width(s[0])) as nat)
    }
}

/// A commit id can be cut after its seventh byte: the cut falls between
/// two characters.
pub open spec fn sha_cut_ok(sha: Option<String>) -> bool {
    match sha {
        Some(s) => utf8_len(bytes_prefix(s@, 7)) == if utf8_len(s@) < 7 {
            utf8_len(s@)
        } else {
            7
        },
        None => true,
    }
}

/// The report's first line: model, source, and the commit cut to seven
/// bytes.
pub open spec fn header_line(locale: Seq<char>, r: EvaluationReport) -> Seq<char> {
    r.model_id@ + "  "@ + tr(locale, "panel.via"@) + " "@ + r.source@ + sha_suffix(r.commit_sha)
}

/// ` @ ` and the commit cut to seven bytes, or nothing.
pub open spec fn sha_suffix(sha: Option<String>) -> Seq<char> {
    match sha {
        Some(s) => " @ "@ + bytes_prefix(s@, 7),
        None => Seq::empty(),
    }
}

/// The sections computed from the evaluation alone: architecture,
/// weights, KV cache, engine, hardware and fleet.
pub open spec fn report_sections(locale: Seq<char>, r: EvaluationReport) -> Seq<Seq<char>> {
    architecture_lines(locale, r.profile) + weight_lines(locale, r) + kv_cache_lines(locale, r.kv_cache_by_context@)
        + engine_lines(locale, r.engine_match) + hardware_lines(locale, r) + fleet_lines(locale, r)
}

/// The whole report: header, the sections, performance, the command and
/// the legend.
pub open spec fn report_lines(
    locale: Seq<char>,
    r: EvaluationReport,
    perf: Option<(&PerformanceTexts, &ConcurrencyBounds)>,
) -> Seq<Seq<char>> {
    seq![header_line(locale, r)] + report_sections(locale, r) + performance_lines(locale, r, perf) + command_lines(
        locale,
        r,
    ) + legend_lines(locale)
}

/// Appends the command section of a report.
pub fn render_command(state: &LocaleState, report: &EvaluationReport, out: &mut Vec<String>)
    ensures
        views(final(out)@) == views(old(out)@) + command_lines(state.locale@, *report),
{
    reveal(command_lines);
    let (command, fleet) = match (&report.generated_command, &report.fleet) {
        (Some(c), Some(f)) => (c, f),
        _ => {
            assert(views(out@) =~= views(old(out)@) + command_lines(state.locale@, *report));
            return;
        },
    };
    let best = fleet.best_option();
    proof {
        match fleet.best_tier {
            Some(t) => match best {
                Some(o) => {
                    let i = choose|i: int|
                        0 <= i < fleet.options@.len() && fleet.options@[i] == *o && forall|j: int|
                            0 <= j < i ==> !(#[trigger] fleet.options@[j].tier@ == fleet.best_tier->0@
                                && fleet.options@[j].fits);
                    lemma_fitting_at(fleet.options@, t@, i);
                },
                None => lemma_fitting_none(fleet.options@, t@),
            },
            None => {},
        }
    }
    let best = match best {
        Some(b) => b,
        None => {
            assert(views(out@) =~= views(old(out)@) + command_lines(state.locale@, *report));
            return;
        },
    };
    push_line(out, String::new());
    let mut key = "fleet.tier.".to_string();
    key.append(best.tier);
    let mut kw: Vec<(String, String)> = Vec::new();
    kw.push(kv("tier", t(state, key.as_str())));
    kw.push(kv("gpus", u64_to_string(best.gpu_count)));
    assert(kw_view(kw@) =~= seq![
        ("tier"@, tr(state.locale@, "fleet.tier."@ + best.tier@)),
        ("gpus"@, dec(best.gpu_count as nat)),
    ]);
    let mut head = t(state, "section.command");
    head.append(" - ");
    proof {
        reveal_strlit("tier");
        reveal_strlit("gpus");
        assert forall|i: int, j: int| 0 <= i < j < 2 implies #[trigger] kw_view(kw@)[i].0 != #[trigger] kw_view(kw@)[j].0 by {
            if i == 0 && j == 1 {
                assert("tier"@[0] != "gpus"@[0]);
            }
        }
    }
    head.append(t_with(state, "command.tier_note", &kw).as_str());
    push_line(out, head);
    push_line(out, command.clone());
    proof {
        reveal_strlit("");
    }
    assert(views(out@) =~= views(old(out)@) + command_lines(state.locale@, *report));
}

/// Appends the legend of labels.
pub fn render_label_legend(state: &LocaleState, out: &mut Vec<String>)
    ensures
        views(final(out)@) == views(old(out)@) + legend_lines(state.locale@),
{
    reveal(legend_lines);
    let labels = Label::all();
    let ghost want = seq![
        Label::Verified,
        Label::Inferred,
        Label::Estimated,
        Label::Cited,
        Label::Unverified,
        Label::Unknown,
        Label::LlmOpinion,
    ];
    let mut tags: Vec<String> = Vec::new();
    let mut i: usize = 0;
    while i < 7
        invariant
            i <= 7,
            labels@ == want,
            views(tags@) == want.subrange(0, i as int).map_values(|l: Label| tag_text(state.locale@, l)),
        decreases 7 - i,
    {
        let x = tag(state, labels[i]);
        proof {
            lemma_views_push(tags@, x);
        }
        tags.push(x);
        assert(want.subrange(0, i + 1).map_values(|l: Label| tag_text(state.locale@, l)) =~= want.subrange(
            0,
            i as int,
        ).map_values(|l: Label| tag_text(state.locale@, l)).push(tag_text(state.locale@, want[i as int])));
        i = i + 1;
    }
    assert(want.subrange(0, 7) =~= want);
    push_line(out, String::new());
    let mut line = t(state, "section.labels");
    line.append(" ");
    line.append(join(&tags, " ").as_str());
    push_line(out, line);
    proof {
        reveal_strlit("");
    }
    assert(views(out@) =~= views(old(out)@) + legend_lines(state.locale@));
}

fn width(c: char) -> (w: usize)
    ensures
        w == utf8_width(c),
{
    let v = c as u32;
    if v < 0x80 {
        1
    } else if v < 0x800 {
        2
    } else if v < 0x10000 {
        3
    } else {
        4
    }
}

proof fn lemma_utf8_concat(a: Seq<char>, b: Seq<char>)
    ensures
        utf8_len(a + b) == utf8_len(a) + utf8_len(b),
    decreases a.len(),
{
    if a.len() == 0 {
        assert(a + b =~= b);
    } else {
        assert((a + b).drop_first() =~= a.drop_first() + b);
        assert((a + b)[0] == a[0]);
        lemma_utf8_concat(a.drop_first(), b);
    }
}

proof fn lemma_utf8_single(c: char)
    ensures
        utf8_len(seq![c]) == utf8_width(c),
{
    assert(seq![c].drop_first() =~= Seq::<char>::empty());
    assert(utf8_len(Seq::<char>::empty()) == 0);
}

/// A commit id cut to its first seven bytes, and whether the cut falls
/// between two characters.
fn cut_commit(s: &str) -> (r: (String, bool))
    ensures
        r.0@ == bytes_prefix(s@, 7),
        r.1 == (utf8_len(bytes_prefix(s@, 7)) == if utf8_len(s@) < 7 {
            utf8_len(s@)
        } else {
            7
        }),
{
    let v = chars_of(s);
    let mut out: Vec<char> = Vec::new();
    let mut budget: usize = 7;
    let mut i: usize = 0;
    assert(v@.subrange(0, v@.len() as int) =~= v@);
    assert(v@.subrange(0, 0) =~= Seq::<char>::empty());
    while i < v.len() && width(v[i]) <= budget
        invariant
            i <= v@.len(),
            v@ == s@,
            budget <= 7,
            out@ == v@.subrange(0, i as int),
            utf8_len(v@.subrange(0, i as int)) + budget == 7,
            bytes_prefix(v@, 7) == v@.subrange(0, i as int) + bytes_prefix(
                v@.subrange(i as int, v@.len() as int),
                budget as nat,
            ),
        decreases v.len() - i,
    {
        let w = width(v[i]);
        proof {
            assert(v@.subrange(i as int, v@.len() as int).drop_first() =~= v@.subrange(i + 1, v@.len() as int));
            assert(v@.subrange(i as int, v@.len() as int)[0] == v@[i as int]);
            assert(v@.subrange(0, i + 1) =~= v@.subrange(0, i as int) + seq![v@[i as int]]);
            lemma_utf8_concat(v@.subrange(0, i as int), seq![v@[i as int]]);
            lemma_utf8_single(v@[i as int]);
            assert(v@.subrange(0, i as int) + (seq![v@[i as int]] + bytes_prefix(
                v@.subrange(i + 1, v@.len() as int),
                (budget - w) as nat,
            )) =~= v@.subrange(0, i + 1) + bytes_prefix(v@.subrange(i + 1, v@.len() as int), (budget - w) as nat));
        }
        out.push(v[i]);
        budget = budget - w;
        i = i + 1;
    }
    proof {
        let rest = v@.subrange(i as int, v@.len() as int);
        assert(bytes_prefix(rest, budget as nat) =~= Seq::<char>::empty());
        assert(bytes_prefix(v@, 7) =~= v@.subrange(0, i as int));
        assert(v@ =~= v@.subrange(0, i as int) + rest);
        lemma_utf8_concat(v@.subrange(0, i as int), rest);
        if i < v@.len() {
            assert(rest[0] == v@[i as int]);
            assert(utf8_len(rest) >= utf8_width(rest[0]));
        } else {
            assert(rest =~= Seq::<char>::empty());
        }
    }
    let ok = i == v.len() || budget == 0;
    (string_of(&out), ok)
}

/// Whether a commit id can be cut after its seventh byte.
pub fn sha_cut_check(sha: &Option<String>) -> (b: bool)
    ensures
        b == sha_cut_ok(*sha),
{
    match sha {
        None => true,
        Some(s) => cut_commit(s.as_str()).1,
    }
}

fn push_sections(state: &LocaleState, report: &EvaluationReport, out: &mut Vec<String>)
    ensures
        views(final(out)@) == views(old(out)@) + report_sections(state.locale@, *report),
{
    render_architecture(state, report, out);
    render_weight(state, report, out);
    render_kv_cache(state, report, out);
    render_engine_compat(state, report, out);
    render_hardware(state, report, out);
    render_fleet(state, report, out);
    assert(views(out@) =~= views(old(out)@) + report_sections(state.locale@, *report));
}

fn sha_suffix_text(sha: &Option<String>) -> (s: String)
    ensures
        s@ == sha_suffix(*sha),
{
    match sha {
        Some(c) => {
            let mut s = " @ ".to_string();
            s.append(cut_commit(c.as_str()).0.as_str());
            s
        },
        None => String::new(),
    }
}

/// Renders the evaluation report as text. The throughput figures, which
/// are floating point, come in already rendered.
pub fn render_report_text(
    state: &LocaleState,
    report: &EvaluationReport,
    perf: Option<(&PerformanceTexts, &ConcurrencyBounds)>,
) -> (s: String)
    requires
        sha_cut_ok(report.commit_sha),
    ensures
        s@ == joined(report_lines(state.locale@, *report, perf), "\n"@),
{
    let mut out: Vec<String> = Vec::new();
    let mut head = report.model_id.clone();
    head.append("  ");
    head.append(t(state, "panel.via").as_str());
    head.append(" ");
    head.append(report.source.as_str());
    head.append(sha_suffix_text(&report.commit_sha).as_str());
    push_line(&mut out, head);
    assert(views(out@) =~= seq![header_line(state.locale@, *report)]);
    push_sections(state, report, &mut out);
    render_performance(state, report, perf, &mut out);
    render_command(state, report, &mut out);
    render_label_legend(state, &mut out);
    assert(views(out@) =~= report_lines(state.locale@, *report, perf));
    join(&out, "\n")
}

/// The throughput side of a report, already rendered: the figures are
/// floating point and are worked out outside the library.
pub struct PerformanceTexts {
    /// Per-user target, tokens per second.
    pub target_tps: String,
    /// Prefill utilization as a percentage.
    pub prefill_util: String,
    /// Decode bandwidth utilization as a percentage.
    pub decode_util: String,
    pub degradation: String,
    pub prefill_latency: AnnotatedValue<String>,
    pub per_gpu_tps: AnnotatedValue<String>,
    pub cluster_tps: AnnotatedValue<String>,
    pub moe_active_tps: Option<AnnotatedValue<String>>,
}

pub open spec fn text_row(locale: Seq<char>, key: Seq<char>, v: AnnotatedValue<String>) -> Seq<char> {
    row_text(tr(locale, key), v.value@, tag_text(locale, v.label))
}

pub open spec fn count_row(locale: Seq<char>, key: Seq<char>, v: AnnotatedValue<u64>) -> Seq<char> {
    row_text(tr(locale, key), dec(v.value as nat), tag_text(locale, v.label))
}

pub open spec fn unwrap_or_512(o: Option<u64>) -> u64 {
    match o {
        Some(n) => n,
        None => 512,
    }
}

/// The assumptions behind the performance figures.
pub open spec fn assumptions_line(locale: Seq<char>, input_tokens: u64, output_tokens: Option<u64>, p: PerformanceTexts) -> Seq<
    char,
> {
    translated(
        locale,
        "perf.assumptions_note"@,
        seq![
            ("input_tokens"@, dec(input_tokens as nat)),
            ("output_tokens"@, dec(unwrap_or_512(output_tokens) as nat)),
            ("target_tps"@, p.target_tps@),
            ("prefill_util"@, p.prefill_util@),
            ("decode_util"@, p.decode_util@),
            ("degradation"@, p.degradation@),
        ],
    )
}

/// The performance section: the assumptions, prefill latency, decode
/// throughput per GPU and for the cluster (and the optimistic MoE figure),
/// the concurrency bounds, the bottleneck with its reason in the current
/// language, and the usual ways out.
pub open spec fn performance_block(
    locale: Seq<char>,
    input_tokens: u64,
    output_tokens: Option<u64>,
    p: PerformanceTexts,
    c: ConcurrencyBounds,
) -> Seq<Seq<char>> {
    seq![
        Seq::empty(),
        tr(locale, "section.performance"@),
        assumptions_line(locale, input_tokens, output_tokens, p),
        text_row(locale, "perf.prefill_latency"@, p.prefill_latency),
        text_row(locale, "perf.decode_throughput_per_gpu"@, p.per_gpu_tps),
        text_row(locale, "perf.decode_throughput_cluster"@, p.cluster_tps),
    ] + match p.moe_active_tps {
        Some(m) => seq![text_row(locale, "perf.decode_moe_active_optimistic"@, m)],
        None => Seq::empty(),
    } + seq![
        count_row(locale, "perf.k_bound"@, c.k_bound),
        count_row(locale, "perf.l_bound"@, c.l_bound),
        count_row(locale, "perf.max_concurrent"@, c.max_concurrent),
        row_text(
            tr(locale, "perf.bottleneck"@),
            tr(locale, "perf.bottleneck."@ + bottleneck_name(c.bottleneck)) + ": "@ + if locale == "zh"@ {
                c.bottleneck_reason_zh@
            } else {
                c.bottleneck_reason_en@
            },
            Seq::empty(),
        ),
        tr(locale, "perf.optimization.header"@) + ":"@,
        "  - "@ + tr(locale, "perf.opt.quantize_int4"@),
        "  - "@ + tr(locale, "perf.opt.relax_sla"@),
        "  - "@ + tr(locale, "perf.opt.kv_fp8"@),
        "  - "@ + tr(locale, "perf.opt.moe_offload"@),
    ]
}

/// The performance section of a report, left out without an input length
/// or without the throughput figures.
#[verifier::opaque]
pub open spec fn performance_lines(
    locale: Seq<char>,
    r: EvaluationReport,
    perf: Option<(&PerformanceTexts, &ConcurrencyBounds)>,
) -> Seq<Seq<char>> {
    match (perf, r.perf_input_tokens) {
        (Some((p, c)), Some(n)) => performance_block(locale, n, r.perf_output_tokens, *p, *c),
        _ => Seq::empty(),
    }
}

fn text_row_str(state: &LocaleState, key: &str, v: &AnnotatedValue<String>) -> (s: String)
    ensures
        s@ == text_row(state.locale@, key@, *v),
{
    row(t(state, key), v.value.as_str(), format_tag(state, v).as_str())
}

fn count_row_str(state: &LocaleState, key: &str, v: &AnnotatedValue<u64>) -> (s: String)
    ensures
        s@ == count_row(state.locale@, key@, *v),
{
    row(t(state, key), u64_to_string(v.value).as_str(), format_tag(state, v).as_str())
}

fn assumptions_note(state: &LocaleState, input_tokens: u64, output_tokens: Option<u64>, p: &PerformanceTexts) -> (s:
    String)
    ensures
        s@ == assumptions_line(state.locale@, input_tokens, output_tokens, *p),
{
    let out_tokens = match output_tokens {
        Some(n) => n,
        None => 512,
    };
    let mut kw: Vec<(String, String)> = Vec::new();
    kw.push(kv("input_tokens", u64_to_string(input_tokens)));
    kw.push(kv("output_tokens", u64_to_string(out_tokens)));
    kw.push(kv("target_tps", p.target_tps.clone()));
    kw.push(kv("prefill_util", p.prefill_util.clone()));
    kw.push(kv("decode_util", p.decode_util.clone()));
    kw.push(kv("degradation", p.degradation.clone()));
    assert(kw_view(kw@) =~= seq![
        ("input_tokens"@, dec(input_tokens as nat)),
        ("output_tokens"@, dec(unwrap_or_512(output_tokens) as nat)),
        ("target_tps"@, p.target_tps@),
        ("prefill_util"@, p.prefill_util@),
        ("decode_util"@, p.decode_util@),
        ("degradation"@, p.degradation@),
    ]);
    proof {
        reveal_strlit("input_tokens");
        reveal_strlit("output_tokens");
        reveal_strlit("target_tps");
        reveal_strlit("prefill_util");
        reveal_strlit("decode_util");
        reveal_strlit("degradation");
        assert forall|i: int, j: int| 0 <= i < j < 6 implies #[trigger] kw_view(kw@)[i].0 != #[trigger] kw_view(kw@)[j].0 by {
            if i == 0 && j == 1 {
                assert("input_tokens"@.len() != "output_tokens"@.len());
            } else if i == 0 && j == 2 {
                assert("input_tokens"@.len() != "target_tps"@.len());
            } else if i == 0 && j == 3 {
                assert("input_tokens"@[0] != "prefill_util"@[0]);
            } else if i == 0 && j == 4 {
                assert("input_tokens"@.len() != "decode_util"@.len());
            } else if i == 0 && j == 5 {
                assert("input_tokens"@.len() != "degradation"@.len());
            } else if i == 1 && j == 2 {
                assert("output_tokens"@.len() != "target_tps"@.len());
            } else if i == 1 && j == 3 {
                assert("output_tokens"@.len() != "prefill_util"@.len());
            } else if i == 1 && j == 4 {
                assert("output_tokens"@.len() != "decode_util"@.len());
            } else if i == 1 && j == 5 {
                assert("output_tokens"@.len() != "degradation"@.len());
            } else if i == 2 && j == 3 {
                assert("target_tps"@.len() != "prefill_util"@.len());
            } else if i == 2 && j == 4 {
                assert("target_tps"@.len() != "decode_util"@.len());
            } else if i == 2 && j == 5 {
                assert("target_tps"@.len() != "degradation"@.len());
            } else if i == 3 && j == 4 {
                assert("prefill_util"@.len() != "decode_util"@.len());
            } else if i == 3 && j == 5 {
                assert("prefill_util"@.len() != "degradation"@.len());
            } else if i == 4 && j == 5 {
                assert("decode_util"@[2] != "degradation"@[2]);
            }
        }
    }
    t_with(state, "perf.assumptions_note", &kw)
}

fn push_option_line(state: &LocaleState, key: &str, out: &mut Vec<String>)
    ensures
        views(final(out)@) == views(old(out)@).push("  - "@ + tr(state.locale@, key@)),
{
    let mut line = "  - ".to_string();
    line.append(t(state, key).as_str());
    push_line(out, line);
}

fn push_performance(
    state: &LocaleState,
    input_tokens: u64,
    output_tokens: Option<u64>,
    p: &PerformanceTexts,
    c: &ConcurrencyBounds,
    out: &mut Vec<String>,
)
    ensures
        views(final(out)@) == views(old(out)@) + performance_block(state.locale@, input_tokens, output_tokens, *p, *c),
{
    push_line(out, String::new());
    push_line(out, t(state, "section.performance"));
    push_line(out, assumptions_note(state, input_tokens, output_tokens, p));
    push_line(out, text_row_str(state, "perf.prefill_latency", &p.prefill_latency));
    push_line(out, text_row_str(state, "perf.decode_throughput_per_gpu", &p.per_gpu_tps));
    push_line(out, text_row_str(state, "perf.decode_throughput_cluster", &p.cluster_tps));
    match &p.moe_active_tps {
        Some(m) => push_line(out, text_row_str(state, "perf.decode_moe_active_optimistic", m)),
        None => {},
    }
    push_line(out, count_row_str(state, "perf.k_bound", &c.k_bound));
    push_line(out, count_row_str(state, "perf.l_bound", &c.l_bound));
    push_line(out, count_row_str(state, "perf.max_concurrent", &c.max_concurrent));
    let mut key = "perf.bottleneck.".to_string();
    key.append(c.bottleneck.as_str());
    let mut verdict = t(state, key.as_str());
    verdict.append(": ");
    if str_eq(state.locale.as_str(), "zh") {
        verdict.append(c.bottleneck_reason_zh.as_str());
    } else {
        verdict.append(c.bottleneck_reason_en.as_str());
    }
    proof {
        reveal_strlit("");
    }
    push_line(out, row(t(state, "perf.bottleneck"), verdict.as_str(), ""));
    let mut header = t(state, "perf.optimization.header");
    header.append(":");
    push_line(out, header);
    push_option_line(state, "perf.opt.quantize_int4", out);
    push_option_line(state, "perf.opt.relax_sla", out);
    push_option_line(state, "perf.opt.kv_fp8", out);
    push_option_line(state, "perf.opt.moe_offload", out);
    assert(views(out@) =~= views(old(out)@) + performance_block(state.locale@, input_tokens, output_tokens, *p, *c));
}

/// Appends the performance section of a report, from its rendered
/// throughput figures and the concurrency bounds.
pub fn render_performance(
    state: &LocaleState,
    report: &EvaluationReport,
    perf: Option<(&PerformanceTexts, &ConcurrencyBounds)>,
    out: &mut Vec<String>,
)
    ensures
        views(final(out)@) == views(old(out)@) + performance_lines(state.locale@, *report, perf),
{
    reveal(performance_lines);
    match (perf, report.perf_input_tokens) {
        (Some((p, c)), Some(n)) => push_performance(state, n, report.perf_output_tokens, p, c, out),
        _ => {
            assert(views(out@) =~= views(old(out)@) + performance_lines(state.locale@, *report, perf));
        },
    }
}

} // verus!
