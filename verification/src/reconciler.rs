//! Matching the bytes on disk against each quantization scheme's
//! bytes-per-parameter, with a declared fingerprint taking precedence.
use vstd::prelude::*;
use crate::fingerprint::QuantFingerprint;
use crate::labels::{AnnotatedValue, Label, opt_string};
use crate::quant::{all_schemes, scheme_name, spec_bpp_ratio, QuantizationScheme};
use crate::text::{dec, fixed, fmt_fixed_wide, fmt_u64, grouped, join, joined, lemma_views_push, u64_to_string, views};

verus! {

/// One scheme's prediction for a checkpoint. The relative error is
/// `abs_delta_bytes / predicted_bytes`, infinite when nothing is predicted.
#[derive(Clone, Copy, Debug, PartialEq, Eq, Structural)]
pub struct ReconciliationCandidate {
    pub scheme: QuantizationScheme,
    pub predicted_bytes: u64,
    pub delta_bytes: i128,
    pub abs_delta_bytes: u64,
}

/// The candidates sorted by relative error, and the scheme settled on.
pub struct ReconciliationReport {
    pub observed_bytes: u64,
    pub total_params: u64,
    pub candidates: Vec<ReconciliationCandidate>,
    pub best: AnnotatedValue<QuantizationScheme>,
}

/// Position of a scheme in the canonical order.
pub open spec fn scheme_rank(s: QuantizationScheme) -> int {
    match s {
        QuantizationScheme::Fp16 => 0,
        QuantizationScheme::Bf16 => 1,
        QuantizationScheme::Fp8 => 2,
        QuantizationScheme::Int8 => 3,
        QuantizationScheme::Fp4Fp8Mixed => 4,
        QuantizationScheme::Int4 => 5,
        QuantizationScheme::GptqInt4 => 6,
        QuantizationScheme::AwqInt4 => 7,
        QuantizationScheme::Unknown => 8,
    }
}

/// Bytes the scheme predicts for `total_params`: the exact product with its
/// bytes-per-parameter, rounded down, saturating at `u64::MAX`.
pub open spec fn spec_predicted(total_params: u64, s: QuantizationScheme) -> u64 {
    match spec_bpp_ratio(s) {
        Some((n, d)) => {
            let v = (total_params * n) as int / d as int;
            if v > u64::MAX {
                u64::MAX
            } else {
                v as u64
            }
        },
        None => 0,
    }
}

/// The candidate of a scheme for a checkpoint.
pub open spec fn candidate_for(observed: u64, total_params: u64, s: QuantizationScheme) -> ReconciliationCandidate {
    let p = spec_predicted(total_params, s);
    ReconciliationCandidate {
        scheme: s,
        predicted_bytes: p,
        delta_bytes: (observed - p) as i128,
        abs_delta_bytes: (if observed >= p {
            observed - p
        } else {
            p - observed
        }) as u64,
    }
}

/// `a`'s relative error is below `b`'s.
pub open spec fn error_less(a: ReconciliationCandidate, b: ReconciliationCandidate) -> bool {
    a.predicted_bytes > 0 && (b.predicted_bytes == 0 || a.abs_delta_bytes * b.predicted_bytes
        < b.abs_delta_bytes * a.predicted_bytes)
}

/// The two relative errors are equal.
pub open spec fn error_equal(a: ReconciliationCandidate, b: ReconciliationCandidate) -> bool {
    (a.predicted_bytes == 0 && b.predicted_bytes == 0) || (a.predicted_bytes > 0 && b.predicted_bytes > 0
        && a.abs_delta_bytes * b.predicted_bytes == b.abs_delta_bytes * a.predicted_bytes)
}

/// The order of the report: by relative error, ties in canonical order.
pub open spec fn ranks_before(a: ReconciliationCandidate, b: ReconciliationCandidate) -> bool {
    error_less(a, b) || (error_equal(a, b) && scheme_rank(a.scheme) < scheme_rank(b.scheme))
}

/// The relative error is at most `num / den`.
pub open spec fn error_at_most(c: ReconciliationCandidate, num: nat, den: nat) -> bool {
    c.predicted_bytes > 0 && c.abs_delta_bytes * den <= num * c.predicted_bytes
}

/// The candidates of a report: one for each scheme with a bytes-per-param
/// anchor, sorted by relative error, ties in canonical order.
pub open spec fn is_candidate_list(r: Seq<ReconciliationCandidate>, observed: u64, total_params: u64) -> bool {
    &&& r.len() == 8
    &&& forall|i: int| 0 <= i < r.len() ==> #[trigger] r[i] == candidate_for(observed, total_params, r[i].scheme)
        && r[i].scheme != QuantizationScheme::Unknown
    &&& in_report_order(r)
}

proof fn lemma_ranks_before_transitive(a: ReconciliationCandidate, b: ReconciliationCandidate, c: ReconciliationCandidate)
    requires
        ranks_before(a, b),
        ranks_before(b, c),
    ensures
        ranks_before(a, c),
{
    let (pa, pb, pc) = (a.predicted_bytes as int, b.predicted_bytes as int, c.predicted_bytes as int);
    let (da, db, dc) = (a.abs_delta_bytes as int, b.abs_delta_bytes as int, c.abs_delta_bytes as int);
    if pa > 0 && pb > 0 && pc > 0 {
        assert(da * pb <= db * pa && db * pc <= dc * pb ==> da * pc <= dc * pa) by (nonlinear_arith)
            requires
                pa > 0,
                pb > 0,
                pc > 0,
                da >= 0,
                db >= 0,
                dc >= 0,
        {
            if da * pb <= db * pa && db * pc <= dc * pb {
                assert(da * pb * pc <= db * pa * pc);
                assert(db * pc * pa <= dc * pb * pa);
                assert(da * pc * pb <= dc * pa * pb);
            }
        }
        assert(da * pb < db * pa && db * pc <= dc * pb ==> da * pc < dc * pa) by (nonlinear_arith)
            requires
                pa > 0,
                pb > 0,
                pc > 0,
                da >= 0,
                db >= 0,
                dc >= 0,
        {
            if da * pb < db * pa && db * pc <= dc * pb {
                assert(da * pb * pc < db * pa * pc);
                assert(db * pc * pa <= dc * pb * pa);
                assert(da * pc * pb < dc * pa * pb);
            }
        }
        assert(da * pb <= db * pa && db * pc < dc * pb ==> da * pc < dc * pa) by (nonlinear_arith)
            requires
                pa > 0,
                pb > 0,
                pc > 0,
                da >= 0,
                db >= 0,
                dc >= 0,
        {
            if da * pb <= db * pa && db * pc < dc * pb {
                assert(da * pb * pc <= db * pa * pc);
                assert(db * pc * pa < dc * pb * pa);
                assert(da * pc * pb < dc * pa * pb);
            }
        }
    }
}

proof fn lemma_ranks_before_total(a: ReconciliationCandidate, b: ReconciliationCandidate)
    requires
        scheme_rank(a.scheme) != scheme_rank(b.scheme),
    ensures
        ranks_before(a, b) || ranks_before(b, a),
{
}

fn candidate(observed: u64, total_params: u64, s: QuantizationScheme) -> (c: ReconciliationCandidate)
    requires
        spec_bpp_ratio(s) is Some,
    ensures
        c == candidate_for(observed, total_params, s),
{
    let (n, d) = match s.bpp_ratio() {
        Some(r) => r,
        None => (0, 1),
    };
    let v: u128 = (total_params as u128) * (n as u128) / (d as u128);
    let p: u64 = if v > u64::MAX as u128 {
        u64::MAX
    } else {
        v as u64
    };
    let abs: u64 = if observed >= p {
        observed - p
    } else {
        p - observed
    };
    ReconciliationCandidate {
        scheme: s,
        predicted_bytes: p,
        delta_bytes: observed as i128 - p as i128,
        abs_delta_bytes: abs,
    }
}

proof fn lemma_u64_product(a: u64, b: u64)
    ensures
        a * b <= u128::MAX,
{
    assert(a * b <= u64::MAX * u64::MAX) by (nonlinear_arith)
        requires
            a <= u64::MAX,
            b <= u64::MAX,
    ;
}

/// Whether `a` goes before `b` in the report.
fn before(a: &ReconciliationCandidate, b: &ReconciliationCandidate) -> (res: bool)
    ensures
        res == ranks_before(*a, *b),
{
    proof {
        lemma_u64_product(a.abs_delta_bytes, b.predicted_bytes);
        lemma_u64_product(b.abs_delta_bytes, a.predicted_bytes);
    }
    let x: u128 = a.abs_delta_bytes as u128 * b.predicted_bytes as u128;
    let y: u128 = b.abs_delta_bytes as u128 * a.predicted_bytes as u128;
    let less = a.predicted_bytes > 0 && (b.predicted_bytes == 0 || x < y);
    let equal = (a.predicted_bytes == 0 && b.predicted_bytes == 0) || (a.predicted_bytes > 0 && b.predicted_bytes
        > 0 && x == y);
    less || (equal && rank(a.scheme) < rank(b.scheme))
}

fn rank(s: QuantizationScheme) -> (r: u8)
    ensures
        r as int == scheme_rank(s),
{
    match s {
        QuantizationScheme::Fp16 => 0,
        QuantizationScheme::Bf16 => 1,
        QuantizationScheme::Fp8 => 2,
        QuantizationScheme::Int8 => 3,
        QuantizationScheme::Fp4Fp8Mixed => 4,
        QuantizationScheme::Int4 => 5,
        QuantizationScheme::GptqInt4 => 6,
        QuantizationScheme::AwqInt4 => 7,
        QuantizationScheme::Unknown => 8,
    }
}

pub open spec fn in_report_order(s: Seq<ReconciliationCandidate>) -> bool {
    forall|i: int, j: int| 0 <= i < j < s.len() ==> ranks_before(#[trigger] s[i], #[trigger] s[j])
}

proof fn lemma_insert_keeps_order(old: Seq<ReconciliationCandidate>, p: int, x: ReconciliationCandidate)
    requires
        in_report_order(old),
        0 <= p <= old.len(),
        forall|i: int| 0 <= i < p ==> ranks_before(#[trigger] old[i], x),
        p < old.len() ==> ranks_before(x, old[p]),
    ensures
        in_report_order(old.insert(p, x)),
{
    let out = old.insert(p, x);
    assert forall|i: int, j: int| 0 <= i < j < out.len() implies ranks_before(#[trigger] out[i], #[trigger] out[j]) by {
        if j < p {
            assert(out[i] == old[i] && out[j] == old[j]);
        } else if j == p {
            assert(out[i] == old[i]);
        } else if i < p {
            assert(out[i] == old[i] && out[j] == old[j - 1]);
            if j - 1 > p {
                lemma_ranks_before_transitive(x, old[p], old[j - 1]);
            }
            lemma_ranks_before_transitive(old[i], x, old[j - 1]);
        } else if i == p {
            assert(out[j] == old[j - 1]);
            if j - 1 > p {
                lemma_ranks_before_transitive(x, old[p], old[j - 1]);
            }
        } else {
            assert(out[i] == old[i - 1] && out[j] == old[j - 1]);
        }
    }
}

/// Every scheme with an anchor, each with its prediction, sorted.
fn sorted_candidates(observed: u64, total_params: u64) -> (r: Vec<ReconciliationCandidate>)
    ensures
        is_candidate_list(r@, observed, total_params),
{
    let all = QuantizationScheme::all();
    let mut out: Vec<ReconciliationCandidate> = Vec::new();
    let mut k: usize = 0;
    while k < 8
        invariant
            k <= 8,
            all@ == all_schemes(),
            out@.len() == k,
            forall|i: int| 0 <= i < out@.len() ==> #[trigger] out@[i] == candidate_for(observed, total_params, out@[i].scheme)
                && out@[i].scheme != QuantizationScheme::Unknown && scheme_rank(out@[i].scheme) < k,
            in_report_order(out@),
        decreases 8 - k,
    {
        let s = all[k];
        assert(scheme_rank(s) == k && s != QuantizationScheme::Unknown);
        let x = candidate(observed, total_params, s);
        let mut p: usize = 0;
        while p < out.len() && !before(&x, &out[p])
            invariant
                p <= out@.len(),
                forall|i: int| 0 <= i < p ==> !ranks_before(x, #[trigger] out@[i]),
            decreases out.len() - p,
        {
            p = p + 1;
        }
        let ghost old_out = out@;
        out.insert(p, x);
        proof {
            assert(out@ == old_out.insert(p as int, x));
            assert forall|i: int| 0 <= i < p implies ranks_before(#[trigger] old_out[i], x) by {
                lemma_ranks_before_total(old_out[i], x);
            }
            if p < old_out.len() {
                assert(ranks_before(x, old_out[p as int]));
            }
            lemma_insert_keeps_order(old_out, p as int, x);
            assert forall|i: int| 0 <= i < out@.len() implies #[trigger] out@[i] == candidate_for(
                observed,
                total_params,
                out@[i].scheme,
            ) && out@[i].scheme != QuantizationScheme::Unknown && scheme_rank(out@[i].scheme) < k + 1 by {
                if i < p {
                    assert(out@[i] == old_out[i]);
                } else if i > p {
                    assert(out@[i] == old_out[i - 1]);
                }
            }
        }
        k = k + 1;
    }
    out
}

/// A candidate's relative error in percent with one decimal; `inf` when it
/// predicts nothing.
pub open spec fn percent_text(c: ReconciliationCandidate) -> Seq<char> {
    if c.predicted_bytes == 0 {
        "inf"@
    } else {
        fixed((c.abs_delta_bytes * 100) as nat, c.predicted_bytes as nat, 1)
    }
}

pub fn percent(c: &ReconciliationCandidate) -> (s: String)
    ensures
        s@ == percent_text(*c),
{
    if c.predicted_bytes == 0 {
        "inf".to_string()
    } else {
        fmt_fixed_wide(c.abs_delta_bytes as u128 * 100, c.predicted_bytes as u128, 1)
    }
}

/// `c`'s relative error is within one percentage point of `a`'s.
pub open spec fn within_tie(c: ReconciliationCandidate, a: ReconciliationCandidate) -> bool {
    let x = c.abs_delta_bytes * a.predicted_bytes - a.abs_delta_bytes * c.predicted_bytes;
    let d = if x < 0 {
        -x
    } else {
        x
    };
    c.predicted_bytes > 0 && a.predicted_bytes > 0 && 100 * d < c.predicted_bytes * a.predicted_bytes
}

/// Tied with the best: within one point of it and within the 15% bound.
pub open spec fn is_tied(c: ReconciliationCandidate, a: ReconciliationCandidate) -> bool {
    within_tie(c, a) && error_at_most(c, 15, 100)
}

/// How many candidates tie with `a` (`a` among them).
pub open spec fn tie_count(s: Seq<ReconciliationCandidate>, a: ReconciliationCandidate) -> nat
    decreases s.len(),
{
    if s.len() == 0 {
        0
    } else {
        tie_count(s.drop_last(), a) + if is_tied(s.last(), a) {
            1nat
        } else {
            0nat
        }
    }
}

/// The names of the candidates tied with `a`, other than `a`'s scheme.
pub open spec fn tie_names(s: Seq<ReconciliationCandidate>, a: ReconciliationCandidate) -> Seq<Seq<char>>
    decreases s.len(),
{
    if s.len() == 0 {
        Seq::empty()
    } else {
        let rest = tie_names(s.drop_last(), a);
        if is_tied(s.last(), a) && s.last().scheme != a.scheme {
            rest.push(scheme_name(s.last().scheme))
        } else {
            rest
        }
    }
}

/// The note of a bytes-only match over the candidates `s`, best first.
pub open spec fn bytes_match_note(s: Seq<ReconciliationCandidate>) -> Seq<char> {
    let a = s[0];
    let head = "best match among "@ + dec(s.len()) + " candidates, "@ + percent_text(a) + "% error"@;
    if tie_count(s, a) > 1 {
        head + " - tied with "@ + joined(tie_names(s, a), ", "@)
            + " at the same bits/param; distinguishing requires config.json quantization_config or safetensors per-tensor dtype (neither available for this model)"@
    } else {
        head
    }
}

/// The scheme, label and note settled on for a checkpoint, the candidates
/// `s` (best first) given.
pub open spec fn settled(
    s: Seq<ReconciliationCandidate>,
    observed: u64,
    total_params: u64,
    declared: Option<(QuantizationScheme, Seq<char>)>,
) -> (QuantizationScheme, Label, Seq<char>) {
    let a = s[0];
    match declared {
        Some((d, evidence)) => if d == QuantizationScheme::Unknown {
            (
                a.scheme,
                Label::Inferred,
                "fingerprint declared "@ + scheme_name(d) + " ("@ + evidence
                    + ") but we have no bpp anchor for it; fell back to bytes match "@ + scheme_name(a.scheme)
                    + " at "@ + percent_text(a) + "% error"@,
            )
        } else {
            let m = candidate_for(observed, total_params, d);
            if error_at_most(m, 15, 100) {
                let note = if d != a.scheme && error_less(a, m) {
                    " (bytes alone would argmin to "@ + scheme_name(a.scheme) + " at "@ + percent_text(a)
                        + "%; we trust the declaration)"@
                } else {
                    ""@
                };
                (
                    d,
                    Label::Verified,
                    evidence + " (predicts "@ + grouped(m.predicted_bytes as nat) + " bytes, "@ + percent_text(m)
                        + "% error)"@ + note,
                )
            } else {
                (
                    d,
                    Label::Verified,
                    evidence + " (NOTE: bytes predict "@ + grouped(m.predicted_bytes as nat) + ", off by "@
                        + percent_text(m) + "% — likely our param estimate is off, not the declaration)"@,
                )
            }
        },
        None => if !error_at_most(a, 15, 100) {
            (
                QuantizationScheme::Unknown,
                Label::Unknown,
                "closest candidate ("@ + scheme_name(a.scheme) + ") is off by "@ + percent_text(a)
                    + "% - no confident match"@,
            )
        } else {
            (a.scheme, Label::Inferred, bytes_match_note(s))
        },
    }
}

pub open spec fn declared_view(f: Option<&QuantFingerprint>) -> Option<(QuantizationScheme, Seq<char>)> {
    match f {
        Some(x) => Some((x.scheme, x.evidence@)),
        None => None,
    }
}

/// What `reconcile` reports: nothing to compare when either count is zero;
/// otherwise every anchored scheme sorted by relative error, and the
/// scheme settled on (a declared fingerprint first, else the closest
/// match within 15%, with ties within one point named).
pub open spec fn reconciles(
    r: ReconciliationReport,
    observed: u64,
    total_params: u64,
    declared: Option<(QuantizationScheme, Seq<char>)>,
) -> bool {
    &&& r.observed_bytes == observed
    &&& r.total_params == total_params
    &&& if observed == 0 || total_params == 0 {
        &&& r.candidates@.len() == 0
        &&& r.best.value == QuantizationScheme::Unknown
        &&& r.best.label == Label::Unknown
        &&& opt_string(r.best.source) == Some("observed_bytes or total_params is zero"@)
    } else {
        let (scheme, label, note) = settled(r.candidates@, observed, total_params, declared);
        &&& is_candidate_list(r.candidates@, observed, total_params)
        &&& r.best.value == scheme
        &&& r.best.label == label
        &&& opt_string(r.best.source) == Some(note)
    }
}

fn bytes_match(s: &Vec<ReconciliationCandidate>) -> (note: String)
    requires
        s@.len() > 0,
    ensures
        note@ == bytes_match_note(s@),
{
    let a = s[0];
    let mut count: usize = 0;
    let mut names: Vec<String> = Vec::new();
    let mut i: usize = 0;
    while i < s.len()
        invariant
            i <= s@.len(),
            a == s@[0],
            count == tie_count(s@.subrange(0, i as int), a),
            views(names@) == tie_names(s@.subrange(0, i as int), a),
            count <= i,
        decreases s.len() - i,
    {
        let c = s[i];
        proof {
            assert(s@.subrange(0, i + 1).drop_last() =~= s@.subrange(0, i as int));
            lemma_u64_product(c.abs_delta_bytes, a.predicted_bytes);
            lemma_u64_product(a.abs_delta_bytes, c.predicted_bytes);
            lemma_u64_product(c.predicted_bytes, a.predicted_bytes);
        }
        let x: u128 = c.abs_delta_bytes as u128 * a.predicted_bytes as u128;
        let y: u128 = a.abs_delta_bytes as u128 * c.predicted_bytes as u128;
        let d: u128 = if x >= y {
            x - y
        } else {
            y - x
        };
        let pp: u128 = c.predicted_bytes as u128 * a.predicted_bytes as u128;
        let within = c.predicted_bytes > 0 && a.predicted_bytes > 0 && d < pp / 100 + (if pp % 100 == 0 {
            0
        } else {
            1
        });
        let bounded = c.predicted_bytes > 0 && (c.abs_delta_bytes as u128) * 100 <= 15 * (c.predicted_bytes as u128);
        proof {
            assert(within == within_tie(c, a)) by (nonlinear_arith)
                requires
                    pp == c.predicted_bytes * a.predicted_bytes,
                    d as int == (if x >= y { x - y } else { y - x }),
                    x == c.abs_delta_bytes * a.predicted_bytes,
                    y == a.abs_delta_bytes * c.predicted_bytes,
                    within == (c.predicted_bytes > 0 && a.predicted_bytes > 0 && d < pp / 100 + (if pp % 100 == 0 {
                        0int
                    } else {
                        1int
                    })),
            ;
        }
        if within && bounded {
            count = count + 1;
            if c.scheme != a.scheme {
                let n = c.scheme.to_string();
                proof {
                    lemma_views_push(names@, n);
                }
                names.push(n);
            }
        }
        i = i + 1;
    }
    assert(s@.subrange(0, s@.len() as int) =~= s@);
    let mut note = "best match among ".to_string();
    note.append(u64_to_string(s.len() as u64).as_str());
    note.append(" candidates, ");
    note.append(percent(&a).as_str());
    note.append("% error");
    if count > 1 {
        note.append(" - tied with ");
        note.append(join(&names, ", ").as_str());
        note.append(
            " at the same bits/param; distinguishing requires config.json quantization_config or safetensors per-tensor dtype (neither available for this model)",
        );
    }
    note
}

fn fingerprint_match(
    s: &Vec<ReconciliationCandidate>,
    observed: u64,
    total_params: u64,
    f: &QuantFingerprint,
) -> (r: (QuantizationScheme, Label, String))
    requires
        is_candidate_list(s@, observed, total_params),
    ensures
        (r.0, r.1, r.2@) == settled(s@, observed, total_params, Some((f.scheme, f.evidence@))),
{
    let a = s[0];
    let d = f.scheme;
    if d == QuantizationScheme::Unknown {
        let mut note = "fingerprint declared ".to_string();
        note.append(d.as_str());
        note.append(" (");
        note.append(f.evidence.as_str());
        note.append(") but we have no bpp anchor for it; fell back to bytes match ");
        note.append(a.scheme.as_str());
        note.append(" at ");
        note.append(percent(&a).as_str());
        note.append("% error");
        assert(note@ =~= settled(s@, observed, total_params, Some((f.scheme, f.evidence@))).2);
        return (a.scheme, Label::Inferred, note);
    }
    let m = candidate(observed, total_params, d);
    let ghost expected = settled(s@, observed, total_params, Some((f.scheme, f.evidence@))).2;
    let mut note = f.evidence.clone();
    if m.predicted_bytes > 0 && (m.abs_delta_bytes as u128) * 100 <= 15 * (m.predicted_bytes as u128) {
        note.append(" (predicts ");
        note.append(fmt_u64(m.predicted_bytes).as_str());
        note.append(" bytes, ");
        note.append(percent(&m).as_str());
        note.append("% error)");
        if d != a.scheme && before_by_error(&a, &m) {
            note.append(" (bytes alone would argmin to ");
            note.append(a.scheme.as_str());
            note.append(" at ");
            note.append(percent(&a).as_str());
            note.append("%; we trust the declaration)");
        }
        proof {
            reveal_strlit("");
        }
        assert(note@ =~= expected);
    } else {
        note.append(" (NOTE: bytes predict ");
        note.append(fmt_u64(m.predicted_bytes).as_str());
        note.append(", off by ");
        note.append(percent(&m).as_str());
        note.append("% — likely our param estimate is off, not the declaration)");
        assert(note@ =~= expected);
    }
    (d, Label::Verified, note)
}

fn before_by_error(a: &ReconciliationCandidate, b: &ReconciliationCandidate) -> (res: bool)
    ensures
        res == error_less(*a, *b),
{
    proof {
        lemma_u64_product(a.abs_delta_bytes, b.predicted_bytes);
        lemma_u64_product(b.abs_delta_bytes, a.predicted_bytes);
    }
    a.predicted_bytes > 0 && (b.predicted_bytes == 0 || (a.abs_delta_bytes as u128) * (b.predicted_bytes as u128)
        < (b.abs_delta_bytes as u128) * (a.predicted_bytes as u128))
}

/// Compares the bytes on disk with every scheme's prediction for
/// `total_params` and settles on a scheme.
pub fn reconcile(observed_bytes: u64, total_params: u64, fingerprint: Option<&QuantFingerprint>) -> (r:
    ReconciliationReport)
    ensures
        reconciles(r, observed_bytes, total_params, declared_view(fingerprint)),
{
    if observed_bytes == 0 || total_params == 0 {
        return ReconciliationReport {
            observed_bytes,
            total_params,
            candidates: Vec::new(),
            best: AnnotatedValue::new(
                QuantizationScheme::Unknown,
                Label::Unknown,
                Some("observed_bytes or total_params is zero"),
            ),
        };
    }
    let candidates = sorted_candidates(observed_bytes, total_params);
    let a = candidates[0];
    let (scheme, label, note) = match fingerprint {
        Some(f) => fingerprint_match(&candidates, observed_bytes, total_params, f),
        None => if !(a.predicted_bytes > 0 && (a.abs_delta_bytes as u128) * 100 <= 15 * (a.predicted_bytes as u128)) {
            let mut note = "closest candidate (".to_string();
            note.append(a.scheme.as_str());
            note.append(") is off by ");
            note.append(percent(&a).as_str());
            note.append("% - no confident match");
            (QuantizationScheme::Unknown, Label::Unknown, note)
        } else {
            (a.scheme, Label::Inferred, bytes_match(&candidates))
        },
    };
    ReconciliationReport {
        observed_bytes,
        total_params,
        candidates,
        best: AnnotatedValue::new(scheme, label, Some(note.as_str())),
    }
}

impl ReconciliationReport {
    /// One line on the best candidate, or on there being none.
    pub fn summary_line(&self) -> (s: String)
        ensures
            s@ == (if self.candidates@.len() == 0 {
                dec(self.observed_bytes as nat) + " bytes - no quantization candidates tested"@
            } else {
                let c = self.candidates@[0];
                "Observed "@ + dec(self.observed_bytes as nat) + " bytes. Best match: "@ + scheme_name(c.scheme)
                    + " (predicts "@ + dec(c.predicted_bytes as nat) + " bytes, "@ + percent_text(c) + "% error)"@
            }),
    {
        if self.candidates.len() == 0 {
            let mut s = u64_to_string(self.observed_bytes);
            s.append(" bytes - no quantization candidates tested");
            return s;
        }
        let c = self.candidates[0];
        let mut s = "Observed ".to_string();
        s.append(u64_to_string(self.observed_bytes).as_str());
        s.append(" bytes. Best match: ");
        s.append(c.scheme.as_str());
        s.append(" (predicts ");
        s.append(u64_to_string(c.predicted_bytes).as_str());
        s.append(" bytes, ");
        s.append(percent(&c).as_str());
        s.append("% error)");
        s
    }
}

} // verus!
