//! Plain-text rendering of numbers, labels and report sections.
use vstd::prelude::*;
use crate::float_text::{double_fixed, fmt_double_quotient};
use crate::explain::ExplainEntry;
use crate::hardware::{GPUDatabase, GPUSpec};
use crate::i18n::{distinct_names, kw_view, LocaleState, t, t_with, translated};
use crate::labels::{AnnotatedValue, label_name};
use crate::reviewer::LlmReviewResult;
use crate::text::{
    dec, fixed, fmt_fixed, join, joined, lemma_split_nonempty, lemma_views_push, split_char, split_on,
    u64_to_string, views,
};

verus! {

/// `[label]` in the current language.
pub open spec fn tag_text(locale: Seq<char>, label: crate::labels::Label) -> Seq<char> {
    "["@ + translated(locale, "label."@ + label_name(label), Seq::empty()) + "]"@
}

pub fn format_tag<T>(state: &LocaleState, value: &AnnotatedValue<T>) -> (s: String)
    ensures
        s@ == tag_text(state.locale@, value.label),
{
    let mut key = String::new();
    key.append("label.");
    key.append(value.label.as_str());
    let mut s = String::new();
    s.append("[");
    s.append(t(state, key.as_str()).as_str());
    s.append("]");
    s
}

/// Bytes in decimal units with two decimals (`12.35 GB`), plain below 1 KB;
/// the decimals are those of the quotient as a 64-bit float.
pub open spec fn bytes_text(n: u64) -> Seq<char> {
    if n >= 1_000_000_000 {
        double_fixed(n as nat, 1_000_000_000, 2) + " GB"@
    } else if n >= 1_000_000 {
        double_fixed(n as nat, 1_000_000, 2) + " MB"@
    } else if n >= 1_000 {
        double_fixed(n as nat, 1_000, 2) + " KB"@
    } else {
        dec(n as nat) + " B"@
    }
}

pub fn fmt_bytes(n: u64) -> (s: String)
    ensures
        s@ == bytes_text(n),
{
    if n >= 1_000_000_000 {
        let mut s = fmt_double_quotient(n, 1_000_000_000, 2);
        s.append(" GB");
        s
    } else if n >= 1_000_000 {
        let mut s = fmt_double_quotient(n, 1_000_000, 2);
        s.append(" MB");
        s
    } else if n >= 1_000 {
        let mut s = fmt_double_quotient(n, 1_000, 2);
        s.append(" KB");
        s
    } else {
        let mut s = u64_to_string(n);
        s.append(" B");
        s
    }
}

/// A parameter count with two decimals in billions (`B`) or millions (`M`),
/// as the quotient's 64-bit float shows it.
pub open spec fn params_text(n: u64) -> Seq<char> {
    if n >= 1_000_000_000 {
        double_fixed(n as nat, 1_000_000_000, 2) + "B"@
    } else if n >= 1_000_000 {
        double_fixed(n as nat, 1_000_000, 2) + "M"@
    } else {
        dec(n as nat)
    }
}

pub fn fmt_params(n: u64) -> (s: String)
    ensures
        s@ == params_text(n),
{
    if n >= 1_000_000_000 {
        let mut s = fmt_double_quotient(n, 1_000_000_000, 2);
        s.append("B");
        s
    } else if n >= 1_000_000 {
        let mut s = fmt_double_quotient(n, 1_000_000, 2);
        s.append("M");
        s
    } else {
        u64_to_string(n)
    }
}

/// A line without the carriage return that ended it.
pub open spec fn strip_cr(l: Seq<char>) -> Seq<char> {
    if l.len() > 0 && l.last() == '\r' {
        l.drop_last()
    } else {
        l
    }
}

/// The lines of a text as `str::lines` gives them: split at `\n` (a
/// `\r` before it dropped), no empty piece after a final line ending.
pub open spec fn text_lines(s: Seq<char>) -> Seq<Seq<char>> {
    let parts = split_on(s, '\n');
    let init = parts.drop_last().map_values(|l: Seq<char>| strip_cr(l));
    if parts.last().len() == 0 {
        init
    } else {
        init.push(parts.last())
    }
}

fn strip_cr_exec(l: &String) -> (r: String)
    ensures
        r@ == strip_cr(l@),
{
    let v = crate::text::chars_of(l.as_str());
    if v.len() > 0 && v[v.len() - 1] == '\r' {
        let mut out: Vec<char> = Vec::new();
        let mut i: usize = 0;
        while i < v.len() - 1
            invariant
                v@.len() > 0,
                i <= v@.len() - 1,
                out@ == v@.subrange(0, i as int),
            decreases v.len() - 1 - i,
        {
            out.push(v[i]);
            i = i + 1;
            assert(out@ =~= v@.subrange(0, i as int));
        }
        assert(out@ =~= l@.drop_last());
        crate::text::string_of(&out)
    } else {
        l.clone()
    }
}

/// Pushes each line of `text`, indented by two spaces.
fn push_indented_lines(out: &mut Vec<String>, text: &str)
    ensures
        views(final(out)@) == views(old(out)@) + text_lines(text@).map_values(|l: Seq<char>| "  "@ + l),
{
    let parts = split_char(text, '\n');
    proof {
        lemma_split_nonempty(text@, '\n');
    }
    let ghost start = views(out@);
    let ghost lines = text_lines(text@);
    let n = parts.len();
    let mut i: usize = 0;
    while i + 1 < n
        invariant
            n == parts@.len(),
            n >= 1,
            i + 1 <= n,
            views(parts@) == split_on(text@, '\n'),
            views(out@) == start + split_on(text@, '\n').drop_last().subrange(0, i as int).map_values(
                |l: Seq<char>| "  "@ + strip_cr(l),
            ),
        decreases n - i,
    {
        let mut line = "  ".to_string();
        line.append(strip_cr_exec(&parts[i]).as_str());
        proof {
            lemma_views_push(out@, line);
            let d = split_on(text@, '\n').drop_last();
            assert(views(parts@)[i as int] == parts@[i as int]@);
            assert(d.subrange(0, i + 1).map_values(|l: Seq<char>| "  "@ + strip_cr(l)) =~= d.subrange(0, i as int).map_values(
                |l: Seq<char>| "  "@ + strip_cr(l),
            ).push("  "@ + strip_cr(d[i as int])));
        }
        out.push(line);
        i = i + 1;
    }
    let last = &parts[n - 1];
    proof {
        assert(views(parts@)[n - 1] == last@);
        let d = split_on(text@, '\n').drop_last();
        assert(d.subrange(0, d.len() as int) =~= d);
    }
    if last.as_str().unicode_len() > 0 {
        let mut line = "  ".to_string();
        line.append(last.as_str());
        proof {
            lemma_views_push(out@, line);
        }
        out.push(line);
    }
    proof {
        let parts_s = split_on(text@, '\n');
        assert(views(out@) =~= start + text_lines(text@).map_values(|l: Seq<char>| "  "@ + l));
    }
}

fn push_line(out: &mut Vec<String>, line: String)
    ensures
        views(final(out)@) == views(old(out)@).push(line@),
{
    proof {
        lemma_views_push(out@, line);
    }
    out.push(line);
}

pub open spec fn tr(locale: Seq<char>, key: Seq<char>) -> Seq<char> {
    translated(locale, key, Seq::empty())
}

pub open spec fn indented(ls: Seq<Seq<char>>) -> Seq<Seq<char>> {
    ls.map_values(|l: Seq<char>| "  "@ + l)
}

/// An input line: `  name = value label (note)`, the note left out when
/// empty.
pub open spec fn input_line(i: crate::explain::ExplainInput) -> Seq<char> {
    "  "@ + i.name@ + " = "@ + i.value@ + " "@ + i.label@ + if i.note@.len() == 0 {
        Seq::empty()
    } else {
        " ("@ + i.note@ + ")"@
    }
}

pub open spec fn step_lines(steps: Seq<String>) -> Seq<Seq<char>>
    decreases steps.len(),
{
    if steps.len() == 0 {
        Seq::empty()
    } else {
        step_lines(steps.drop_last()) + indented(text_lines(steps.last()@))
    }
}

pub open spec fn entry_head(locale: Seq<char>, e: ExplainEntry) -> Seq<Seq<char>> {
    seq![e.heading@, tr(locale, "explain.formula"@) + ":"@] + indented(text_lines(e.formula@))
}

pub open spec fn entry_inputs(locale: Seq<char>, e: ExplainEntry) -> Seq<Seq<char>> {
    if e.inputs@.len() > 0 {
        seq![tr(locale, "explain.inputs"@) + ":"@] + e.inputs@.map_values(|i: crate::explain::ExplainInput| input_line(i))
    } else {
        Seq::empty()
    }
}

pub open spec fn entry_steps(locale: Seq<char>, e: ExplainEntry) -> Seq<Seq<char>> {
    if e.steps@.len() > 0 {
        seq![tr(locale, "explain.steps"@) + ":"@] + step_lines(e.steps@)
    } else {
        Seq::empty()
    }
}

pub open spec fn entry_tail(locale: Seq<char>, e: ExplainEntry) -> Seq<Seq<char>> {
    seq![tr(locale, "explain.result"@) + ": "@ + e.result@] + (if e.source@.len() > 0 {
        seq![tr(locale, "explain.source"@) + ": "@ + e.source@]
    } else {
        Seq::empty()
    }) + (if e.methodology_anchor@.len() > 0 {
        seq![tr(locale, "explain.see_also"@) + ": docs/methodology.md"@ + e.methodology_anchor@]
    } else {
        Seq::empty()
    }) + seq![Seq::empty()]
}

/// The lines of one explain entry: heading and formula, inputs, steps,
/// then result, source, a pointer to the methodology, and a blank line.
pub open spec fn entry_lines(locale: Seq<char>, e: ExplainEntry) -> Seq<Seq<char>> {
    entry_head(locale, e) + entry_inputs(locale, e) + entry_steps(locale, e) + entry_tail(locale, e)
}

pub open spec fn all_entry_lines(locale: Seq<char>, es: Seq<ExplainEntry>) -> Seq<Seq<char>>
    decreases es.len(),
{
    if es.len() == 0 {
        Seq::empty()
    } else {
        all_entry_lines(locale, es.drop_last()) + entry_lines(locale, es.last())
    }
}

/// The explain section as text: a title, an introduction, then each entry.
pub open spec fn explain_text(locale: Seq<char>, es: Seq<ExplainEntry>) -> Seq<char> {
    joined(
        seq![tr(locale, "section.explain"@), tr(locale, "explain.intro"@), Seq::empty()] + all_entry_lines(locale, es),
        "\n"@,
    )
}

fn labelled(state: &LocaleState, key: &str, suffix: &str) -> (s: String)
    ensures
        s@ == tr(state.locale@, key@) + suffix@,
{
    let mut s = t(state, key);
    s.append(suffix);
    s
}

fn push_entry_inputs(state: &LocaleState, out: &mut Vec<String>, e: &ExplainEntry)
    ensures
        views(final(out)@) == views(old(out)@) + entry_inputs(state.locale@, *e),
{
    let ghost start = views(out@);
    if e.inputs.len() > 0 {
        push_line(out, labelled(state, "explain.inputs", ":"));
        let ghost b = views(out@);
        let mut i: usize = 0;
        while i < e.inputs.len()
            invariant
                i <= e.inputs@.len(),
                views(out@) == b + e.inputs@.subrange(0, i as int).map_values(
                    |x: crate::explain::ExplainInput| input_line(x),
                ),
            decreases e.inputs.len() - i,
        {
            let inp = &e.inputs[i];
            let mut line = "  ".to_string();
            line.append(inp.name.as_str());
            line.append(" = ");
            line.append(inp.value.as_str());
            line.append(" ");
            line.append(inp.label.as_str());
            if inp.note.as_str().unicode_len() > 0 {
                line.append(" (");
                line.append(inp.note.as_str());
                line.append(")");
            }
            proof {
                assert(line@ =~= input_line(*inp));
                assert(e.inputs@.subrange(0, i + 1).map_values(|x: crate::explain::ExplainInput| input_line(x))
                    =~= e.inputs@.subrange(0, i as int).map_values(|x: crate::explain::ExplainInput| input_line(x)).push(
                    input_line(e.inputs@[i as int])));
            }
            push_line(out, line);
            i = i + 1;
        }
        assert(e.inputs@.subrange(0, e.inputs@.len() as int) =~= e.inputs@);
        assert(views(out@) =~= start + entry_inputs(state.locale@, *e));
    } else {
        assert(views(out@) =~= start + entry_inputs(state.locale@, *e));
    }
}

fn push_entry_steps(state: &LocaleState, out: &mut Vec<String>, e: &ExplainEntry)
    ensures
        views(final(out)@) == views(old(out)@) + entry_steps(state.locale@, *e),
{
    let ghost start = views(out@);
    if e.steps.len() > 0 {
        push_line(out, labelled(state, "explain.steps", ":"));
        let ghost d = views(out@);
        let mut i: usize = 0;
        while i < e.steps.len()
            invariant
                i <= e.steps@.len(),
                views(out@) == d + step_lines(e.steps@.subrange(0, i as int)),
            decreases e.steps.len() - i,
        {
            assert(e.steps@.subrange(0, i + 1).drop_last() =~= e.steps@.subrange(0, i as int));
            push_indented_lines(out, e.steps[i].as_str());
            i = i + 1;
        }
        assert(e.steps@.subrange(0, e.steps@.len() as int) =~= e.steps@);
        assert(views(out@) =~= start + entry_steps(state.locale@, *e));
    } else {
        assert(views(out@) =~= start + entry_steps(state.locale@, *e));
    }
}

fn push_entry_tail(state: &LocaleState, out: &mut Vec<String>, e: &ExplainEntry)
    ensures
        views(final(out)@) == views(old(out)@) + entry_tail(state.locale@, *e),
{
    let ghost start = views(out@);
    let mut result = labelled(state, "explain.result", ": ");
    result.append(e.result.as_str());
    push_line(out, result);
    let ghost a = views(out@);
    if e.source.as_str().unicode_len() > 0 {
        let mut line = labelled(state, "explain.source", ": ");
        line.append(e.source.as_str());
        push_line(out, line);
    }
    let ghost g = views(out@);
    if e.methodology_anchor.as_str().unicode_len() > 0 {
        let mut line = labelled(state, "explain.see_also", ": docs/methodology.md");
        line.append(e.methodology_anchor.as_str());
        push_line(out, line);
    }
    push_line(out, String::new());
    assert(views(out@) =~= start + entry_tail(state.locale@, *e));
}

fn push_entry_lines(state: &LocaleState, out: &mut Vec<String>, e: &ExplainEntry)
    ensures
        views(final(out)@) == views(old(out)@) + entry_lines(state.locale@, *e),
{
    let ghost start = views(out@);
    push_line(out, e.heading.clone());
    push_line(out, labelled(state, "explain.formula", ":"));
    push_indented_lines(out, e.formula.as_str());
    assert(views(out@) =~= start + entry_head(state.locale@, *e));
    push_entry_inputs(state, out, e);
    push_entry_steps(state, out, e);
    push_entry_tail(state, out, e);
    assert(views(out@) =~= start + entry_lines(state.locale@, *e));
}

/// Renders explain entries as plain text.
pub fn render_explain_text(state: &LocaleState, entries: &Vec<ExplainEntry>) -> (s: String)
    ensures
        s@ == explain_text(state.locale@, entries@),
{
    let mut out: Vec<String> = Vec::new();
    push_line(&mut out, t(state, "section.explain"));
    push_line(&mut out, t(state, "explain.intro"));
    push_line(&mut out, String::new());
    let ghost head = views(out@);
    let mut i: usize = 0;
    while i < entries.len()
        invariant
            i <= entries@.len(),
            views(out@) == head + all_entry_lines(state.locale@, entries@.subrange(0, i as int)),
        decreases entries.len() - i,
    {
        assert(entries@.subrange(0, i + 1).drop_last() =~= entries@.subrange(0, i as int));
        push_entry_lines(state, &mut out, &entries[i]);
        i = i + 1;
    }
    assert(entries@.subrange(0, entries@.len() as int) =~= entries@);
    assert(views(out@) =~= seq![
        tr(state.locale@, "section.explain"@),
        tr(state.locale@, "explain.intro"@),
        Seq::empty(),
    ] + all_entry_lines(state.locale@, entries@));
    join(&out, "\n")
}

/// The error of a failed review, `unknown` when none was given.
pub open spec fn review_error(r: LlmReviewResult) -> Seq<char> {
    match r.error {
        Some(e) => e@,
        None => "unknown"@,
    }
}

/// The second-opinion section: the error (or `unknown`) and a setup hint
/// when the review failed; otherwise the disclaimer naming the model and
/// endpoint, the tag and the review itself.
pub open spec fn llm_review_text(locale: Seq<char>, r: LlmReviewResult) -> Seq<char> {
    if !r.ok {
        joined(
            seq![
                tr(locale, "section.llm_review"@),
                translated(
                    locale,
                    "llm_review.unavailable"@,
                    seq![("error"@, review_error(r))],
                ),
                tr(locale, "llm_review.setup_hint"@),
            ],
            "\n"@,
        )
    } else {
        joined(
            seq![
                tr(locale, "section.llm_review"@),
                translated(locale, "llm_review.disclaimer"@, seq![("model"@, r.model@), ("base_url"@, r.base_url@)]),
                "["@ + tr(locale, "label.llm-opinion"@) + "]"@,
                match r.content {
                    Some(c) => c@,
                    None => Seq::empty(),
                },
            ],
            "\n"@,
        )
    }
}

fn kv_pair(k: &str, v: &str) -> (p: (String, String))
    ensures
        p.0@ == k@,
        p.1@ == v@,
{
    (k.to_string(), v.to_string())
}

/// Renders the result of an LLM review as plain text.
pub fn render_llm_review_text(state: &LocaleState, result: &LlmReviewResult) -> (s: String)
    ensures
        s@ == llm_review_text(state.locale@, *result),
{
    let mut out: Vec<String> = Vec::new();
    push_line(&mut out, t(state, "section.llm_review"));
    let mut kw1v: Vec<(String, String)> = Vec::new();
    kw1v.push(
        kv_pair(
            "error",
            match &result.error {
                Some(e) => e.as_str(),
                None => "unknown",
            },
        ),
    );
    let mut kw2v: Vec<(String, String)> = Vec::new();
    kw2v.push(kv_pair("model", result.model.as_str()));
    kw2v.push(kv_pair("base_url", result.base_url.as_str()));
    let unavailable = t_with(state, "llm_review.unavailable", &kw1v);
    assert(kw_view(kw2v@) =~= seq![("model"@, result.model@), ("base_url"@, result.base_url@)]);
    proof {
        reveal_strlit("model");
        reveal_strlit("base_url");
        assert forall|i: int, j: int| 0 <= i < j < 2 implies #[trigger] kw_view(kw2v@)[i].0 != #[trigger] kw_view(kw2v@)[j].0 by {
            if i == 0 && j == 1 {
                assert("model"@.len() != "base_url"@.len());
            }
        }
    }
    let disclaimer = t_with(state, "llm_review.disclaimer", &kw2v);
    proof {
        assert(kw_view(kw1v@) =~= seq![("error"@, review_error(*result))]);
        assert(kw_view(kw2v@) =~= seq![("model"@, result.model@), ("base_url"@, result.base_url@)]);
    }
    if !result.ok {
        push_line(&mut out, unavailable);
        push_line(&mut out, t(state, "llm_review.setup_hint"));
        proof {
            assert(views(out@) =~= seq![
                tr(state.locale@, "section.llm_review"@),
                unavailable@,
                tr(state.locale@, "llm_review.setup_hint"@),
            ]);
        }
        return join(&out, "\n");
    }
    push_line(&mut out, disclaimer);
    let mut tag = "[".to_string();
    tag.append(t(state, "label.llm-opinion").as_str());
    tag.append("]");
    push_line(&mut out, tag);
    push_line(
        &mut out,
        match &result.content {
            Some(c) => c.clone(),
            None => String::new(),
        },
    );
    proof {
        assert(views(out@) =~= seq![
            tr(state.locale@, "section.llm_review"@),
            disclaimer@,
            "["@ + tr(state.locale@, "label.llm-opinion"@) + "]"@,
            match result.content {
                Some(c) => c@,
                None => Seq::empty(),
            },
        ]);
    }
    join(&out, "\n")
}

pub open spec fn yes_no(locale: Seq<char>, b: bool) -> Seq<char> {
    if b {
        tr(locale, "hw.bool_yes"@)
    } else {
        tr(locale, "hw.bool_no"@)
    }
}

/// One GPU row: id, memory, interconnect (`-` when none), FP16 TFLOPS
/// rounded to a whole number, FP8 and FP4 support, aliases (`-` when none).
pub open spec fn gpu_row(locale: Seq<char>, g: GPUSpec) -> Seq<char> {
    g.id@ + " | "@ + dec(g.memory_gb as nat) + " GB | "@ + (if g.nvlink_bandwidth_gbps == 0 {
        "-"@
    } else {
        dec(g.nvlink_bandwidth_gbps as nat) + " GB/s"@
    }) + " | "@ + fixed(g.fp16_tflops_milli as nat, 1000, 0) + " | "@ + yes_no(locale, g.fp8_support) + " | "@
        + yes_no(locale, g.fp4_support) + " | "@ + (if g.aliases@.len() == 0 {
        "-"@
    } else {
        joined(views(g.aliases@), ", "@)
    })
}

/// The GPU catalogue as a table, with a closing count.
pub open spec fn gpu_list_lines(locale: Seq<char>, db: GPUDatabase) -> Seq<Seq<char>> {
    seq![
        tr(locale, "gpus.list.title"@),
        tr(locale, "gpus.col.id"@) + " | "@ + tr(locale, "gpus.col.memory"@) + " | "@ + tr(locale, "gpus.col.nvlink"@)
            + " | "@ + tr(locale, "gpus.col.fp16"@) + " | "@ + tr(locale, "gpus.col.fp8"@) + " | "@ + tr(
            locale,
            "gpus.col.fp4"@,
        ) + " | "@ + tr(locale, "gpus.col.aliases"@),
    ] + db.gpus@.map_values(|g: GPUSpec| gpu_row(locale, g)) + seq![
        translated(locale, "gpus.total"@, seq![("count"@, dec(db.gpus@.len()))]),
    ]
}

fn gpu_row_exec(state: &LocaleState, g: &GPUSpec) -> (s: String)
    ensures
        s@ == gpu_row(state.locale@, *g),
{
    let mut s = g.id.clone();
    s.append(" | ");
    s.append(u64_to_string(g.memory_gb).as_str());
    s.append(" GB | ");
    if g.nvlink_bandwidth_gbps == 0 {
        s.append("-");
    } else {
        s.append(u64_to_string(g.nvlink_bandwidth_gbps).as_str());
        s.append(" GB/s");
    }
    s.append(" | ");
    s.append(fmt_fixed(g.fp16_tflops_milli, 1000, 0).as_str());
    s.append(" | ");
    s.append(if g.fp8_support { t(state, "hw.bool_yes") } else { t(state, "hw.bool_no") }.as_str());
    s.append(" | ");
    s.append(if g.fp4_support { t(state, "hw.bool_yes") } else { t(state, "hw.bool_no") }.as_str());
    s.append(" | ");
    if g.aliases.len() == 0 {
        s.append("-");
    } else {
        s.append(join(&g.aliases, ", ").as_str());
    }
    s
}

/// Renders the GPU catalogue as plain text.
pub fn render_gpu_list_text(state: &LocaleState, db: &GPUDatabase) -> (s: String)
    ensures
        s@ == joined(gpu_list_lines(state.locale@, *db), "\n"@),
{
    let mut out: Vec<String> = Vec::new();
    push_line(&mut out, t(state, "gpus.list.title"));
    let mut header = t(state, "gpus.col.id");
    header.append(" | ");
    header.append(t(state, "gpus.col.memory").as_str());
    header.append(" | ");
    header.append(t(state, "gpus.col.nvlink").as_str());
    header.append(" | ");
    header.append(t(state, "gpus.col.fp16").as_str());
    header.append(" | ");
    header.append(t(state, "gpus.col.fp8").as_str());
    header.append(" | ");
    header.append(t(state, "gpus.col.fp4").as_str());
    header.append(" | ");
    header.append(t(state, "gpus.col.aliases").as_str());
    push_line(&mut out, header);
    let ghost head = views(out@);
    let mut i: usize = 0;
    while i < db.gpus.len()
        invariant
            i <= db.gpus@.len(),
            views(out@) == head + db.gpus@.subrange(0, i as int).map_values(|g: GPUSpec| gpu_row(state.locale@, g)),
        decreases db.gpus.len() - i,
    {
        let row = gpu_row_exec(state, &db.gpus[i]);
        proof {
            assert(db.gpus@.subrange(0, i + 1).map_values(|g: GPUSpec| gpu_row(state.locale@, g)) =~= db.gpus@.subrange(
                0,
                i as int,
            ).map_values(|g: GPUSpec| gpu_row(state.locale@, g)).push(gpu_row(state.locale@, db.gpus@[i as int])));
        }
        push_line(&mut out, row);
        i = i + 1;
    }
    assert(db.gpus@.subrange(0, db.gpus@.len() as int) =~= db.gpus@);
    let mut kw: Vec<(String, String)> = Vec::new();
    kw.push(kv_pair("count", u64_to_string(db.gpus.len() as u64).as_str()));
    let total = t_with(state, "gpus.total", &kw);
    push_line(&mut out, total);
    proof {
        assert(kw_view(kw@) =~= seq![("count"@, dec(db.gpus@.len()))]);
        assert(views(out@) =~= gpu_list_lines(state.locale@, *db));
    }
    join(&out, "\n")
}

} // verus!
