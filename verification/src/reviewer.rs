//! The second-opinion review by an external LLM: prompt construction and
//! the interpretation of its reply.
use vstd::prelude::*;
use crate::explain::{ExplainEntry, ExplainInput};
use crate::json::{get, spec_as_str, spec_get, as_str, JsonValue};
use crate::text::{lemma_views_push, join, joined, views, str_eq, trim_end_char, trim_end_matches_char, chars_of, string_of, dec, u64_to_string};

verus! {

/// A reply of the chat endpoint: its status, its body, and the body read as
/// JSON by whoever received it (or why it could not be).
pub struct ReviewHttpResponse {
    pub status: u16,
    pub body: String,
    pub json: Result<JsonValue, String>,
}

/// A chat request as (url, API key, model, system prompt, user prompt,
/// timeout in milliseconds).
pub type ReviewCall = (Seq<char>, Seq<char>, Seq<char>, Seq<char>, Seq<char>, u64);

/// The transport to an OpenAI-compatible chat endpoint.
pub trait ReviewHttpClient {
    /// Every request posted so far, each with what came back.
    ///
    /// The contract of `post_chat_completion` below holds only for a client
    /// that records its requests by overriding this. A client that keeps the
    /// default records none, so it cannot meet that contract; nothing checks
    /// a client written outside verified code, and what the library states
    /// about the request it sends holds only for recording clients.
    closed spec fn sent(&self) -> Seq<(ReviewCall, Result<ReviewHttpResponse, String>)> {
        Seq::empty()
    }

    /// Posts one chat completion request.
    fn post_chat_completion(
        &mut self,
        url: &str,
        api_key: &str,
        model: &str,
        system_prompt: &str,
        user_prompt: &str,
        timeout_ms: u64,
    ) -> (r: Result<ReviewHttpResponse, String>)
        ensures
            final(self).sent() == old(self).sent().push(
                ((url@, api_key@, model@, system_prompt@, user_prompt@, timeout_ms), r),
            ),
    ;
}

pub struct LlmReviewResult {
    pub ok: bool,
    pub content: Option<String>,
    pub error: Option<String>,
    pub model: String,
    pub base_url: String,
}

/// The second-opinion endpoint settings read from the environment.
pub struct EnvConfig {
    pub api_key: Option<String>,
    pub base_url: Option<String>,
    pub model: Option<String>,
}

pub open spec fn system_prompt_text(locale: Seq<char>) -> Seq<char> {
    if locale == "zh"@ {
        "你是一个大模型推理硬件计算工具的独立审计者。工具产出确定性的推导链，你的工作是发现数学错误、不合理假设或遗漏。你不负责重新计算，只负责评论和确认。输出简体中文。"@
    } else {
        "You are an independent auditor for a deterministic LLM inference hardware calculator. The tool produces a derivation trace; your job is to find math errors, unreasonable assumptions, or missing considerations. You do NOT recalculate; you only critique and confirm."@
    }
}

pub fn system_prompt(locale: &str) -> (s: String)
    ensures
        s@ == system_prompt_text(locale@),
{
    if str_eq(locale, "zh") {
        "你是一个大模型推理硬件计算工具的独立审计者。工具产出确定性的推导链，你的工作是发现数学错误、不合理假设或遗漏。你不负责重新计算，只负责评论和确认。输出简体中文。".to_string()
    } else {
        "You are an independent auditor for a deterministic LLM inference hardware calculator. The tool produces a derivation trace; your job is to find math errors, unreasonable assumptions, or missing considerations. You do NOT recalculate; you only critique and confirm.".to_string()
    }
}

pub open spec fn input_line(i: ExplainInput) -> Seq<char> {
    "  - "@ + i.name@ + " = "@ + i.value@ + " "@ + i.label@ + if i.note@.len() == 0 {
        Seq::empty()
    } else {
        " ("@ + i.note@ + ")"@
    }
}

pub open spec fn entry_lines(e: ExplainEntry) -> Seq<Seq<char>> {
    seq!["## "@ + e.heading@, "Formula:\n"@ + e.formula@] + (if e.inputs@.len() == 0 {
        Seq::empty()
    } else {
        seq!["Inputs:"@] + e.inputs@.map_values(|i: ExplainInput| input_line(i))
    }) + (if e.steps@.len() == 0 {
        Seq::empty()
    } else {
        seq!["Steps:"@] + e.steps@.map_values(|s: String| "  "@ + s@)
    }) + seq!["Result: "@ + e.result@] + (if e.source@.len() == 0 {
        Seq::empty()
    } else {
        seq!["Source: "@ + e.source@]
    })
}

/// One entry of the derivation trace as the auditing model reads it.
pub open spec fn entry_text(e: ExplainEntry) -> Seq<char> {
    joined(entry_lines(e), "\n"@)
}

fn input_line_exec(i: &ExplainInput) -> (s: String)
    ensures
        s@ == input_line(*i),
{
    let mut s = String::new();
    s.append("  - ");
    s.append(i.name.as_str());
    s.append(" = ");
    s.append(i.value.as_str());
    s.append(" ");
    s.append(i.label.as_str());
    if i.note.as_str().unicode_len() > 0 {
        s.append(" (");
        s.append(i.note.as_str());
        s.append(")");
    }
    s
}

pub fn format_entry(entry: &ExplainEntry) -> (s: String)
    ensures
        s@ == entry_text(*entry),
{
    let mut parts: Vec<String> = Vec::new();
    let mut h = String::new();
    h.append("## ");
    h.append(entry.heading.as_str());
    proof { lemma_views_push(parts@, h); }
    parts.push(h);
    let mut f = String::new();
    f.append("Formula:\n");
    f.append(entry.formula.as_str());
    proof { lemma_views_push(parts@, f); }
    parts.push(f);
    let ghost head = views(parts@);
    if entry.inputs.len() > 0 {
        let lbl = "Inputs:".to_string();
        proof { lemma_views_push(parts@, lbl); }
        parts.push(lbl);
        let mut i: usize = 0;
        while i < entry.inputs.len()
            invariant
                i <= entry.inputs@.len(),
                views(parts@) == head + seq!["Inputs:"@] + entry.inputs@.subrange(0, i as int).map_values(
                    |x: ExplainInput| input_line(x),
                ),
            decreases entry.inputs.len() - i,
        {
            let line = input_line_exec(&entry.inputs[i]);
            let ghost before = parts@;
            parts.push(line);
            proof {
                lemma_views_push(before, line);
                assert(entry.inputs@.subrange(0, i + 1).map_values(|x: ExplainInput| input_line(x))
                    =~= entry.inputs@.subrange(0, i as int).map_values(|x: ExplainInput| input_line(x)).push(
                    input_line(entry.inputs@[i as int]),
                ));
                assert(views(parts@) =~= head + seq!["Inputs:"@] + entry.inputs@.subrange(0, i + 1).map_values(
                    |x: ExplainInput| input_line(x),
                ));
            }
            i = i + 1;
        }
        assert(entry.inputs@.subrange(0, entry.inputs@.len() as int) =~= entry.inputs@);
    }
    let ghost mid = views(parts@);
    if entry.steps.len() > 0 {
        let lbl = "Steps:".to_string();
        proof { lemma_views_push(parts@, lbl); }
        parts.push(lbl);
        let mut i: usize = 0;
        while i < entry.steps.len()
            invariant
                i <= entry.steps@.len(),
                views(parts@) == mid + seq!["Steps:"@] + entry.steps@.subrange(0, i as int).map_values(
                    |x: String| "  "@ + x@,
                ),
            decreases entry.steps.len() - i,
        {
            let mut line = String::new();
            line.append("  ");
            line.append(entry.steps[i].as_str());
            let ghost before = parts@;
            parts.push(line);
            proof {
                lemma_views_push(before, line);
                assert(entry.steps@.subrange(0, i + 1).map_values(|x: String| "  "@ + x@)
                    =~= entry.steps@.subrange(0, i as int).map_values(|x: String| "  "@ + x@).push(
                    "  "@ + entry.steps@[i as int]@,
                ));
                assert(views(parts@) =~= mid + seq!["Steps:"@] + entry.steps@.subrange(0, i + 1).map_values(
                    |x: String| "  "@ + x@,
                ));
            }
            i = i + 1;
        }
        assert(entry.steps@.subrange(0, entry.steps@.len() as int) =~= entry.steps@);
    }
    let mut r = String::new();
    r.append("Result: ");
    r.append(entry.result.as_str());
    let ghost before_r = views(parts@);
    proof { lemma_views_push(parts@, r); }
    parts.push(r);
    if entry.source.as_str().unicode_len() > 0 {
        let mut so = String::new();
        so.append("Source: ");
        so.append(entry.source.as_str());
        proof { lemma_views_push(parts@, so); }
        parts.push(so);
    }
    assert(views(parts@) =~= entry_lines(*entry));
    join(&parts, "\n")
}

/// The derivation trace: every entry, separated by blank lines.
pub open spec fn trace_text(entries: Seq<ExplainEntry>) -> Seq<char> {
    joined(entries.map_values(|e: ExplainEntry| entry_text(e)), "\n\n"@)
}

/// The derivation trace between its tags.
pub open spec fn tagged_trace(trace: Seq<char>) -> Seq<char> {
    "<DERIVATION_TRACE>\n"@ + trace + "\n</DERIVATION_TRACE>"@
}

/// The section heading that asks for critical issues, in the locale's
/// language.
pub open spec fn critical_heading(locale: Seq<char>) -> Seq<char> {
    if locale == "zh"@ {
        "## 关键错误"@
    } else {
        "## Critical issues"@
    }
}

pub open spec fn prompt_text(trace: Seq<char>, locale: Seq<char>) -> Seq<char> {
    if locale == "zh"@ {
        "下面是工具产出的一份完整推导链。请审计。\n\n"@ + tagged_trace(trace) + "\n\n按下面结构回复。没内容的段落写\"无\"。\n\n"@ + critical_heading(locale) + "\n（数学错误或公式错误 -- 会导致最终答案错）\n\n## 中度疑虑\n（不合理假设、因子偏差 2x+、遗漏的 TP 分摊等）\n\n## 次要备注\n（澄清、风格、可选改进）\n\n## 一致性核查\n（哪些 ExplainEntry 标题看起来是对的？明确列出）\n\n规则：\n- 必须引用具体的 ExplainEntry 标题名。具体点。\n- 不要产出新数字，只做评论。\n- 不确定的地方直说。不要编造。\n- 你的所有输出都只是 second opinion，不是权威答案。"@
    } else {
        "The deterministic tool produced this derivation trace for one model evaluation. Audit it.\n\n"@ + tagged_trace(trace) + "\n\nRespond in this structure. If a section has nothing to flag, write \"none\".\n\n"@ + critical_heading(locale) + "\n(math errors or wrong formulas - would give wrong final answer)\n\n## Moderate concerns\n(unreasonable assumptions, factors off by 2x+, missing TP/sharding effects, etc.)\n\n## Minor notes\n(clarifications, stylistic, optional improvements)\n\n## Consensus check\n(which ExplainEntry headings look correct? name them explicitly)\n\nRules:\n- Cite specific ExplainEntry heading names. Be concrete.\n- Do NOT produce new numbers. Only critique.\n- If you don't know, say so. Do not hallucinate.\n- All your output must be tagged as a second opinion, NOT authoritative."@
    }
}

/// The user prompt: the audit instructions around the derivation trace.
pub fn build_prompt(entries: &Vec<ExplainEntry>, locale: &str) -> (s: String)
    ensures
        s@ == prompt_text(trace_text(entries@), locale@),
{
    let mut texts: Vec<String> = Vec::new();
    let mut i: usize = 0;
    while i < entries.len()
        invariant
            i <= entries@.len(),
            views(texts@) == entries@.subrange(0, i as int).map_values(|e: ExplainEntry| entry_text(e)),
        decreases entries.len() - i,
    {
        let t = format_entry(&entries[i]);
        let ghost before = texts@;
        texts.push(t);
        proof {
            lemma_views_push(before, t);
            assert(entries@.subrange(0, i + 1).map_values(|e: ExplainEntry| entry_text(e))
                =~= entries@.subrange(0, i as int).map_values(|e: ExplainEntry| entry_text(e)).push(
                entry_text(entries@[i as int]),
            ));
            assert(views(texts@) =~= entries@.subrange(0, i + 1).map_values(|e: ExplainEntry| entry_text(e)));
        }
        i = i + 1;
    }
    assert(entries@.subrange(0, entries@.len() as int) =~= entries@);
    let trace = join(&texts, "\n\n");
    let mut s = String::new();
    if str_eq(locale, "zh") {
        s.append("下面是工具产出的一份完整推导链。请审计。\n\n");
        s.append("<DERIVATION_TRACE>\n");
        s.append(trace.as_str());
        s.append("\n</DERIVATION_TRACE>");
        s.append("\n\n按下面结构回复。没内容的段落写\"无\"。\n\n");
        s.append("## 关键错误");
        s.append("\n（数学错误或公式错误 -- 会导致最终答案错）\n\n## 中度疑虑\n（不合理假设、因子偏差 2x+、遗漏的 TP 分摊等）\n\n## 次要备注\n（澄清、风格、可选改进）\n\n## 一致性核查\n（哪些 ExplainEntry 标题看起来是对的？明确列出）\n\n规则：\n- 必须引用具体的 ExplainEntry 标题名。具体点。\n- 不要产出新数字，只做评论。\n- 不确定的地方直说。不要编造。\n- 你的所有输出都只是 second opinion，不是权威答案。");
    } else {
        s.append("The deterministic tool produced this derivation trace for one model evaluation. Audit it.\n\n");
        s.append("<DERIVATION_TRACE>\n");
        s.append(trace.as_str());
        s.append("\n</DERIVATION_TRACE>");
        s.append("\n\nRespond in this structure. If a section has nothing to flag, write \"none\".\n\n");
        s.append("## Critical issues");
        s.append("\n(math errors or wrong formulas - would give wrong final answer)\n\n## Moderate concerns\n(unreasonable assumptions, factors off by 2x+, missing TP/sharding effects, etc.)\n\n## Minor notes\n(clarifications, stylistic, optional improvements)\n\n## Consensus check\n(which ExplainEntry headings look correct? name them explicitly)\n\nRules:\n- Cite specific ExplainEntry heading names. Be concrete.\n- Do NOT produce new numbers. Only critique.\n- If you don't know, say so. Do not hallucinate.\n- All your output must be tagged as a second opinion, NOT authoritative.");
    }
    s
}

/// The endpoint without trailing slashes; OpenAI's when none is set.
pub open spec fn base_url_of(base_url: Option<String>) -> Seq<char> {
    trim_end_char(
        match base_url {
            Some(u) => u@,
            None => "https://api.openai.com/v1"@,
        },
        '/',
    )
}

pub fn normalized_base_url(base_url: &Option<String>) -> (s: String)
    ensures
        s@ == base_url_of(*base_url),
{
    match base_url {
        Some(u) => trim_end_matches_char(u.as_str(), '/'),
        None => trim_end_matches_char("https://api.openai.com/v1", '/'),
    }
}

pub open spec fn model_of(model: Option<String>) -> Seq<char> {
    match model {
        Some(m) => m@,
        None => "gpt-4o"@,
    }
}

/// The first `max_chars` characters.
pub fn truncate_chars(value: &str, max_chars: usize) -> (s: String)
    ensures
        s@ == (if value@.len() <= max_chars { value@ } else { value@.subrange(0, max_chars as int) }),
{
    let v = chars_of(value);
    let n = if v.len() < max_chars {
        v.len()
    } else {
        max_chars
    };
    let mut out: Vec<char> = Vec::new();
    let mut i: usize = 0;
    while i < n
        invariant
            i <= n <= v@.len(),
            out@ == v@.subrange(0, i as int),
        decreases n - i,
    {
        out.push(v[i]);
        i = i + 1;
        assert(out@ =~= v@.subrange(0, i as int));
    }
    assert(v@.subrange(0, v@.len() as int) =~= v@);
    string_of(&out)
}

pub open spec fn missing_key_message() -> Seq<char> {
    "LLM_CAL_REVIEWER_API_KEY env var not set. Set it to the API key of an OpenAI-compatible endpoint (OpenAI, DeepSeek, Moonshot, Zhipu, etc.)."@
}

pub open spec fn has_key(env: EnvConfig) -> bool {
    env.api_key is Some && env.api_key->0@.len() > 0
}

/// `choices[0].message.content` of a reply read as JSON, or why there is
/// none: the reader's message, or that the path is missing.
pub open spec fn content_of(json: Result<JsonValue, String>) -> Result<Seq<char>, Seq<char>> {
    match json {
        Err(e) => Err(e@),
        Ok(v) => {
            let content = match spec_get(v, "choices"@) {
                Some(JsonValue::Array(a)) => if a@.len() > 0 {
                    match spec_get(a@[0], "message"@) {
                        Some(m) => match spec_get(m, "content"@) {
                            Some(c) => spec_as_str(c),
                            None => None,
                        },
                        None => None,
                    }
                } else {
                    None
                },
                _ => None,
            };
            match content {
                Some(c) => Ok(c),
                None => Err("missing choices[0].message.content"@),
            }
        },
    }
}

pub open spec fn text_result(r: Result<String, String>) -> Result<Seq<char>, Seq<char>> {
    match r {
        Ok(s) => Ok(s@),
        Err(e) => Err(e@),
    }
}

/// The message content of a chat reply read as JSON.
pub fn message_content(json: &Result<JsonValue, String>) -> (r: Result<String, String>)
    ensures
        text_result(r) == content_of(*json),
{
    let v = match json {
        Err(e) => {
            return Err(e.clone());
        },
        Ok(v) => v,
    };
    let content: Option<&str> = match get(v, "choices") {
        Some(JsonValue::Array(a)) => if a.len() > 0 {
            match get(&a[0], "message") {
                Some(m) => match get(m, "content") {
                    Some(c) => as_str(c),
                    None => None,
                },
                None => None,
            }
        } else {
            None
        },
        _ => None,
    };
    match content {
        Some(c) => Ok(c.to_string()),
        None => Err("missing choices[0].message.content".to_string()),
    }
}

/// A review result as (ok, content, error, model, endpoint).
pub open spec fn review_view(r: LlmReviewResult) -> (bool, Option<Seq<char>>, Option<Seq<char>>, Seq<char>, Seq<char>) {
    (
        r.ok,
        match r.content {
            Some(c) => Some(c@),
            None => None,
        },
        match r.error {
            Some(e) => Some(e@),
            None => None,
        },
        r.model@,
        r.base_url@,
    )
}

/// The first 500 characters.
pub open spec fn first_500(s: Seq<char>) -> Seq<char> {
    if s.len() <= 500 {
        s
    } else {
        s.subrange(0, 500)
    }
}

/// What a reply means: the transport's error; `HTTP <status>: ` and the
/// start of the body for any status but 200; else the content, or that the
/// reply was malformed.
pub open spec fn outcome_of(response: Result<ReviewHttpResponse, String>, model: Seq<char>, base_url: Seq<char>) -> (
    bool,
    Option<Seq<char>>,
    Option<Seq<char>>,
    Seq<char>,
    Seq<char>,
) {
    match response {
        Err(e) => (false, None, Some(e@), model, base_url),
        Ok(r) => if r.status != 200 {
            (false, None, Some("HTTP "@ + dec(r.status as nat) + ": "@ + first_500(r.body@)), model, base_url)
        } else {
            match content_of(r.json) {
                Ok(c) => (true, Some(c), None, model, base_url),
                Err(e) => (false, None, Some("Malformed response: "@ + e), model, base_url),
            }
        },
    }
}

/// The review made of a reply.
pub fn review_outcome(response: Result<ReviewHttpResponse, String>, model: String, base_url: String) -> (r:
    LlmReviewResult)
    ensures
        review_view(r) == outcome_of(response, model@, base_url@),
{
    let response = match response {
        Ok(r) => r,
        Err(e) => {
            return LlmReviewResult { ok: false, content: None, error: Some(e), model, base_url };
        },
    };
    if response.status != 200 {
        let mut e = String::new();
        e.append("HTTP ");
        e.append(u64_to_string(response.status as u64).as_str());
        e.append(": ");
        e.append(truncate_chars(response.body.as_str(), 500).as_str());
        return LlmReviewResult { ok: false, content: None, error: Some(e), model, base_url };
    }
    match message_content(&response.json) {
        Ok(content) => LlmReviewResult { ok: true, content: Some(content), error: None, model, base_url },
        Err(err) => {
            let mut e = String::new();
            e.append("Malformed response: ");
            e.append(err.as_str());
            LlmReviewResult { ok: false, content: None, error: Some(e), model, base_url }
        },
    }
}

/// The request a review sends.
pub open spec fn review_call(entries: Seq<ExplainEntry>, locale: Seq<char>, env: EnvConfig, timeout_ms: u64) -> ReviewCall {
    (
        base_url_of(env.base_url) + "/chat/completions"@,
        env.api_key->0@,
        model_of(env.model),
        system_prompt_text(locale),
        prompt_text(trace_text(entries), locale),
        timeout_ms,
    )
}

/// The review: without an API key, an error that says how to set one and
/// no request at all; otherwise one request with the audit prompts, and
/// the review made of its reply.
pub fn run_review_with_client<C: ReviewHttpClient>(
    entries: &Vec<ExplainEntry>,
    locale: &str,
    env: EnvConfig,
    timeout_ms: u64,
    client: &mut C,
) -> (r: LlmReviewResult)
    ensures
        r.model@ == model_of(env.model),
        r.base_url@ == base_url_of(env.base_url),
        !has_key(env) ==> *final(client) == *old(client) && review_view(r) == (
            false,
            None::<Seq<char>>,
            Some(missing_key_message()),
            model_of(env.model),
            base_url_of(env.base_url),
        ),
        has_key(env) ==> final(client).sent().len() == old(client).sent().len() + 1 && final(client).sent().drop_last()
            == old(client).sent() && final(client).sent().last().0 == review_call(entries@, locale@, env, timeout_ms)
            && review_view(r) == outcome_of(final(client).sent().last().1, model_of(env.model), base_url_of(env.base_url)),
{
    let base_url = normalized_base_url(&env.base_url);
    let model = match env.model {
        Some(m) => m,
        None => "gpt-4o".to_string(),
    };
    let api_key = match env.api_key {
        Some(k) => k,
        None => String::new(),
    };
    if api_key.as_str().unicode_len() == 0 {
        return LlmReviewResult {
            ok: false,
            content: None,
            error: Some(
                "LLM_CAL_REVIEWER_API_KEY env var not set. Set it to the API key of an OpenAI-compatible endpoint (OpenAI, DeepSeek, Moonshot, Zhipu, etc.)."
                    .to_string(),
            ),
            model,
            base_url,
        };
    }
    let prompt = build_prompt(entries, locale);
    let system = system_prompt(locale);
    let mut url = base_url.clone();
    url.append("/chat/completions");
    let response = client.post_chat_completion(
        url.as_str(),
        api_key.as_str(),
        model.as_str(),
        system.as_str(),
        prompt.as_str(),
        timeout_ms,
    );
    assert(client.sent().drop_last() =~= old(client).sent()) by {
        assert(client.sent() =~= old(client).sent().push(
            ((url@, api_key@, model@, system@, prompt@, timeout_ms), response),
        ));
    }
    review_outcome(response, model, base_url)
}

/// The review with the usual one-minute timeout.
pub fn run_review_with_env<C: ReviewHttpClient>(
    entries: &Vec<ExplainEntry>,
    locale: &str,
    env: EnvConfig,
    client: &mut C,
) -> (r: LlmReviewResult)
    ensures
        r.model@ == model_of(env.model),
        r.base_url@ == base_url_of(env.base_url),
        !has_key(env) ==> *final(client) == *old(client) && review_view(r) == (
            false,
            None::<Seq<char>>,
            Some(missing_key_message()),
            model_of(env.model),
            base_url_of(env.base_url),
        ),
        has_key(env) ==> final(client).sent().len() == old(client).sent().len() + 1 && final(client).sent().drop_last()
            == old(client).sent() && final(client).sent().last().0 == review_call(entries@, locale@, env, 60_000)
            && review_view(r) == outcome_of(final(client).sent().last().1, model_of(env.model), base_url_of(env.base_url)),
{
    run_review_with_client(entries, locale, env, 60_000, client)
}

} // verus!
