//! Launch commands for vLLM and SGLang.
use vstd::prelude::*;
use crate::engine_compat::{EngineCompatEntry, EngineFlag};
use crate::i18n::replaced;
use crate::i18n::replace_all;
use crate::json::{json_quote, quoted};
use crate::layout::{ceil_div, ceil_div_u64};
use crate::profile::ArchitectureProfile;
use crate::text::{
    dec, fixed, fmt_fixed, join, joined, views, lemma_views_push, seq_starts_with, starts_with,
    str_eq, trim, trimmed, trim_end_char, trim_end_matches_char, u64_to_string,
};

verus! {

pub const DEFAULT_GPUS_PER_NODE: u64 = 8;

/// How many GPUs a launch uses and how they are split.
#[derive(Clone, Copy, Debug, PartialEq, Eq, Structural)]
pub struct Parallelism {
    pub total_gpus: u64,
    pub tensor_parallel_size: u64,
    pub pipeline_parallel_size: u64,
}

pub open spec fn node_count_of(p: Parallelism) -> int {
    let by_gpus = ceil_div(p.total_gpus as int, DEFAULT_GPUS_PER_NODE as int);
    let m = if by_gpus > p.pipeline_parallel_size { by_gpus } else { p.pipeline_parallel_size as int };
    if m < 1 { 1 } else { m }
}

impl Parallelism {
    /// Plain tensor parallelism on one node.
    pub fn single(tensor_parallel_size: u64) -> (p: Self)
        ensures
            p.total_gpus == tensor_parallel_size,
            p.tensor_parallel_size == tensor_parallel_size,
            p.pipeline_parallel_size == 1,
    {
        Parallelism { total_gpus: tensor_parallel_size, tensor_parallel_size, pipeline_parallel_size: 1 }
    }

    /// Nodes needed: enough for the GPUs at 8 per node, and one per pipeline
    /// stage.
    pub fn node_count(self) -> (n: u64)
        ensures
            n == node_count_of(self),
    {
        let by_gpus = ceil_div_u64(self.total_gpus, DEFAULT_GPUS_PER_NODE);
        let m = if by_gpus > self.pipeline_parallel_size {
            by_gpus
        } else {
            self.pipeline_parallel_size
        };
        if m < 1 {
            1
        } else {
            m
        }
    }
}

pub open spec fn flag_text(f: EngineFlag) -> Seq<char> {
    match f.value {
        Some(v) => f.flag@ + " "@ + v@,
        None => f.flag@,
    }
}

pub fn render_flag(flag: &EngineFlag) -> (s: String)
    ensures
        s@ == flag_text(*flag),
{
    match &flag.value {
        Some(v) => {
            let mut s = flag.flag.clone();
            s.append(" ");
            s.append(v.as_str());
            s
        },
        None => flag.flag.clone(),
    }
}

pub open spec fn has_flag(e: Option<&EngineCompatEntry>, flag: Seq<char>) -> bool {
    match e {
        Some(x) => (exists|i: int| 0 <= i < x.required_flags@.len() && #[trigger] x.required_flags@[i].flag@ == flag)
            || (exists|i: int| 0 <= i < x.optional_flags@.len() && #[trigger] x.optional_flags@[i].flag@ == flag),
        None => false,
    }
}

fn flags_contain(flags: &Vec<EngineFlag>, flag: &str) -> (b: bool)
    ensures
        b == exists|i: int| 0 <= i < flags@.len() && #[trigger] flags@[i].flag@ == flag@,
{
    let mut i: usize = 0;
    while i < flags.len()
        invariant
            i <= flags@.len(),
            forall|j: int| 0 <= j < i ==> #[trigger] flags@[j].flag@ != flag@,
        decreases flags.len() - i,
    {
        if str_eq(flags[i].flag.as_str(), flag) {
            return true;
        }
        i = i + 1;
    }
    false
}

pub fn entry_has_flag(entry: Option<&EngineCompatEntry>, flag: &str) -> (b: bool)
    ensures
        b == has_flag(entry, flag@),
{
    match entry {
        Some(e) => flags_contain(&e.required_flags, flag) || flags_contain(&e.optional_flags, flag),
        None => false,
    }
}

/// A value that is present and not blank, trimmed.
pub open spec fn nonempty_text(v: Option<&str>) -> Option<Seq<char>> {
    match v {
        Some(s) => if trimmed(s@).len() > 0 { Some(trimmed(s@)) } else { None },
        None => None,
    }
}

pub fn nonempty<'a>(value: Option<&'a str>) -> (r: Option<&'a str>)
    ensures
        match r {
            Some(s) => nonempty_text(value) == Some(s@),
            None => nonempty_text(value) is None,
        },
{
    match value {
        Some(s) => {
            let t = trim(s);
            if t.unicode_len() > 0 {
                Some(t)
            } else {
                None
            }
        },
        None => None,
    }
}

/// `'value'` for a POSIX shell, with embedded single quotes closed, quoted
/// and reopened.
pub open spec fn shell_quoted(v: Seq<char>) -> Seq<char> {
    "'"@ + replaced(v, "'"@, "'\"'\"'"@) + "'"@
}

pub fn shell_single_quote(value: &str) -> (s: String)
    ensures
        s@ == shell_quoted(value@),
{
    let mut s = String::new();
    s.append("'");
    s.append(replace_all(value, "'", "'\"'\"'").as_str());
    s.append("'");
    s
}

/// Model families whose checkpoints ship custom modelling code.
pub open spec fn trusts_remote_code(model_type: Seq<char>) -> bool {
    seq_starts_with(model_type, "deepseek"@) || seq_starts_with(model_type, "glm"@)
        || seq_starts_with(model_type, "qwen2_moe"@) || seq_starts_with(model_type, "qwen3_moe"@)
        || seq_starts_with(model_type, "qwen3_5_moe"@) || seq_starts_with(model_type, "mixtral"@)
}

pub fn needs_trust_remote_code(model_type: &str) -> (b: bool)
    ensures
        b == trusts_remote_code(model_type@),
{
    starts_with(model_type, "deepseek") || starts_with(model_type, "glm") || starts_with(
        model_type,
        "qwen2_moe",
    ) || starts_with(model_type, "qwen3_moe") || starts_with(model_type, "qwen3_5_moe")
        || starts_with(model_type, "mixtral")
}

pub const BYTES_PER_GIB: u64 = 1_073_741_824;

/// Bytes as GiB with at most three decimals, trailing zeros (and a bare
/// point) dropped.
pub open spec fn gib_text(bytes: u64) -> Seq<char> {
    let t = trim_end_char(fixed(bytes as nat, BYTES_PER_GIB as nat, 3), '0');
    if t.len() > 0 && t.last() == '.' {
        t.drop_last()
    } else {
        t
    }
}

pub fn format_gib(bytes: u64) -> (s: String)
    ensures
        s@ == gib_text(bytes),
{
    let full = fmt_fixed(bytes, BYTES_PER_GIB, 3);
    let t = trim_end_matches_char(full.as_str(), '0');
    let v = crate::text::chars_of(t.as_str());
    if v.len() > 0 && v[v.len() - 1] == '.' {
        let mut out: Vec<char> = Vec::new();
        let mut i: usize = 0;
        while i < v.len() - 1
            invariant
                v@.len() > 0,
                i <= v@.len() - 1,
                out@ == v@.subrange(0, i as int),
            decreases v.len() - 1 - i,
        {
            out.push(v[i]);
            i = i + 1;
            assert(out@ =~= v@.subrange(0, i as int));
        }
        assert(out@ =~= t@.drop_last());
        crate::text::string_of(&out)
    } else {
        t
    }
}

pub open spec fn line_if(b: bool, l: Seq<char>) -> Seq<Seq<char>> {
    if b {
        seq![l]
    } else {
        Seq::empty()
    }
}

pub open spec fn flag_lines(flags: Seq<EngineFlag>) -> Seq<Seq<char>> {
    flags.map_values(|f: EngineFlag| "  "@ + flag_text(f))
}

pub open spec fn entry_lines(e: Option<&EngineCompatEntry>) -> Seq<Seq<char>> {
    match e {
        Some(x) => flag_lines(x.required_flags@) + flag_lines(x.optional_flags@),
        None => Seq::empty(),
    }
}

/// The context length to launch with: the override, else the model's
/// maximum position.
pub open spec fn launch_context(p: ArchitectureProfile, max_model_len: Option<u64>) -> Option<u64> {
    match max_model_len {
        Some(m) => Some(m),
        None => match p.position {
            Some(pos) => pos.max_position_embeddings,
            None => None,
        },
    }
}

fn launch_context_exec(p: &ArchitectureProfile, max_model_len: Option<u64>) -> (r: Option<u64>)
    ensures
        r == launch_context(*p, max_model_len),
{
    match max_model_len {
        Some(m) => Some(m),
        None => match &p.position {
            Some(pos) => pos.max_position_embeddings,
            None => None,
        },
    }
}

/// Options beyond the layout that a launch command reflects.
pub struct LaunchOptions<'a> {
    pub max_concurrent_requests: Option<u64>,
    pub cpu_offload_bytes: u64,
    pub speculative_draft_model_id: Option<&'a str>,
    pub speculative_num_draft_tokens: Option<u64>,
}

impl<'a> LaunchOptions<'a> {
    /// Nothing beyond the layout.
    pub fn none() -> (o: Self)
        ensures
            o.max_concurrent_requests is None,
            o.cpu_offload_bytes == 0,
            o.speculative_draft_model_id is None,
            o.speculative_num_draft_tokens is None,
    {
        LaunchOptions {
            max_concurrent_requests: None,
            cpu_offload_bytes: 0,
            speculative_draft_model_id: None,
            speculative_num_draft_tokens: None,
        }
    }
}

/// The options of a launch, an absent offload counted as none.
pub open spec fn launch_options<'a>(
    max_concurrent_requests: Option<u64>,
    cpu_offload_bytes: Option<u64>,
    speculative_draft_model_id: Option<&'a str>,
    speculative_num_draft_tokens: Option<u64>,
) -> LaunchOptions<'a> {
    LaunchOptions {
        max_concurrent_requests,
        cpu_offload_bytes: match cpu_offload_bytes {
            Some(b) => b,
            None => 0,
        },
        speculative_draft_model_id,
        speculative_num_draft_tokens,
    }
}

pub open spec fn positive(v: Option<u64>) -> bool {
    v is Some && v->0 > 0
}

pub open spec fn speculative_config(draft: Seq<char>, tokens: Option<u64>) -> Seq<char> {
    let n = match tokens {
        Some(t) => if t < 1 { 1 } else { t as int },
        None => 4,
    };
    "{\"model\":"@ + quoted(draft) + ",\"num_speculative_tokens\":"@ + dec(n as nat) + "}"@
}

pub open spec fn vllm_head(model_id: Seq<char>, par: Parallelism, ctx: Option<u64>) -> Seq<Seq<char>> {
    seq!["vllm serve "@ + model_id, "  --tensor-parallel-size "@ + dec(par.tensor_parallel_size as nat)]
        + line_if(par.pipeline_parallel_size > 1, "  --pipeline-parallel-size "@ + dec(par.pipeline_parallel_size as nat))
        + line_if(node_count_of(par) > 1, "  --distributed-executor-backend ray"@)
        + line_if(ctx is Some, "  --max-model-len "@ + dec(ctx->0 as nat))
}

pub open spec fn vllm_options(p: ArchitectureProfile, e: Option<&EngineCompatEntry>, o: LaunchOptions) -> Seq<Seq<char>> {
    let draft = nonempty_text(o.speculative_draft_model_id);
    line_if(positive(o.max_concurrent_requests) && !has_flag(e, "--max-num-seqs"@),
        "  --max-num-seqs "@ + dec(o.max_concurrent_requests->0 as nat))
        + line_if(trusts_remote_code(p.model_type@), "  --trust-remote-code"@)
        + seq!["  --gpu-memory-utilization 0.9"@]
        + line_if(o.cpu_offload_bytes > 0 && !has_flag(e, "--cpu-offload-gb"@),
            "  --cpu-offload-gb "@ + gib_text(o.cpu_offload_bytes))
        + line_if(draft is Some && !has_flag(e, "--speculative-config"@) && !has_flag(e, "--speculative-model"@),
            "  --speculative-config "@ + shell_quoted(speculative_config(draft->0, o.speculative_num_draft_tokens)))
}

/// The lines of a `vllm serve` command: the layout, the context length,
/// the options, then the flags that the engine entry asks for.
pub open spec fn vllm_lines(
    model_id: Seq<char>,
    p: ArchitectureProfile,
    par: Parallelism,
    e: Option<&EngineCompatEntry>,
    max_model_len: Option<u64>,
    o: LaunchOptions,
) -> Seq<Seq<char>> {
    vllm_head(model_id, par, launch_context(p, max_model_len)) + vllm_options(p, e, o) + entry_lines(e)
}

fn push_line(lines: &mut Vec<String>, line: String)
    ensures
        views(final(lines)@) == views(old(lines)@).push(line@),
{
    proof {
        lemma_views_push(lines@, line);
    }
    lines.push(line);
}

fn prefixed(prefix: &str, rest: &str) -> (s: String)
    ensures
        s@ == prefix@ + rest@,
{
    let mut s = String::new();
    s.append(prefix);
    s.append(rest);
    s
}

fn push_entry_flags(lines: &mut Vec<String>, entry: Option<&EngineCompatEntry>)
    ensures
        views(final(lines)@) == views(old(lines)@) + entry_lines(entry),
{
    match entry {
        Some(e) => {
            let ghost start = views(lines@);
            let mut i: usize = 0;
            while i < e.required_flags.len()
                invariant
                    i <= e.required_flags@.len(),
                    views(lines@) == start + flag_lines(e.required_flags@.subrange(0, i as int)),
                decreases e.required_flags.len() - i,
            {
                let l = prefixed("  ", render_flag(&e.required_flags[i]).as_str());
                push_line(lines, l);
                assert(flag_lines(e.required_flags@.subrange(0, i + 1)) =~= flag_lines(
                    e.required_flags@.subrange(0, i as int),
                ).push("  "@ + flag_text(e.required_flags@[i as int])));
                i = i + 1;
            }
            assert(e.required_flags@.subrange(0, e.required_flags@.len() as int) =~= e.required_flags@);
            let ghost mid = views(lines@);
            let mut j: usize = 0;
            while j < e.optional_flags.len()
                invariant
                    j <= e.optional_flags@.len(),
                    views(lines@) == mid + flag_lines(e.optional_flags@.subrange(0, j as int)),
                decreases e.optional_flags.len() - j,
            {
                let l = prefixed("  ", render_flag(&e.optional_flags[j]).as_str());
                push_line(lines, l);
                assert(flag_lines(e.optional_flags@.subrange(0, j + 1)) =~= flag_lines(
                    e.optional_flags@.subrange(0, j as int),
                ).push("  "@ + flag_text(e.optional_flags@[j as int])));
                j = j + 1;
            }
            assert(e.optional_flags@.subrange(0, e.optional_flags@.len() as int) =~= e.optional_flags@);
            assert(views(lines@) =~= start + entry_lines(entry));
        },
        None => {
            assert(views(lines@) =~= views(lines@) + entry_lines(entry));
        },
    }
}

fn speculative_config_exec(draft: &str, tokens: Option<u64>) -> (s: String)
    ensures
        s@ == speculative_config(draft@, tokens),
{
    let n: u64 = match tokens {
        Some(t) => if t < 1 {
            1
        } else {
            t
        },
        None => 4,
    };
    let mut s = String::new();
    s.append("{\"model\":");
    s.append(json_quote(draft).as_str());
    s.append(",\"num_speculative_tokens\":");
    s.append(u64_to_string(n).as_str());
    s.append("}");
    s
}

fn push_vllm_head(lines: &mut Vec<String>, model_id: &str, parallelism: Parallelism, ctx: Option<u64>)
    ensures
        views(final(lines)@) == views(old(lines)@) + vllm_head(model_id@, parallelism, ctx),
{
    let ghost start = views(lines@);
    push_line(lines, prefixed("vllm serve ", model_id));
    push_line(lines, prefixed("  --tensor-parallel-size ", u64_to_string(parallelism.tensor_parallel_size).as_str()));
    let ghost a = views(lines@);
    if parallelism.pipeline_parallel_size > 1 {
        push_line(lines, prefixed("  --pipeline-parallel-size ", u64_to_string(parallelism.pipeline_parallel_size).as_str()));
    }
    let ghost b = views(lines@);
    if parallelism.node_count() > 1 {
        push_line(lines, "  --distributed-executor-backend ray".to_string());
    }
    let ghost c = views(lines@);
    match ctx {
        Some(m) => push_line(lines, prefixed("  --max-model-len ", u64_to_string(m).as_str())),
        None => {},
    }
    assert(views(lines@) =~= start + vllm_head(model_id@, parallelism, ctx));
}

fn push_vllm_options(lines: &mut Vec<String>, profile: &ArchitectureProfile, entry: Option<&EngineCompatEntry>, options: &LaunchOptions)
    ensures
        views(final(lines)@) == views(old(lines)@) + vllm_options(*profile, entry, *options),
{
    let ghost start = views(lines@);
    match options.max_concurrent_requests {
        Some(c) => if c > 0 && !entry_has_flag(entry, "--max-num-seqs") {
            push_line(lines, prefixed("  --max-num-seqs ", u64_to_string(c).as_str()));
        },
        None => {},
    }
    let ghost a = views(lines@);
    if needs_trust_remote_code(profile.model_type.as_str()) {
        push_line(lines, "  --trust-remote-code".to_string());
    }
    push_line(lines, "  --gpu-memory-utilization 0.9".to_string());
    let ghost b = views(lines@);
    if options.cpu_offload_bytes > 0 && !entry_has_flag(entry, "--cpu-offload-gb") {
        push_line(lines, prefixed("  --cpu-offload-gb ", format_gib(options.cpu_offload_bytes).as_str()));
    }
    let ghost c = views(lines@);
    match nonempty(options.speculative_draft_model_id) {
        Some(draft) => {
            if !entry_has_flag(entry, "--speculative-config") && !entry_has_flag(entry, "--speculative-model") {
                let config = speculative_config_exec(draft, options.speculative_num_draft_tokens);
                push_line(lines, prefixed("  --speculative-config ", shell_single_quote(config.as_str()).as_str()));
            }
        },
        None => {},
    }
    assert(views(lines@) =~= start + vllm_options(*profile, entry, *options));
}

fn vllm_command(
    model_id: &str,
    profile: &ArchitectureProfile,
    parallelism: Parallelism,
    entry: Option<&EngineCompatEntry>,
    max_model_len: Option<u64>,
    options: &LaunchOptions,
) -> (s: String)
    ensures
        s@ == joined(vllm_lines(model_id@, *profile, parallelism, entry, max_model_len, *options), " \\\n"@),
{
    let mut lines: Vec<String> = Vec::new();
    push_vllm_head(&mut lines, model_id, parallelism, launch_context_exec(profile, max_model_len));
    push_vllm_options(&mut lines, profile, entry, options);
    push_entry_flags(&mut lines, entry);
    assert(views(lines@) =~= vllm_lines(model_id@, *profile, parallelism, entry, max_model_len, *options));
    join(&lines, " \\\n")
}

/// A `vllm serve` command, one option per line joined with ` \` continuations:
/// the layout, the context length (the override, else the model's maximum
/// position), a concurrency cap, remote code for the families that need it,
/// the memory share, a CPU offload in GiB, a draft model for speculative
/// decoding, then the engine entry's flags. A generated option is left out
/// where the entry sets that flag itself.
pub fn generate_vllm_command_with_speculative_tokens(
    model_id: &str,
    profile: &ArchitectureProfile,
    parallelism: Parallelism,
    entry: Option<&EngineCompatEntry>,
    max_model_len: Option<u64>,
    max_concurrent_requests: Option<u64>,
    cpu_offload_bytes: Option<u64>,
    speculative_draft_model_id: Option<&str>,
    speculative_num_draft_tokens: Option<u64>,
) -> (s: String)
    ensures
        s@ == joined(vllm_lines(model_id@, *profile, parallelism, entry, max_model_len, launch_options(max_concurrent_requests, cpu_offload_bytes, speculative_draft_model_id,
            speculative_num_draft_tokens)), " \\\n"@),
{
    let o = LaunchOptions {
        max_concurrent_requests,
        cpu_offload_bytes: match cpu_offload_bytes {
            Some(b) => b,
            None => 0,
        },
        speculative_draft_model_id,
        speculative_num_draft_tokens,
    };
    vllm_command(model_id, profile, parallelism, entry, max_model_len, &o)
}

/// A `vllm serve` command for the layout and context length alone.
pub fn generate_vllm_command(
    model_id: &str,
    profile: &ArchitectureProfile,
    parallelism: Parallelism,
    entry: Option<&EngineCompatEntry>,
    max_model_len: Option<u64>,
) -> (s: String)
    ensures
        s@ == joined(vllm_lines(model_id@, *profile, parallelism, entry, max_model_len, launch_options(None, None, None, None)), " \\\n"@),
{
    let o = LaunchOptions::none();
    vllm_command(model_id, profile, parallelism, entry, max_model_len, &o)
}

pub open spec fn env_prefix(e: Option<&EngineCompatEntry>) -> Option<Seq<char>> {
    match e {
        Some(x) => if x.env@.len() > 0 {
            Some(joined(x.env@.map_values(|v: crate::engine_compat::EngineEnv| v.name@ + "="@ + v.value@), " "@))
        } else {
            None
        },
        None => None,
    }
}

pub open spec fn sglang_head(
    model_id: Seq<char>,
    par: Parallelism,
    e: Option<&EngineCompatEntry>,
    ctx: Option<u64>,
) -> Seq<Seq<char>> {
    let launch = match env_prefix(e) {
        Some(pre) => pre + " python -m sglang.launch_server"@,
        None => "python -m sglang.launch_server"@,
    };
    seq![launch, "  --model-path "@ + model_id, "  --tp "@ + dec(par.total_gpus as nat)]
        + (if node_count_of(par) > 1 {
            seq!["  --dist-init-addr ${NODE0_IP:-<node0-ip>}:20000"@, "  --nnodes "@ + dec(node_count_of(par) as nat),
                "  --node-rank ${NODE_RANK:-0}"@]
        } else {
            Seq::empty()
        })
        + line_if(ctx is Some, "  --context-length "@ + dec(ctx->0 as nat))
}

pub open spec fn sglang_options(p: ArchitectureProfile, e: Option<&EngineCompatEntry>, o: LaunchOptions) -> Seq<Seq<char>> {
    line_if(positive(o.max_concurrent_requests) && !has_flag(e, "--max-running-requests"@),
        "  --max-running-requests "@ + dec(o.max_concurrent_requests->0 as nat))
        + line_if(trusts_remote_code(p.model_type@), "  --trust-remote-code"@)
        + line_if(!has_flag(e, "--mem-fraction-static"@), "  --mem-fraction-static 0.9"@)
        + line_if(o.cpu_offload_bytes > 0 && !has_flag(e, "--cpu-offload-gb"@),
            "  --cpu-offload-gb "@ + gib_text(o.cpu_offload_bytes))
}

pub open spec fn sglang_speculative(e: Option<&EngineCompatEntry>, draft: Option<Seq<char>>) -> Seq<Seq<char>> {
    line_if(draft is Some && !has_flag(e, "--speculative-algorithm"@), "  --speculative-algorithm STANDALONE"@)
        + line_if(draft is Some && !has_flag(e, "--speculative-draft-model-path"@),
            "  --speculative-draft-model-path "@ + draft->0)
        + line_if(draft is Some && !has_flag(e, "--speculative-num-steps"@), "  --speculative-num-steps 4"@)
        + line_if(draft is Some && !has_flag(e, "--speculative-eagle-topk"@), "  --speculative-eagle-topk 2"@)
        + line_if(draft is Some && !has_flag(e, "--speculative-num-draft-tokens"@), "  --speculative-num-draft-tokens 7"@)
}

/// The lines of an SGLang launch: environment and layout, context length,
/// options, speculative decoding, then the engine entry's flags.
pub open spec fn sglang_lines(
    model_id: Seq<char>,
    p: ArchitectureProfile,
    par: Parallelism,
    e: Option<&EngineCompatEntry>,
    max_model_len: Option<u64>,
    o: LaunchOptions,
) -> Seq<Seq<char>> {
    sglang_head(model_id, par, e, launch_context(p, max_model_len)) + sglang_options(p, e, o)
        + sglang_speculative(e, nonempty_text(o.speculative_draft_model_id)) + entry_lines(e)
}

fn env_prefix_exec(entry: Option<&EngineCompatEntry>) -> (r: Option<String>)
    ensures
        match r {
            Some(s) => env_prefix(entry) == Some(s@),
            None => env_prefix(entry) is None,
        },
{
    match entry {
        Some(e) => {
            if e.env.len() == 0 {
                return None;
            }
            let mut parts: Vec<String> = Vec::new();
            let mut i: usize = 0;
            while i < e.env.len()
                invariant
                    i <= e.env@.len(),
                    views(parts@) == e.env@.subrange(0, i as int).map_values(|v: crate::engine_compat::EngineEnv| v.name@ + "="@ + v.value@),
                decreases e.env.len() - i,
            {
                let mut s = e.env[i].name.clone();
                s.append("=");
                s.append(e.env[i].value.as_str());
                push_line(&mut parts, s);
                assert(e.env@.subrange(0, i + 1).map_values(|v: crate::engine_compat::EngineEnv| v.name@ + "="@ + v.value@)
                    =~= e.env@.subrange(0, i as int).map_values(|v: crate::engine_compat::EngineEnv| v.name@ + "="@ + v.value@).push(
                    e.env@[i as int].name@ + "="@ + e.env@[i as int].value@));
                i = i + 1;
            }
            assert(e.env@.subrange(0, e.env@.len() as int) =~= e.env@);
            Some(join(&parts, " "))
        },
        None => None,
    }
}

fn push_sglang_head(
    lines: &mut Vec<String>,
    model_id: &str,
    parallelism: Parallelism,
    entry: Option<&EngineCompatEntry>,
    ctx: Option<u64>,
)
    ensures
        views(final(lines)@) == views(old(lines)@) + sglang_head(model_id@, parallelism, entry, ctx),
{
    let ghost start = views(lines@);
    let launch = match env_prefix_exec(entry) {
        Some(pre) => prefixed(pre.as_str(), " python -m sglang.launch_server"),
        None => "python -m sglang.launch_server".to_string(),
    };
    push_line(lines, launch);
    push_line(lines, prefixed("  --model-path ", model_id));
    push_line(lines, prefixed("  --tp ", u64_to_string(parallelism.total_gpus).as_str()));
    let ghost a = views(lines@);
    let nodes = parallelism.node_count();
    if nodes > 1 {
        push_line(lines, "  --dist-init-addr ${NODE0_IP:-<node0-ip>}:20000".to_string());
        push_line(lines, prefixed("  --nnodes ", u64_to_string(nodes).as_str()));
        push_line(lines, "  --node-rank ${NODE_RANK:-0}".to_string());
    }
    let ghost b = views(lines@);
    match ctx {
        Some(m) => push_line(lines, prefixed("  --context-length ", u64_to_string(m).as_str())),
        None => {},
    }
    assert(views(lines@) =~= start + sglang_head(model_id@, parallelism, entry, ctx));
}

fn push_sglang_options(lines: &mut Vec<String>, profile: &ArchitectureProfile, entry: Option<&EngineCompatEntry>, options: &LaunchOptions)
    ensures
        views(final(lines)@) == views(old(lines)@) + sglang_options(*profile, entry, *options),
{
    let ghost start = views(lines@);
    match options.max_concurrent_requests {
        Some(c) => if c > 0 && !entry_has_flag(entry, "--max-running-requests") {
            push_line(lines, prefixed("  --max-running-requests ", u64_to_string(c).as_str()));
        },
        None => {},
    }
    let ghost a = views(lines@);
    if needs_trust_remote_code(profile.model_type.as_str()) {
        push_line(lines, "  --trust-remote-code".to_string());
    }
    let ghost b = views(lines@);
    if !entry_has_flag(entry, "--mem-fraction-static") {
        push_line(lines, "  --mem-fraction-static 0.9".to_string());
    }
    let ghost c = views(lines@);
    if options.cpu_offload_bytes > 0 && !entry_has_flag(entry, "--cpu-offload-gb") {
        push_line(lines, prefixed("  --cpu-offload-gb ", format_gib(options.cpu_offload_bytes).as_str()));
    }
    assert(views(lines@) =~= start + sglang_options(*profile, entry, *options));
}

fn push_sglang_speculative(lines: &mut Vec<String>, entry: Option<&EngineCompatEntry>, draft: Option<&str>)
    ensures
        views(final(lines)@) == views(old(lines)@) + sglang_speculative(entry, nonempty_text(draft)),
{
    let ghost start = views(lines@);
    match nonempty(draft) {
        Some(d) => {
            if !entry_has_flag(entry, "--speculative-algorithm") {
                push_line(lines, "  --speculative-algorithm STANDALONE".to_string());
            }
            let ghost a = views(lines@);
            if !entry_has_flag(entry, "--speculative-draft-model-path") {
                push_line(lines, prefixed("  --speculative-draft-model-path ", d));
            }
            let ghost b = views(lines@);
            if !entry_has_flag(entry, "--speculative-num-steps") {
                push_line(lines, "  --speculative-num-steps 4".to_string());
            }
            let ghost c = views(lines@);
            if !entry_has_flag(entry, "--speculative-eagle-topk") {
                push_line(lines, "  --speculative-eagle-topk 2".to_string());
            }
            let ghost f = views(lines@);
            if !entry_has_flag(entry, "--speculative-num-draft-tokens") {
                push_line(lines, "  --speculative-num-draft-tokens 7".to_string());
            }
        },
        None => {},
    }
    assert(views(lines@) =~= start + sglang_speculative(entry, nonempty_text(draft)));
}

fn sglang_command(
    model_id: &str,
    profile: &ArchitectureProfile,
    parallelism: Parallelism,
    entry: Option<&EngineCompatEntry>,
    max_model_len: Option<u64>,
    options: &LaunchOptions,
) -> (s: String)
    ensures
        s@ == joined(sglang_lines(model_id@, *profile, parallelism, entry, max_model_len, *options), " \\\n"@),
{
    let mut lines: Vec<String> = Vec::new();
    push_sglang_head(&mut lines, model_id, parallelism, entry, launch_context_exec(profile, max_model_len));
    push_sglang_options(&mut lines, profile, entry, options);
    push_sglang_speculative(&mut lines, entry, options.speculative_draft_model_id);
    push_entry_flags(&mut lines, entry);
    assert(views(lines@) =~= sglang_lines(model_id@, *profile, parallelism, entry, max_model_len, *options));
    join(&lines, " \\\n")
}

/// An SGLang `launch_server` command, one option per line: the entry's
/// environment, the model and total tensor parallelism, multi-node bootstrap
/// flags, the context length, a concurrency cap, remote code, the memory
/// share, a CPU offload in GiB, standalone speculative decoding with a draft
/// model, then the engine entry's flags. A generated option is left out where
/// the entry sets that flag itself.
pub fn generate_sglang_command_with_options(
    model_id: &str,
    profile: &ArchitectureProfile,
    parallelism: Parallelism,
    entry: Option<&EngineCompatEntry>,
    max_model_len: Option<u64>,
    max_concurrent_requests: Option<u64>,
    cpu_offload_bytes: Option<u64>,
    speculative_draft_model_id: Option<&str>,
) -> (s: String)
    ensures
        s@ == joined(sglang_lines(model_id@, *profile, parallelism, entry, max_model_len, launch_options(max_concurrent_requests, cpu_offload_bytes, speculative_draft_model_id, None)),
            " \\\n"@),
{
    let o = LaunchOptions {
        max_concurrent_requests,
        cpu_offload_bytes: match cpu_offload_bytes {
            Some(b) => b,
            None => 0,
        },
        speculative_draft_model_id,
        speculative_num_draft_tokens: None,
    };
    sglang_command(model_id, profile, parallelism, entry, max_model_len, &o)
}

/// An SGLang command for the layout and context length alone.
pub fn generate_sglang_command(
    model_id: &str,
    profile: &ArchitectureProfile,
    parallelism: Parallelism,
    entry: Option<&EngineCompatEntry>,
    max_model_len: Option<u64>,
) -> (s: String)
    ensures
        s@ == joined(sglang_lines(model_id@, *profile, parallelism, entry, max_model_len, launch_options(None, None, None, None)), " \\\n"@),
{
    let o = LaunchOptions::none();
    sglang_command(model_id, profile, parallelism, entry, max_model_len, &o)
}

} // verus!
