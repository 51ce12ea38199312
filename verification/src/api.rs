//! The web API's own decisions: which GPUs a request compares, how a
//! request's second-opinion LLM settings combine with the environment's, which
//! vendor makes a GPU, and which status an error is answered with.
use vstd::prelude::*;
use crate::reviewer::EnvConfig;
use crate::sources::ModelSourceError;
use crate::text::{chars_of, seq_starts_with, starts_with, str_eq, string_of, trim, trimmed};

verus! {

/// ASCII upper case of one character.
pub open spec fn ascii_upper(c: char) -> char {
    if 'a' <= c <= 'z' {
        ((c as u32) - 32) as char
    } else {
        c
    }
}

pub open spec fn ascii_upper_str(s: Seq<char>) -> Seq<char> {
    s.map_values(|c: char| ascii_upper(c))
}

pub fn to_ascii_upper(s: &str) -> (r: String)
    ensures
        r@ == ascii_upper_str(s@),
{
    let v = chars_of(s);
    let mut out: Vec<char> = Vec::new();
    let mut i: usize = 0;
    while i < v.len()
        invariant
            i <= v@.len(),
            v@ == s@,
            out@ == v@.subrange(0, i as int).map_values(|c: char| ascii_upper(c)),
        decreases v.len() - i,
    {
        let c = v[i];
        let u = if 'a' <= c && c <= 'z' {
            ((c as u32) - 32) as u8 as char
        } else {
            c
        };
        assert(u == ascii_upper(c)) by {
            if 'a' <= c && c <= 'z' {
                assert((c as u32) - 32 < 256);
            }
        }
        out.push(u);
        assert(v@.subrange(0, i + 1).map_values(|c: char| ascii_upper(c)) =~= v@.subrange(0, i as int).map_values(
            |c: char| ascii_upper(c),
        ).push(ascii_upper(c)));
        i = i + 1;
    }
    assert(v@.subrange(0, v@.len() as int) =~= v@);
    string_of(&out)
}

/// The vendor of a GPU, in English and in Chinese, from its id read in
/// ASCII upper case: NVIDIA for a listed set of ids and families, then
/// vendors by prefix, else other.
pub open spec fn vendor_of(gpu_id: Seq<char>) -> (Seq<char>, Seq<char>) {
    let id = ascii_upper_str(gpu_id);
    if id == "B200"@ || id == "GB200"@ || id == "H100"@ || id == "H800"@ || id == "H200"@ || id == "H20"@ || id
        == "GH200"@ || seq_starts_with(id, "L4"@) || seq_starts_with(id, "RTX"@) || seq_starts_with(id, "A10"@)
        || seq_starts_with(id, "A100"@) || seq_starts_with(id, "A40"@) || seq_starts_with(id, "V100"@)
        || seq_starts_with(id, "T4"@) {
        ("NVIDIA"@, "NVIDIA"@)
    } else if seq_starts_with(id, "MI"@) {
        ("AMD"@, "AMD"@)
    } else if seq_starts_with(id, "GAUDI"@) {
        ("Intel Habana"@, "英特尔 Habana"@)
    } else if seq_starts_with(id, "910"@) || seq_starts_with(id, "ATLAS"@) {
        ("Huawei Ascend"@, "华为昇腾"@)
    } else if seq_starts_with(id, "MXC"@) {
        ("MetaX 沐曦"@, "沐曦 MetaX"@)
    } else if seq_starts_with(id, "KUNLUN"@) {
        ("Kunlunxin 昆仑芯"@, "昆仑芯 Kunlunxin"@)
    } else if seq_starts_with(id, "BR"@) {
        ("Biren 壁仞"@, "壁仞 Biren"@)
    } else if seq_starts_with(id, "BI-"@) {
        ("Iluvatar 天数智芯"@, "天数智芯 Iluvatar"@)
    } else if seq_starts_with(id, "MR-"@) || seq_starts_with(id, "MTT"@) {
        ("Moore Threads 摩尔线程"@, "摩尔线程 Moore Threads"@)
    } else if seq_starts_with(id, "MLU"@) {
        ("Cambricon 寒武纪"@, "寒武纪 Cambricon"@)
    } else if seq_starts_with(id, "HYGON"@) {
        ("Hygon 海光"@, "海光 Hygon"@)
    } else {
        ("Other"@, "其他"@)
    }
}

fn is_nvidia(id: &str) -> (b: bool)
    ensures
        b == (id@ == "B200"@ || id@ == "GB200"@ || id@ == "H100"@ || id@ == "H800"@ || id@ == "H200"@ || id@
            == "H20"@ || id@ == "GH200"@ || seq_starts_with(id@, "L4"@) || seq_starts_with(id@, "RTX"@)
            || seq_starts_with(id@, "A10"@) || seq_starts_with(id@, "A100"@) || seq_starts_with(id@, "A40"@)
            || seq_starts_with(id@, "V100"@) || seq_starts_with(id@, "T4"@)),
{
    str_eq(id, "B200") || str_eq(id, "GB200") || str_eq(id, "H100") || str_eq(id, "H800") || str_eq(id, "H200")
        || str_eq(id, "H20") || str_eq(id, "GH200") || starts_with(id, "L4") || starts_with(id, "RTX")
        || starts_with(id, "A10") || starts_with(id, "A100") || starts_with(id, "A40") || starts_with(id, "V100")
        || starts_with(id, "T4")
}

pub fn gpu_vendor(gpu_id: &str) -> (r: (&'static str, &'static str))
    ensures
        (r.0@, r.1@) == vendor_of(gpu_id@),
{
    let upper = to_ascii_upper(gpu_id);
    let id = upper.as_str();
    if is_nvidia(id) {
        ("NVIDIA", "NVIDIA")
    } else if starts_with(id, "MI") {
        ("AMD", "AMD")
    } else if starts_with(id, "GAUDI") {
        ("Intel Habana", "英特尔 Habana")
    } else if starts_with(id, "910") || starts_with(id, "ATLAS") {
        ("Huawei Ascend", "华为昇腾")
    } else if starts_with(id, "MXC") {
        ("MetaX 沐曦", "沐曦 MetaX")
    } else if starts_with(id, "KUNLUN") {
        ("Kunlunxin 昆仑芯", "昆仑芯 Kunlunxin")
    } else if starts_with(id, "BR") {
        ("Biren 壁仞", "壁仞 Biren")
    } else if starts_with(id, "BI-") {
        ("Iluvatar 天数智芯", "天数智芯 Iluvatar")
    } else if starts_with(id, "MR-") || starts_with(id, "MTT") {
        ("Moore Threads 摩尔线程", "摩尔线程 Moore Threads")
    } else if starts_with(id, "MLU") {
        ("Cambricon 寒武纪", "寒武纪 Cambricon")
    } else if starts_with(id, "HYGON") {
        ("Hygon 海光", "海光 Hygon")
    } else {
        ("Other", "其他")
    }
}

/// The GPUs a request names (its list, else its single GPU), trimmed, with
/// blanks and repeats dropped, in order.
pub open spec fn distinct_trimmed(raw: Seq<Seq<char>>) -> Seq<Seq<char>>
    decreases raw.len(),
{
    if raw.len() == 0 {
        Seq::empty()
    } else {
        let before = distinct_trimmed(raw.drop_last());
        let t = trimmed(raw.last());
        if t.len() == 0 || before.contains(t) {
            before
        } else {
            before.push(t)
        }
    }
}

pub open spec fn gpu_list(gpu: Seq<char>, gpus: Option<Seq<Seq<char>>>) -> Seq<Seq<char>> {
    distinct_trimmed(
        match gpus {
            Some(g) => g,
            None => seq![gpu],
        },
    )
}

/// The GPUs to evaluate: an error when none remains or more than 64 do.
pub open spec fn requested_gpus_outcome(gpu: Seq<char>, gpus: Option<Seq<Seq<char>>>) -> Result<
    Seq<Seq<char>>,
    Seq<char>,
> {
    let l = gpu_list(gpu, gpus);
    if l.len() == 0 {
        Err("gpu is required"@)
    } else if l.len() > 64 {
        Err("gpus accepts at most 64 items for comparison"@)
    } else {
        Ok(l)
    }
}

pub open spec fn views_of(v: Seq<String>) -> Seq<Seq<char>> {
    v.map_values(|s: String| s@)
}

pub open spec fn opt_views(o: Option<Vec<String>>) -> Option<Seq<Seq<char>>> {
    match o {
        Some(v) => Some(views_of(v@)),
        None => None,
    }
}

pub open spec fn list_result(r: Result<Vec<String>, String>) -> Result<Seq<Seq<char>>, Seq<char>> {
    match r {
        Ok(v) => Ok(views_of(v@)),
        Err(e) => Err(e@),
    }
}

fn contains_text(v: &Vec<String>, s: &str) -> (b: bool)
    ensures
        b == views_of(v@).contains(s@),
{
    let mut i: usize = 0;
    while i < v.len()
        invariant
            i <= v@.len(),
            forall|j: int| 0 <= j < i ==> v@[j]@ != s@,
        decreases v.len() - i,
    {
        if str_eq(v[i].as_str(), s) {
            assert(views_of(v@)[i as int] == s@);
            return true;
        }
        i = i + 1;
    }
    assert forall|j: int| 0 <= j < views_of(v@).len() implies views_of(v@)[j] != s@ by {
        assert(views_of(v@)[j] == v@[j]@);
    }
    false
}

pub fn requested_gpus(gpu: &str, gpus: &Option<Vec<String>>) -> (r: Result<Vec<String>, String>)
    ensures
        list_result(r) == requested_gpus_outcome(gpu@, opt_views(*gpus)),
{
    let single: Vec<String> = vec![gpu.to_string()];
    let raw = match gpus {
        Some(g) => g,
        None => &single,
    };
    let ghost raw_v = views_of(raw@);
    assert(raw_v == match opt_views(*gpus) {
        Some(g) => g,
        None => seq![gpu@],
    }) by {
        if gpus.is_none() {
            assert(views_of(single@) =~= seq![gpu@]);
        }
    }
    let mut out: Vec<String> = Vec::new();
    let mut i: usize = 0;
    while i < raw.len()
        invariant
            i <= raw@.len(),
            raw_v == views_of(raw@),
            views_of(out@) == distinct_trimmed(raw_v.subrange(0, i as int)),
        decreases raw.len() - i,
    {
        let t = trim(raw[i].as_str());
        assert(raw_v.subrange(0, i + 1).drop_last() =~= raw_v.subrange(0, i as int));
        assert(raw_v.subrange(0, i + 1).last() == raw@[i as int]@);
        if t.unicode_len() > 0 && !contains_text(&out, t) {
            out.push(t.to_string());
            assert(views_of(out@) =~= views_of(out@.drop_last()).push(t@));
        }
        i = i + 1;
    }
    assert(raw_v.subrange(0, raw_v.len() as int) =~= raw_v);
    if out.len() == 0 {
        return Err("gpu is required".to_string());
    }
    if out.len() > 64 {
        return Err("gpus accepts at most 64 items for comparison".to_string());
    }
    Ok(out)
}

/// A request's value, trimmed, when not blank.
pub open spec fn nonempty_of(v: Option<String>) -> Option<Seq<char>> {
    match v {
        Some(s) => if trimmed(s@).len() > 0 {
            Some(trimmed(s@))
        } else {
            None
        },
        None => None,
    }
}

pub open spec fn str_opt(v: Option<String>) -> Option<Seq<char>> {
    match v {
        Some(s) => Some(s@),
        None => None,
    }
}

pub fn request_nonempty(value: &Option<String>) -> (r: Option<String>)
    ensures
        str_opt(r) == nonempty_of(*value),
{
    match value {
        Some(s) => {
            let t = trim(s.as_str());
            if t.unicode_len() > 0 {
                Some(t.to_string())
            } else {
                None
            }
        },
        None => None,
    }
}

/// The second-opinion LLM settings a request gives, each left blank to use
/// the environment's.
pub struct ReviewOverrides {
    pub llm_review_api_key: Option<String>,
    pub llm_review_base_url: Option<String>,
    pub llm_review_model: Option<String>,
}

pub open spec fn or_base(req: Option<Seq<char>>, base: Option<String>) -> Option<Seq<char>> {
    match req {
        Some(s) => Some(s),
        None => str_opt(base),
    }
}

/// Each setting from the request when given (trimmed), else from `base`.
pub fn reviewer_env_from_request_with_base(req: &ReviewOverrides, base: EnvConfig) -> (env: EnvConfig)
    ensures
        str_opt(env.api_key) == or_base(nonempty_of(req.llm_review_api_key), base.api_key),
        str_opt(env.base_url) == or_base(nonempty_of(req.llm_review_base_url), base.base_url),
        str_opt(env.model) == or_base(nonempty_of(req.llm_review_model), base.model),
{
    let api_key = match request_nonempty(&req.llm_review_api_key) {
        Some(v) => Some(v),
        None => base.api_key,
    };
    let base_url = match request_nonempty(&req.llm_review_base_url) {
        Some(v) => Some(v),
        None => base.base_url,
    };
    let model = match request_nonempty(&req.llm_review_model) {
        Some(v) => Some(v),
        None => base.model,
    };
    EnvConfig { api_key, base_url, model }
}

/// The HTTP status a failed fetch is answered with: 401, 404 or 502.
pub open spec fn error_status(e: ModelSourceError) -> u16 {
    match e {
        ModelSourceError::AuthRequired(_) => 401,
        ModelSourceError::NotFound(_) => 404,
        ModelSourceError::SourceUnavailable(_) => 502,
    }
}

pub fn status_for_source_error(e: &ModelSourceError) -> (s: u16)
    ensures
        s == error_status(*e),
{
    match e {
        ModelSourceError::AuthRequired(_) => 401,
        ModelSourceError::NotFound(_) => 404,
        ModelSourceError::SourceUnavailable(_) => 502,
    }
}

/// What is wrong with a request's whole-number settings and language, if
/// anything: a blank model, an unknown language, a zero cache width or a
/// zero target concurrency (checked in that order).
pub open spec fn request_error(
    model_id: Seq<char>,
    lang: Seq<char>,
    kv_cache_bits: Option<u64>,
    target_concurrent_requests: Option<u64>,
) -> Option<Seq<char>> {
    if trimmed(model_id).len() == 0 {
        Some("model_id is required"@)
    } else if lang != "en"@ && lang != "zh"@ {
        Some("lang must be en or zh"@)
    } else if kv_cache_bits == Some(0u64) {
        Some("kv_cache_bits must be greater than 0"@)
    } else if target_concurrent_requests == Some(0u64) {
        Some("target_concurrent_requests must be greater than 0"@)
    } else {
        None
    }
}

pub fn check_request(
    model_id: &str,
    lang: &str,
    kv_cache_bits: Option<u64>,
    target_concurrent_requests: Option<u64>,
) -> (r: Option<String>)
    ensures
        match r {
            Some(m) => request_error(model_id@, lang@, kv_cache_bits, target_concurrent_requests) == Some(m@),
            None => request_error(model_id@, lang@, kv_cache_bits, target_concurrent_requests) is None,
        },
{
    if trim(model_id).unicode_len() == 0 {
        Some("model_id is required".to_string())
    } else if !str_eq(lang, "en") && !str_eq(lang, "zh") {
        Some("lang must be en or zh".to_string())
    } else if kv_cache_bits == Some(0u64) {
        Some("kv_cache_bits must be greater than 0".to_string())
    } else if target_concurrent_requests == Some(0u64) {
        Some("target_concurrent_requests must be greater than 0".to_string())
    } else {
        None
    }
}

} // verus!
