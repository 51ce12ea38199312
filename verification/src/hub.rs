//! Fetching a model from a hub, as steps between requests: what to ask
//! for, and what each reply means. Sending the requests and parsing the
//! replies' JSON is left to the caller.
use vstd::prelude::*;
use crate::auth::{hf_auth_error_message, hf_auth_message, modelscope_auth_error_message, modelscope_auth_message};
use crate::json::{as_str, get, spec_as_str, spec_get, spec_parse_u64, parse_u64, JsonNumber, JsonValue};
use crate::sources::{
    AuthRequiredError, ModelArtifact, ModelNotFoundError, ModelSourceError, SiblingFile, SourceUnavailableError,
};
use crate::text::{dec, str_eq, trim_end_char, trim_end_matches_char, u64_to_string};

verus! {

/// A GET request: the URL, the headers and the query parameters.
pub struct HttpRequest {
    pub url: String,
    pub headers: Vec<(String, String)>,
    pub params: Vec<(String, String)>,
}

/// A reply: its status, its headers, and its body read as JSON (or why it
/// could not be).
pub struct HttpReply {
    pub status: u16,
    pub headers: Vec<(String, String)>,
    pub body: Result<JsonValue, String>,
}

/// A request that got no reply.
pub struct HttpError(pub String);

/// A request as sent: (url, headers, query parameters).
pub type RequestView = (Seq<char>, Seq<(Seq<char>, Seq<char>)>, Seq<(Seq<char>, Seq<char>)>);

/// The transport that sends GET requests to a hub.
pub trait HttpClient {
    /// Every request sent so far, with its timeout and what came back.
    ///
    /// The contract of `get` below holds only for a client that records its
    /// requests by overriding this. A client that keeps the default records
    /// none, so its `get` cannot meet that contract; nothing checks a client
    /// written outside verified code, and what the library states about the
    /// requests it sends holds only for recording clients.
    closed spec fn calls(&self) -> Seq<(RequestView, u64, Result<HttpReply, HttpError>)> {
        Seq::empty()
    }

    /// Sends one GET request.
    fn get(
        &mut self,
        url: &str,
        headers: &Vec<(String, String)>,
        params: &Vec<(String, String)>,
        timeout_ms: u64,
    ) -> (r: Result<HttpReply, HttpError>)
        ensures
            final(self).calls() == old(self).calls().push(((url@, pairs_view(headers@), pairs_view(params@)), timeout_ms, r)),
    ;
}

pub open spec fn pairs_view(v: Seq<(String, String)>) -> Seq<(Seq<char>, Seq<char>)> {
    v.map_values(|p: (String, String)| (p.0@, p.1@))
}

/// `Authorization: Bearer <token>` when a non-empty token is given.
pub open spec fn auth_headers_of(token: Option<&str>) -> Seq<(Seq<char>, Seq<char>)> {
    match token {
        Some(t) => if t@.len() > 0 {
            seq![("Authorization"@, "Bearer "@ + t@)]
        } else {
            Seq::empty()
        },
        None => Seq::empty(),
    }
}

pub fn auth_headers(token: Option<&str>) -> (h: Vec<(String, String)>)
    ensures
        pairs_view(h@) == auth_headers_of(token),
{
    let mut h: Vec<(String, String)> = Vec::new();
    match token {
        Some(t) => if t.unicode_len() > 0 {
            let mut v = "Bearer ".to_string();
            v.append(t);
            h.push(("Authorization".to_string(), v));
        },
        None => {},
    }
    assert(pairs_view(h@) =~= auth_headers_of(token));
    h
}

/// The first header with exactly this name.
pub open spec fn header_get(headers: Seq<(String, String)>, name: Seq<char>) -> Option<Seq<char>>
    decreases headers.len(),
{
    if headers.len() == 0 {
        None
    } else if headers[0].0@ == name {
        Some(headers[0].1@)
    } else {
        header_get(headers.drop_first(), name)
    }
}

fn find_header<'a>(headers: &'a Vec<(String, String)>, name: &str) -> (r: Option<&'a str>)
    ensures
        match r {
            Some(v) => header_get(headers@, name@) == Some(v@),
            None => header_get(headers@, name@) is None,
        },
{
    let mut i: usize = 0;
    assert(headers@.subrange(0, headers@.len() as int) =~= headers@);
    while i < headers.len()
        invariant
            i <= headers@.len(),
            header_get(headers@, name@) == header_get(headers@.subrange(i as int, headers@.len() as int), name@),
        decreases headers.len() - i,
    {
        assert(headers@.subrange(i as int, headers@.len() as int).drop_first() =~= headers@.subrange(
            i + 1,
            headers@.len() as int,
        ));
        if str_eq(headers[i].0.as_str(), name) {
            return Some(headers[i].1.as_str());
        }
        i = i + 1;
    }
    None
}

/// The `Retry-After` header (in either spelling), `unknown` without one.
pub open spec fn retry_after(headers: Seq<(String, String)>) -> Seq<char> {
    match header_get(headers, "Retry-After"@) {
        Some(v) => v,
        None => match header_get(headers, "retry-after"@) {
            Some(v) => v,
            None => "unknown"@,
        },
    }
}

fn retry_after_text(headers: &Vec<(String, String)>) -> (s: String)
    ensures
        s@ == retry_after(headers@),
{
    match find_header(headers, "Retry-After") {
        Some(v) => v.to_string(),
        None => match find_header(headers, "retry-after") {
            Some(v) => v.to_string(),
            None => "unknown".to_string(),
        },
    }
}

/// Milliseconds as seconds the way a float prints: no fraction when whole,
/// else the fraction without trailing zeros.
pub open spec fn seconds_text(ms: u64) -> Seq<char> {
    let whole = dec((ms / 1000) as nat);
    let f = ms % 1000;
    if f == 0 {
        whole
    } else if f % 100 == 0 {
        whole + "."@ + dec((f / 100) as nat)
    } else if f % 10 == 0 {
        whole + "."@ + (if f < 100 { "0"@ } else { Seq::empty() }) + dec((f / 10) as nat)
    } else {
        whole + "."@ + (if f < 10 {
            "00"@
        } else if f < 100 {
            "0"@
        } else {
            Seq::empty()
        }) + dec(f as nat)
    }
}

fn seconds(ms: u64) -> (s: String)
    ensures
        s@ == seconds_text(ms),
{
    let mut s = u64_to_string(ms / 1000);
    let f = ms % 1000;
    if f == 0 {
        return s;
    }
    s.append(".");
    if f % 100 == 0 {
        s.append(u64_to_string(f / 100).as_str());
    } else if f % 10 == 0 {
        if f < 100 {
            s.append("0");
        }
        s.append(u64_to_string(f / 10).as_str());
    } else {
        if f < 10 {
            s.append("00");
        } else if f < 100 {
            s.append("0");
        }
        s.append(u64_to_string(f).as_str());
    }
    proof {
        reveal_strlit("");
    }
    s
}

/// A size as the hubs report it: an unsigned integer, or a decimal string.
pub open spec fn size_of(v: JsonValue) -> Option<u64> {
    match v {
        JsonValue::Number(JsonNumber::Unsigned(n)) => Some(n),
        JsonValue::Text(s) => spec_parse_u64(s@),
        _ => None,
    }
}

fn read_size(v: Option<&JsonValue>) -> (r: Option<u64>)
    ensures
        r == match v {
            Some(x) => size_of(*x),
            None => None,
        },
{
    match v {
        Some(JsonValue::Number(JsonNumber::Unsigned(n))) => Some(*n),
        Some(JsonValue::Text(s)) => parse_u64(s.as_str()),
        _ => None,
    }
}

pub open spec fn is_object(v: JsonValue) -> bool {
    v is Object
}

/// An error's kind (0 not found, 1 authentication, 2 unavailable) and
/// message.
pub open spec fn error_view(e: ModelSourceError) -> (int, Seq<char>) {
    match e {
        ModelSourceError::NotFound(x) => (0, x.0@),
        ModelSourceError::AuthRequired(x) => (1, x.0@),
        ModelSourceError::SourceUnavailable(x) => (2, x.0@),
    }
}

fn not_found(msg: String) -> (e: ModelSourceError)
    ensures
        error_view(e) == (0int, msg@),
{
    ModelSourceError::NotFound(ModelNotFoundError(msg))
}

fn auth_required(msg: String) -> (e: ModelSourceError)
    ensures
        error_view(e) == (1int, msg@),
{
    ModelSourceError::AuthRequired(AuthRequiredError(msg))
}

fn source_unavailable(msg: String) -> (e: ModelSourceError)
    ensures
        error_view(e) == (2int, msg@),
{
    ModelSourceError::SourceUnavailable(SourceUnavailableError(msg))
}

fn message(prefix: &str, detail: &str) -> (s: String)
    ensures
        s@ == prefix@ + detail@,
{
    let mut s = prefix.to_string();
    s.append(detail);
    s
}

/// The config as read from a reply that was accepted: JSON, and an object.
pub open spec fn config_outcome(body: Result<JsonValue, String>) -> Result<JsonValue, (int, Seq<char>)> {
    match body {
        Err(m) => Err((2, "config.json is not valid JSON: "@ + m@)),
        Ok(v) => if v is Object {
            Ok(v)
        } else {
            Err((2, "config.json did not parse to a JSON object."@))
        },
    }
}

pub open spec fn outcome_view(r: Result<JsonValue, ModelSourceError>) -> Result<JsonValue, (int, Seq<char>)> {
    match r {
        Ok(v) => Ok(v),
        Err(e) => Err(error_view(e)),
    }
}

fn config_from_body(body: Result<JsonValue, String>) -> (r: Result<JsonValue, ModelSourceError>)
    ensures
        outcome_view(r) == config_outcome(body),
{
    match body {
        Err(m) => Err(source_unavailable(message("config.json is not valid JSON: ", m.as_str()))),
        Ok(v) => match v {
            JsonValue::Object(_) => Ok(v),
            _ => Err(source_unavailable("config.json did not parse to a JSON object.".to_string())),
        },
    }
}

/// A file as (name, size).
pub open spec fn files_view(v: Seq<SiblingFile>) -> Seq<(Seq<char>, Option<u64>)> {
    v.map_values(|f: SiblingFile| (f.filename@, f.size))
}

/// A file of the model-info listing: an object named by `rfilename` (or,
/// without that key, `filename`), with its size when it has one.
pub open spec fn info_file(item: JsonValue) -> Option<(Seq<char>, Option<u64>)> {
    if item is Object {
        let name = match spec_get(item, "rfilename"@) {
            Some(v) => spec_as_str(v),
            None => match spec_get(item, "filename"@) {
                Some(v) => spec_as_str(v),
                None => None,
            },
        };
        match name {
            Some(n) => Some(
                (
                    n,
                    match spec_get(item, "size"@) {
                        Some(v) => size_of(v),
                        None => None,
                    },
                ),
            ),
            None => None,
        }
    } else {
        None
    }
}

/// The files that `read` accepts, in order.
pub open spec fn kept_files(items: Seq<JsonValue>, read: spec_fn(JsonValue) -> Option<(Seq<char>, Option<u64>)>) -> Seq<
    (Seq<char>, Option<u64>),
>
    decreases items.len(),
{
    if items.len() == 0 {
        Seq::empty()
    } else {
        kept_files(items.drop_last(), read) + match read(items.last()) {
            Some(f) => seq![f],
            None => Seq::empty(),
        }
    }
}

/// The files of a model-info reply: its `siblings` array, read item by item.
pub open spec fn info_files(info: JsonValue) -> Seq<(Seq<char>, Option<u64>)> {
    match spec_get(info, "siblings"@) {
        Some(JsonValue::Array(a)) => kept_files(a@, |i: JsonValue| info_file(i)),
        _ => Seq::empty(),
    }
}

/// The commit a model-info reply pins: its `sha`, when a non-empty string.
pub open spec fn info_sha(info: JsonValue) -> Option<Seq<char>> {
    match spec_get(info, "sha"@) {
        Some(v) => match spec_as_str(v) {
            Some(s) => if s.len() > 0 {
                Some(s)
            } else {
                None
            },
            None => None,
        },
        None => None,
    }
}

pub open spec fn opt_str_view(o: Option<String>) -> Option<Seq<char>> {
    match o {
        Some(s) => Some(s@),
        None => None,
    }
}

pub fn info_commit_sha(info: &JsonValue) -> (r: Option<String>)
    ensures
        opt_str_view(r) == info_sha(*info),
{
    match get(info, "sha") {
        Some(v) => match as_str(v) {
            Some(s) => if s.unicode_len() > 0 {
                Some(s.to_string())
            } else {
                None
            },
            None => None,
        },
        None => None,
    }
}

fn read_info_file(item: &JsonValue) -> (r: Option<SiblingFile>)
    ensures
        match r {
            Some(f) => info_file(*item) == Some((f.filename@, f.size)),
            None => info_file(*item) is None,
        },
{
    match item {
        JsonValue::Object(_) => {
            let name = match get(item, "rfilename") {
                Some(v) => as_str(v),
                None => match get(item, "filename") {
                    Some(v) => as_str(v),
                    None => None,
                },
            };
            match name {
                Some(n) => Some(SiblingFile { filename: n.to_string(), size: read_size(get(item, "size")) }),
                None => None,
            }
        },
        _ => None,
    }
}

/// The files listed in a model-info reply.
pub fn siblings_from_info(info: &JsonValue) -> (files: Vec<SiblingFile>)
    ensures
        files_view(files@) == info_files(*info),
{
    let mut files: Vec<SiblingFile> = Vec::new();
    match get(info, "siblings") {
        Some(JsonValue::Array(a)) => {
            let mut i: usize = 0;
            while i < a.len()
                invariant
                    i <= a@.len(),
                    files_view(files@) == kept_files(a@.subrange(0, i as int), |x: JsonValue| info_file(x)),
                decreases a.len() - i,
            {
                let r = read_info_file(&a[i]);
                assert(a@.subrange(0, i + 1).drop_last() =~= a@.subrange(0, i as int));
                match r {
                    Some(f) => {
                        files.push(f);
                        assert(files_view(files@) =~= files_view(files@.drop_last()).push((f.filename@, f.size)));
                    },
                    None => {},
                }
                assert(files_view(files@) =~= kept_files(a@.subrange(0, i + 1), |x: JsonValue| info_file(x)));
                i = i + 1;
            }
            assert(a@.subrange(0, a@.len() as int) =~= a@);
        },
        _ => {},
    }
    assert(files_view(files@) =~= info_files(*info));
    files
}

/// A HuggingFace hub: its endpoint, without a trailing slash, and the time
/// a request may take.
pub struct HuggingFaceSource {
    pub endpoint: String,
    pub timeout_ms: u64,
}

pub open spec fn endpoint_of(endpoint: Option<&str>, default: Seq<char>) -> Seq<char> {
    trim_end_char(
        match endpoint {
            Some(e) => e@,
            None => default,
        },
        '/',
    )
}

/// What the model-info reply means: the reply itself on success, else the
/// error its status stands for.
pub open spec fn hf_info_outcome(model_id: Seq<char>, timeout_ms: u64, reply: Result<HttpReply, HttpError>) -> Result<
    JsonValue,
    (int, Seq<char>),
> {
    match reply {
        Err(e) => Err((2, "HuggingFace request timed out after "@ + seconds_text(timeout_ms) + "s: "@ + e.0@)),
        Ok(r) => if r.status == 200 {
            match r.body {
                Ok(v) => Ok(v),
                Err(m) => Err((2, "HuggingFace model_info returned non-JSON: "@ + m@)),
            }
        } else if r.status == 404 {
            Err((0, "Model '"@ + model_id + "' not found on HuggingFace."@))
        } else if r.status == 401 || r.status == 403 {
            Err((1, hf_auth_message(model_id)))
        } else if r.status == 429 {
            Err(
                (
                    2,
                    "HuggingFace rate limit (429). Retry-After: "@ + retry_after(r.headers@)
                        + "s. Setting HF_TOKEN increases your quota."@,
                ),
            )
        } else {
            Err((2, "HuggingFace error ("@ + dec(r.status as nat) + ")"@))
        },
    }
}

/// What the config reply means: any status below 400 is read as the
/// config; otherwise the error the status stands for.
pub open spec fn hf_config_outcome(model_id: Seq<char>, reply: Result<HttpReply, HttpError>) -> Result<
    JsonValue,
    (int, Seq<char>),
> {
    match reply {
        Err(e) => Err((2, "config.json fetch failed: "@ + e.0@)),
        Ok(r) => if r.status <= 399 {
            config_outcome(r.body)
        } else if r.status == 404 {
            Err(
                (
                    0,
                    "Model '"@ + model_id
                        + "' exists but has no config.json. May be a GGUF-only or dataset repo (not supported in v0.1)."@,
                ),
            )
        } else if r.status == 401 || r.status == 403 {
            Err((1, hf_auth_message(model_id)))
        } else if r.status == 429 {
            Err((2, "HuggingFace rate limit (429). Retry-After: "@ + retry_after(r.headers@) + "s."@))
        } else {
            Err((2, "config.json fetch returned HTTP "@ + dec(r.status as nat)))
        },
    }
}

pub open spec fn request_view(r: HttpRequest) -> (Seq<char>, Seq<(Seq<char>, Seq<char>)>, Seq<(Seq<char>, Seq<char>)>) {
    (r.url@, pairs_view(r.headers@), pairs_view(r.params@))
}

fn param(k: &str, v: &str) -> (p: (String, String))
    ensures
        p.0@ == k@,
        p.1@ == v@,
{
    (k.to_string(), v.to_string())
}

impl HuggingFaceSource {
    /// A hub at `endpoint` (the public one by default).
    pub fn new(endpoint: Option<&str>, timeout_ms: u64) -> (s: Self)
        ensures
            s.endpoint@ == endpoint_of(endpoint, "https://huggingface.co"@),
            s.timeout_ms == timeout_ms,
    {
        let e = match endpoint {
            Some(e) => e,
            None => "https://huggingface.co",
        };
        HuggingFaceSource { endpoint: trim_end_matches_char(e, '/'), timeout_ms }
    }

    /// The public hub, with thirty seconds per request.
    pub fn default() -> (s: Self)
        ensures
            s.endpoint@ == endpoint_of(None, "https://huggingface.co"@),
            s.timeout_ms == 30_000,
    {
        HuggingFaceSource::new(None, 30_000)
    }

    /// The model-info request, which also lists the files.
    pub fn info_request(&self, model_id: &str, token: Option<&str>) -> (r: HttpRequest)
        ensures
            request_view(r) == (
                self.endpoint@ + "/api/models/"@ + model_id@,
                auth_headers_of(token),
                seq![("blobs"@, "true"@)],
            ),
    {
        let mut url = self.endpoint.clone();
        url.append("/api/models/");
        url.append(model_id);
        let mut params: Vec<(String, String)> = Vec::new();
        params.push(param("blobs", "true"));
        assert(pairs_view(params@) =~= seq![("blobs"@, "true"@)]);
        HttpRequest { url, headers: auth_headers(token), params }
    }

    /// Reads the model-info reply.
    pub fn read_info(&self, model_id: &str, reply: Result<HttpReply, HttpError>) -> (r: Result<
        JsonValue,
        ModelSourceError,
    >)
        ensures
            outcome_view(r) == hf_info_outcome(model_id@, self.timeout_ms, reply),
    {
        let r = match reply {
            Err(e) => {
                let mut m = "HuggingFace request timed out after ".to_string();
                m.append(seconds(self.timeout_ms).as_str());
                m.append("s: ");
                m.append(e.0.as_str());
                return Err(source_unavailable(m));
            },
            Ok(r) => r,
        };
        if r.status == 200 {
            match r.body {
                Ok(v) => Ok(v),
                Err(m) => Err(source_unavailable(message("HuggingFace model_info returned non-JSON: ", m.as_str()))),
            }
        } else if r.status == 404 {
            let mut m = "Model '".to_string();
            m.append(model_id);
            m.append("' not found on HuggingFace.");
            Err(not_found(m))
        } else if r.status == 401 || r.status == 403 {
            Err(auth_required(hf_auth_error_message(model_id)))
        } else if r.status == 429 {
            let mut m = "HuggingFace rate limit (429). Retry-After: ".to_string();
            m.append(retry_after_text(&r.headers).as_str());
            m.append("s. Setting HF_TOKEN increases your quota.");
            Err(source_unavailable(m))
        } else {
            let mut m = "HuggingFace error (".to_string();
            m.append(u64_to_string(r.status as u64).as_str());
            m.append(")");
            Err(source_unavailable(m))
        }
    }

    /// The config request, pinned to the commit (or `main` without one).
    pub fn config_request(&self, model_id: &str, commit_sha: &Option<String>, token: Option<&str>) -> (r: HttpRequest)
        ensures
            request_view(r) == (
                self.endpoint@ + "/"@ + model_id@ + "/resolve/"@ + match commit_sha {
                    Some(s) => s@,
                    None => "main"@,
                } + "/config.json"@,
                auth_headers_of(token),
                Seq::<(Seq<char>, Seq<char>)>::empty(),
            ),
    {
        let mut url = self.endpoint.clone();
        url.append("/");
        url.append(model_id);
        url.append("/resolve/");
        match commit_sha {
            Some(s) => url.append(s.as_str()),
            None => url.append("main"),
        }
        url.append("/config.json");
        let params: Vec<(String, String)> = Vec::new();
        assert(pairs_view(params@) =~= Seq::<(Seq<char>, Seq<char>)>::empty());
        HttpRequest { url, headers: auth_headers(token), params }
    }

    /// Reads the config reply.
    pub fn read_config(&self, model_id: &str, reply: Result<HttpReply, HttpError>) -> (r: Result<
        JsonValue,
        ModelSourceError,
    >)
        ensures
            outcome_view(r) == hf_config_outcome(model_id@, reply),
    {
        let r = match reply {
            Err(e) => {
                return Err(source_unavailable(message("config.json fetch failed: ", e.0.as_str())));
            },
            Ok(r) => r,
        };
        if r.status <= 399 {
            config_from_body(r.body)
        } else if r.status == 404 {
            let mut m = "Model '".to_string();
            m.append(model_id);
            m.append("' exists but has no config.json. May be a GGUF-only or dataset repo (not supported in v0.1).");
            Err(not_found(m))
        } else if r.status == 401 || r.status == 403 {
            Err(auth_required(hf_auth_error_message(model_id)))
        } else if r.status == 429 {
            let mut m = "HuggingFace rate limit (429). Retry-After: ".to_string();
            m.append(retry_after_text(&r.headers).as_str());
            m.append("s.");
            Err(source_unavailable(m))
        } else {
            let mut m = "config.json fetch returned HTTP ".to_string();
            m.append(u64_to_string(r.status as u64).as_str());
            Err(source_unavailable(m))
        }
    }

    /// The model as fetched: its commit and files from the model-info
    /// reply, and its config.
    pub fn artifact(&self, model_id: &str, info: &JsonValue, config: JsonValue) -> (a: ModelArtifact)
        ensures
            a.source@ == "huggingface"@,
            a.model_id@ == model_id@,
            opt_str_view(a.commit_sha) == info_sha(*info),
            a.config == config,
            files_view(a.siblings@) == info_files(*info),
    {
        ModelArtifact {
            source: "huggingface".to_string(),
            model_id: model_id.to_string(),
            commit_sha: info_commit_sha(info),
            config,
            siblings: siblings_from_info(info),
        }
    }
}

/// A ModelScope hub: its endpoint without a trailing slash, the time a
/// request may take, and the revision used when the commit is unknown.
pub struct ModelScopeSource {
    pub endpoint: String,
    pub timeout_ms: u64,
    pub revision: String,
}

/// The commit a ModelScope model-info reply pins: the first non-empty
/// string among `LatestSha`, `latest_sha`, `Revision` and `Sha` of its
/// `Data` object. Anything amiss gives none.
pub open spec fn ms_sha(reply: Result<HttpReply, HttpError>) -> Option<Seq<char>> {
    match reply {
        Ok(r) => if r.status == 200 {
            match r.body {
                Ok(payload) => match spec_get(payload, "Data"@) {
                    Some(data) => if data is Object {
                        first_sha(data, seq!["LatestSha"@, "latest_sha"@, "Revision"@, "Sha"@])
                    } else {
                        None
                    },
                    None => None,
                },
                Err(_) => None,
            }
        } else {
            None
        },
        Err(_) => None,
    }
}

pub open spec fn sha_at(data: JsonValue, key: Seq<char>) -> Option<Seq<char>> {
    match spec_get(data, key) {
        Some(v) => match spec_as_str(v) {
            Some(s) => if s.len() > 0 {
                Some(s)
            } else {
                None
            },
            None => None,
        },
        None => None,
    }
}

pub open spec fn first_sha(data: JsonValue, keys: Seq<Seq<char>>) -> Option<Seq<char>>
    decreases keys.len(),
{
    if keys.len() == 0 {
        None
    } else {
        match sha_at(data, keys[0]) {
            Some(s) => Some(s),
            None => first_sha(data, keys.drop_first()),
        }
    }
}

fn sha_at_key(data: &JsonValue, key: &str) -> (r: Option<String>)
    ensures
        opt_str_view(r) == sha_at(*data, key@),
{
    match get(data, key) {
        Some(v) => match as_str(v) {
            Some(s) => if s.unicode_len() > 0 {
                Some(s.to_string())
            } else {
                None
            },
            None => None,
        },
        None => None,
    }
}

/// The file list of a ModelScope payload: `Data.Files` when `Data` is an
/// object holding that array, else `Data` itself when it is an array.
pub open spec fn ms_file_list(payload: JsonValue) -> Option<Seq<JsonValue>> {
    match spec_get(payload, "Data"@) {
        Some(data) => match (data, spec_get(data, "Files"@)) {
            (JsonValue::Object(_), Some(JsonValue::Array(files))) => Some(files@),
            (JsonValue::Array(items), _) => Some(items@),
            _ => None,
        },
        None => None,
    }
}

/// The file list of a ModelScope payload, by reference.
pub fn extract_files(payload: &JsonValue) -> (r: Option<&Vec<JsonValue>>)
    ensures
        match r {
            Some(v) => ms_file_list(*payload) == Some(v@),
            None => ms_file_list(*payload) is None,
        },
{
    let data = match get(payload, "Data") {
        Some(d) => d,
        None => {
            return None;
        },
    };
    match data {
        JsonValue::Object(_) => match get(data, "Files") {
            Some(JsonValue::Array(files)) => Some(files),
            _ => None,
        },
        JsonValue::Array(items) => Some(items),
        _ => None,
    }
}

/// An entry's `Type`, a blob unless it says otherwise.
pub open spec fn ms_kind(item: JsonValue) -> Seq<char> {
    match spec_get(item, "Type"@) {
        Some(v) => match spec_as_str(v) {
            Some(t) => t,
            None => "blob"@,
        },
        None => "blob"@,
    }
}

fn is_tree(item: &JsonValue) -> (b: bool)
    ensures
        b == (ms_kind(*item) == "tree"@),
{
    proof {
        reveal_strlit("blob");
        reveal_strlit("tree");
        assert("blob"@[0] != "tree"@[0]);
        assert("blob"@ != "tree"@);
    }
    match get(item, "Type") {
        Some(v) => match as_str(v) {
            Some(t) => str_eq(t, "tree"),
            None => false,
        },
        None => false,
    }
}

/// A file of a ModelScope listing: an object that is not a directory
/// (`Type` other than `tree`, a blob by default), named by `Path`, with its
/// `Size` when it has one.
pub open spec fn ms_file(item: JsonValue) -> Option<(Seq<char>, Option<u64>)> {
    if item is Object && ms_kind(item) != "tree"@ {
        match spec_get(item, "Path"@) {
            Some(v) => match spec_as_str(v) {
                Some(p) => Some(
                    (
                        p,
                        match spec_get(item, "Size"@) {
                            Some(x) => size_of(x),
                            None => None,
                        },
                    ),
                ),
                None => None,
            },
            None => None,
        }
    } else {
        None
    }
}

fn read_ms_file(item: &JsonValue) -> (r: Option<SiblingFile>)
    ensures
        match r {
            Some(f) => ms_file(*item) == Some((f.filename@, f.size)),
            None => ms_file(*item) is None,
        },
{
    let is_object = match item {
        JsonValue::Object(_) => true,
        _ => false,
    };
    if !is_object {
        return None;
    }
    if is_tree(item) {
        return None;
    }
    match get(item, "Path") {
        Some(v) => match as_str(v) {
            Some(p) => Some(SiblingFile { filename: p.to_string(), size: read_size(get(item, "Size")) }),
            None => None,
        },
        None => None,
    }
}

/// What a status means for a ModelScope request for `what`.
pub open spec fn ms_status_error(model_id: Seq<char>, what: Seq<char>, status: u16, headers: Seq<(String, String)>) -> (
    int,
    Seq<char>,
) {
    if status == 404 {
        (0, "Model '"@ + model_id + "' not found on ModelScope ("@ + what + ")."@)
    } else if status == 401 || status == 403 {
        (1, modelscope_auth_message(model_id))
    } else if status == 429 {
        (
            2,
            "ModelScope rate limit (429). Retry-After: "@ + retry_after(headers)
                + "s. Setting MODELSCOPE_API_TOKEN increases your quota."@,
        )
    } else {
        (2, "ModelScope "@ + what + " returned HTTP "@ + dec(status as nat))
    }
}

pub open spec fn files_outcome_view(r: Result<Vec<SiblingFile>, ModelSourceError>) -> Result<
    Seq<(Seq<char>, Option<u64>)>,
    (int, Seq<char>),
> {
    match r {
        Ok(v) => Ok(files_view(v@)),
        Err(e) => Err(error_view(e)),
    }
}

/// What the file-list reply means: the files that are not directories, or
/// why there are none.
pub open spec fn ms_files_outcome(model_id: Seq<char>, reply: Result<HttpReply, HttpError>) -> Result<
    Seq<(Seq<char>, Option<u64>)>,
    (int, Seq<char>),
> {
    match reply {
        Err(e) => Err((2, "ModelScope file list failed: "@ + e.0@)),
        Ok(r) => if r.status != 200 {
            Err(ms_status_error(model_id, "file list"@, r.status, r.headers@))
        } else {
            match r.body {
                Err(m) => Err((2, "ModelScope file list returned non-JSON: "@ + m@)),
                Ok(payload) => match ms_file_list(payload) {
                    None => Err(
                        (
                            2,
                            "ModelScope file list payload had unexpected shape — neither Data.Files nor Data is a list."@,
                        ),
                    ),
                    Some(items) => Ok(kept_files(items, |i: JsonValue| ms_file(i))),
                },
            }
        },
    }
}

/// What the config reply means.
pub open spec fn ms_config_outcome(model_id: Seq<char>, reply: Result<HttpReply, HttpError>) -> Result<
    JsonValue,
    (int, Seq<char>),
> {
    match reply {
        Err(e) => Err((2, "config.json fetch failed: "@ + e.0@)),
        Ok(r) => if r.status != 200 {
            Err(ms_status_error(model_id, "config.json"@, r.status, r.headers@))
        } else {
            config_outcome(r.body)
        },
    }
}

fn ms_status(model_id: &str, what: &str, status: u16, headers: &Vec<(String, String)>) -> (e: ModelSourceError)
    ensures
        error_view(e) == ms_status_error(model_id@, what@, status, headers@),
{
    if status == 404 {
        let mut m = "Model '".to_string();
        m.append(model_id);
        m.append("' not found on ModelScope (");
        m.append(what);
        m.append(").");
        not_found(m)
    } else if status == 401 || status == 403 {
        auth_required(modelscope_auth_error_message(model_id))
    } else if status == 429 {
        let mut m = "ModelScope rate limit (429). Retry-After: ".to_string();
        m.append(retry_after_text(headers).as_str());
        m.append("s. Setting MODELSCOPE_API_TOKEN increases your quota.");
        source_unavailable(m)
    } else {
        let mut m = "ModelScope ".to_string();
        m.append(what);
        m.append(" returned HTTP ");
        m.append(u64_to_string(status as u64).as_str());
        source_unavailable(m)
    }
}

fn kept_ms_files(items: &Vec<JsonValue>) -> (files: Vec<SiblingFile>)
    ensures
        files_view(files@) == kept_files(items@, |i: JsonValue| ms_file(i)),
{
    let mut files: Vec<SiblingFile> = Vec::new();
    let mut i: usize = 0;
    while i < items.len()
        invariant
            i <= items@.len(),
            files_view(files@) == kept_files(items@.subrange(0, i as int), |x: JsonValue| ms_file(x)),
        decreases items.len() - i,
    {
        let r = read_ms_file(&items[i]);
        assert(items@.subrange(0, i + 1).drop_last() =~= items@.subrange(0, i as int));
        match r {
            Some(f) => {
                files.push(f);
                assert(files_view(files@) =~= files_view(files@.drop_last()).push((f.filename@, f.size)));
            },
            None => {},
        }
        assert(files_view(files@) =~= kept_files(items@.subrange(0, i + 1), |x: JsonValue| ms_file(x)));
        i = i + 1;
    }
    assert(items@.subrange(0, items@.len() as int) =~= items@);
    files
}

impl ModelScopeSource {
    /// A hub at `endpoint` (the public one by default), falling back to
    /// `revision` when the commit is unknown.
    pub fn new(endpoint: Option<&str>, timeout_ms: u64, revision: &str) -> (s: Self)
        ensures
            s.endpoint@ == endpoint_of(endpoint, "https://www.modelscope.cn"@),
            s.timeout_ms == timeout_ms,
            s.revision@ == revision@,
    {
        let e = match endpoint {
            Some(e) => e,
            None => "https://www.modelscope.cn",
        };
        ModelScopeSource { endpoint: trim_end_matches_char(e, '/'), timeout_ms, revision: revision.to_string() }
    }

    /// The public hub, thirty seconds per request, revision `master`.
    pub fn default() -> (s: Self)
        ensures
            s.endpoint@ == endpoint_of(None, "https://www.modelscope.cn"@),
            s.timeout_ms == 30_000,
            s.revision@ == "master"@,
    {
        ModelScopeSource::new(None, 30_000, "master")
    }

    /// The model-info request, which names the latest commit.
    pub fn info_request(&self, model_id: &str, token: Option<&str>) -> (r: HttpRequest)
        ensures
            request_view(r) == (
                self.endpoint@ + "/api/v1/models/"@ + model_id@,
                auth_headers_of(token),
                Seq::<(Seq<char>, Seq<char>)>::empty(),
            ),
    {
        let mut url = self.endpoint.clone();
        url.append("/api/v1/models/");
        url.append(model_id);
        let params: Vec<(String, String)> = Vec::new();
        assert(pairs_view(params@) =~= Seq::<(Seq<char>, Seq<char>)>::empty());
        HttpRequest { url, headers: auth_headers(token), params }
    }

    /// The commit named by the model-info reply, if it names one.
    pub fn read_commit_sha(&self, reply: &Result<HttpReply, HttpError>) -> (r: Option<String>)
        ensures
            opt_str_view(r) == ms_sha(*reply),
    {
        let r = match reply {
            Ok(r) => r,
            Err(_) => {
                return None;
            },
        };
        if r.status != 200 {
            return None;
        }
        let payload = match &r.body {
            Ok(p) => p,
            Err(_) => {
                return None;
            },
        };
        let data = match get(payload, "Data") {
            Some(d) => d,
            None => {
                return None;
            },
        };
        match data {
            JsonValue::Object(_) => {},
            _ => {
                return None;
            },
        }
        let ghost keys = seq!["LatestSha"@, "latest_sha"@, "Revision"@, "Sha"@];
        assert(keys.drop_first() =~= seq!["latest_sha"@, "Revision"@, "Sha"@]);
        assert(keys.drop_first().drop_first() =~= seq!["Revision"@, "Sha"@]);
        assert(keys.drop_first().drop_first().drop_first() =~= seq!["Sha"@]);
        assert(keys.drop_first().drop_first().drop_first().drop_first() =~= Seq::<Seq<char>>::empty());
        proof {
            reveal_with_fuel(first_sha, 5);
        }
        match sha_at_key(data, "LatestSha") {
            Some(s) => {
                return Some(s);
            },
            None => {},
        }
        match sha_at_key(data, "latest_sha") {
            Some(s) => {
                return Some(s);
            },
            None => {},
        }
        match sha_at_key(data, "Revision") {
            Some(s) => {
                return Some(s);
            },
            None => {},
        }
        sha_at_key(data, "Sha")
    }

    /// The revision to read: the commit when known, else the default.
    pub fn revision_for<'a>(&'a self, commit_sha: &'a Option<String>) -> (r: &'a str)
        ensures
            r@ == match commit_sha {
                Some(s) => s@,
                None => self.revision@,
            },
    {
        match commit_sha {
            Some(s) => s.as_str(),
            None => self.revision.as_str(),
        }
    }

    /// The file-list request, recursive, at `revision`.
    pub fn files_request(&self, model_id: &str, revision: &str, token: Option<&str>) -> (r: HttpRequest)
        ensures
            request_view(r) == (
                self.endpoint@ + "/api/v1/models/"@ + model_id@ + "/repo/files"@,
                auth_headers_of(token),
                seq![("Recursive"@, "true"@), ("Revision"@, revision@)],
            ),
    {
        let mut url = self.endpoint.clone();
        url.append("/api/v1/models/");
        url.append(model_id);
        url.append("/repo/files");
        let mut params: Vec<(String, String)> = Vec::new();
        params.push(param("Recursive", "true"));
        params.push(param("Revision", revision));
        assert(pairs_view(params@) =~= seq![("Recursive"@, "true"@), ("Revision"@, revision@)]);
        HttpRequest { url, headers: auth_headers(token), params }
    }

    /// Reads the file-list reply.
    pub fn read_files(&self, model_id: &str, reply: Result<HttpReply, HttpError>) -> (r: Result<
        Vec<SiblingFile>,
        ModelSourceError,
    >)
        ensures
            files_outcome_view(r) == ms_files_outcome(model_id@, reply),
    {
        let r = match reply {
            Err(e) => {
                return Err(source_unavailable(message("ModelScope file list failed: ", e.0.as_str())));
            },
            Ok(r) => r,
        };
        if r.status != 200 {
            return Err(ms_status(model_id, "file list", r.status, &r.headers));
        }
        let payload = match r.body {
            Err(m) => {
                return Err(source_unavailable(message("ModelScope file list returned non-JSON: ", m.as_str())));
            },
            Ok(p) => p,
        };
        match extract_files(&payload) {
            None => Err(
                source_unavailable(
                    "ModelScope file list payload had unexpected shape — neither Data.Files nor Data is a list.".to_string(),
                ),
            ),
            Some(items) => Ok(kept_ms_files(items)),
        }
    }

    /// The config request at `revision`.
    pub fn config_request(&self, model_id: &str, revision: &str, token: Option<&str>) -> (r: HttpRequest)
        ensures
            request_view(r) == (
                self.endpoint@ + "/api/v1/models/"@ + model_id@ + "/repo"@,
                auth_headers_of(token),
                seq![("FilePath"@, "config.json"@), ("Revision"@, revision@)],
            ),
    {
        let mut url = self.endpoint.clone();
        url.append("/api/v1/models/");
        url.append(model_id);
        url.append("/repo");
        let mut params: Vec<(String, String)> = Vec::new();
        params.push(param("FilePath", "config.json"));
        params.push(param("Revision", revision));
        assert(pairs_view(params@) =~= seq![("FilePath"@, "config.json"@), ("Revision"@, revision@)]);
        HttpRequest { url, headers: auth_headers(token), params }
    }

    /// Reads the config reply.
    pub fn read_config(&self, model_id: &str, reply: Result<HttpReply, HttpError>) -> (r: Result<
        JsonValue,
        ModelSourceError,
    >)
        ensures
            outcome_view(r) == ms_config_outcome(model_id@, reply),
    {
        let r = match reply {
            Err(e) => {
                return Err(source_unavailable(message("config.json fetch failed: ", e.0.as_str())));
            },
            Ok(r) => r,
        };
        if r.status != 200 {
            return Err(ms_status(model_id, "config.json", r.status, &r.headers));
        }
        config_from_body(r.body)
    }
}

/// A fetched model as (source, model id, commit, config, files).
pub open spec fn artifact_view(a: ModelArtifact) -> (Seq<char>, Seq<char>, Option<Seq<char>>, JsonValue, Seq<(Seq<char>, Option<u64>)>) {
    (a.source@, a.model_id@, opt_str_view(a.commit_sha), a.config, files_view(a.siblings@))
}

pub open spec fn fetch_view(r: Result<ModelArtifact, ModelSourceError>) -> Result<
    (Seq<char>, Seq<char>, Option<Seq<char>>, JsonValue, Seq<(Seq<char>, Option<u64>)>),
    (int, Seq<char>),
> {
    match r {
        Ok(a) => Ok(artifact_view(a)),
        Err(e) => Err(error_view(e)),
    }
}

/// The calls a fetch added to a client's record.
pub open spec fn new_calls<T>(before: Seq<T>, after: Seq<T>) -> Seq<T> {
    after.subrange(before.len() as int, after.len() as int)
}

/// A HuggingFace fetch as its calls show it: the model-info request; when
/// its reply is accepted, the config request pinned to the commit; and the
/// model, or the error of the first reply that failed.
pub open spec fn hf_fetch(
    endpoint: Seq<char>,
    timeout_ms: u64,
    model_id: Seq<char>,
    token: Option<&str>,
    calls: Seq<(RequestView, u64, Result<HttpReply, HttpError>)>,
    r: Result<ModelArtifact, ModelSourceError>,
) -> bool {
    &&& calls.len() >= 1
    &&& calls[0].0 == (endpoint + "/api/models/"@ + model_id, auth_headers_of(token), seq![("blobs"@, "true"@)])
    &&& calls[0].1 == timeout_ms
    &&& match hf_info_outcome(model_id, timeout_ms, calls[0].2) {
        Err(e) => calls.len() == 1 && fetch_view(r) == Err::<
            (Seq<char>, Seq<char>, Option<Seq<char>>, JsonValue, Seq<(Seq<char>, Option<u64>)>),
            (int, Seq<char>),
        >(e),
        Ok(info) => {
            &&& calls.len() == 2
            &&& calls[1].0 == (
                endpoint + "/"@ + model_id + "/resolve/"@ + match info_sha(info) {
                    Some(s) => s,
                    None => "main"@,
                } + "/config.json"@,
                auth_headers_of(token),
                Seq::<(Seq<char>, Seq<char>)>::empty(),
            )
            &&& calls[1].1 == timeout_ms
            &&& fetch_view(r) == match hf_config_outcome(model_id, calls[1].2) {
                Err(e) => Err(e),
                Ok(config) => Ok(("huggingface"@, model_id, info_sha(info), config, info_files(info))),
            }
        },
    }
}

/// A ModelScope fetch as its calls show it: the model-info request, then
/// the file list and the config at the commit it names (else the default
/// revision); the model, or the error of the first reply that failed.
pub open spec fn ms_fetch(
    endpoint: Seq<char>,
    timeout_ms: u64,
    default_revision: Seq<char>,
    model_id: Seq<char>,
    token: Option<&str>,
    calls: Seq<(RequestView, u64, Result<HttpReply, HttpError>)>,
    r: Result<ModelArtifact, ModelSourceError>,
) -> bool {
    let sha = ms_sha(calls[0].2);
    let revision = match sha {
        Some(s) => s,
        None => default_revision,
    };
    &&& calls.len() >= 2
    &&& calls[0].0 == (endpoint + "/api/v1/models/"@ + model_id, auth_headers_of(token), Seq::<(Seq<char>, Seq<char>)>::empty())
    &&& calls[0].1 == timeout_ms
    &&& calls[1].0 == (
        endpoint + "/api/v1/models/"@ + model_id + "/repo/files"@,
        auth_headers_of(token),
        seq![("Recursive"@, "true"@), ("Revision"@, revision)],
    )
    &&& calls[1].1 == timeout_ms
    &&& match ms_files_outcome(model_id, calls[1].2) {
        Err(e) => calls.len() == 2 && fetch_view(r) == Err::<
            (Seq<char>, Seq<char>, Option<Seq<char>>, JsonValue, Seq<(Seq<char>, Option<u64>)>),
            (int, Seq<char>),
        >(e),
        Ok(files) => {
            &&& calls.len() == 3
            &&& calls[2].0 == (
                endpoint + "/api/v1/models/"@ + model_id + "/repo"@,
                auth_headers_of(token),
                seq![("FilePath"@, "config.json"@), ("Revision"@, revision)],
            )
            &&& calls[2].1 == timeout_ms
            &&& fetch_view(r) == match ms_config_outcome(model_id, calls[2].2) {
                Err(e) => Err(e),
                Ok(config) => Ok(("modelscope"@, model_id, sha, config, files)),
            }
        },
    }
}

impl HuggingFaceSource {
    /// Fetches a model through `client`: model info, then the config.
    pub fn fetch_with_client<C: HttpClient>(&self, model_id: &str, client: &mut C, token: Option<&str>) -> (r: Result<
        ModelArtifact,
        ModelSourceError,
    >)
        ensures
            final(client).calls().subrange(0, old(client).calls().len() as int) == old(client).calls(),
            final(client).calls().len() >= old(client).calls().len(),
            hf_fetch(
                self.endpoint@,
                self.timeout_ms,
                model_id@,
                token,
                new_calls(old(client).calls(), final(client).calls()),
                r,
            ),
    {
        let ghost start = client.calls();
        let q = self.info_request(model_id, token);
        let reply = client.get(&q.url, &q.headers, &q.params, self.timeout_ms);
        let ghost after_info = client.calls();
        let ghost info_reply = after_info.last().2;
        assert(new_calls(start, after_info) =~= seq![after_info.last()]);
        let info = match self.read_info(model_id, reply) {
            Ok(v) => v,
            Err(e) => {
                assert(after_info.subrange(0, start.len() as int) =~= start);
                return Err(e);
            },
        };
        let sha = info_commit_sha(&info);
        let q2 = self.config_request(model_id, &sha, token);
        let reply2 = client.get(&q2.url, &q2.headers, &q2.params, self.timeout_ms);
        let ghost after = client.calls();
        assert(new_calls(start, after) =~= seq![after_info.last(), after.last()]);
        assert(after.subrange(0, start.len() as int) =~= start);
        match self.read_config(model_id, reply2) {
            Ok(config) => Ok(self.artifact(model_id, &info, config)),
            Err(e) => Err(e),
        }
    }
}

impl ModelScopeSource {
    /// Fetches a model through `client`: the commit, the file list and the
    /// config.
    pub fn fetch_with_client<C: HttpClient>(&self, model_id: &str, client: &mut C, token: Option<&str>) -> (r: Result<
        ModelArtifact,
        ModelSourceError,
    >)
        ensures
            final(client).calls().subrange(0, old(client).calls().len() as int) == old(client).calls(),
            final(client).calls().len() >= old(client).calls().len(),
            ms_fetch(
                self.endpoint@,
                self.timeout_ms,
                self.revision@,
                model_id@,
                token,
                new_calls(old(client).calls(), final(client).calls()),
                r,
            ),
    {
        let ghost start = client.calls();
        let q = self.info_request(model_id, token);
        let info_reply = client.get(&q.url, &q.headers, &q.params, self.timeout_ms);
        let ghost c1 = client.calls();
        let sha = self.read_commit_sha(&info_reply);
        let revision = self.revision_for(&sha).to_string();
        let q2 = self.files_request(model_id, revision.as_str(), token);
        let files_reply = client.get(&q2.url, &q2.headers, &q2.params, self.timeout_ms);
        let ghost c2 = client.calls();
        assert(new_calls(start, c2) =~= seq![c1.last(), c2.last()]);
        assert(c2.subrange(0, start.len() as int) =~= start);
        let siblings = match self.read_files(model_id, files_reply) {
            Ok(f) => f,
            Err(e) => {
                return Err(e);
            },
        };
        let q3 = self.config_request(model_id, revision.as_str(), token);
        let config_reply = client.get(&q3.url, &q3.headers, &q3.params, self.timeout_ms);
        let ghost c3 = client.calls();
        assert(new_calls(start, c3) =~= seq![c1.last(), c2.last(), c3.last()]);
        assert(c3.subrange(0, start.len() as int) =~= start);
        match self.read_config(model_id, config_reply) {
            Ok(config) => Ok(ModelArtifact {
                source: "modelscope".to_string(),
                model_id: model_id.to_string(),
                commit_sha: sha,
                config,
                siblings,
            }),
            Err(e) => Err(e),
        }
    }
}

} // verus!
