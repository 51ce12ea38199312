use std::collections::VecDeque;

use llm_infer_cal_core::hub::{
    extract_files, HttpClient, HttpError, HttpReply, HttpRequest, HuggingFaceSource, ModelScopeSource,
};
use llm_infer_cal_core::json::{get, JsonNumber, JsonValue};
use llm_infer_cal_core::sources::{ModelArtifact, ModelSourceError};

fn obj(members: Vec<(&str, JsonValue)>) -> JsonValue {
    JsonValue::Object(members.into_iter().map(|(k, v)| (k.to_string(), v)).collect())
}

fn num(value: u64) -> JsonValue {
    JsonValue::Number(JsonNumber::Unsigned(value))
}

fn text(value: &str) -> JsonValue {
    JsonValue::Text(value.to_string())
}

fn reply(body: JsonValue, status: u16) -> Result<HttpReply, HttpError> {
    Ok(HttpReply { status, headers: Vec::new(), body: Ok(body) })
}

fn unparsable(status: u16) -> Result<HttpReply, HttpError> {
    Ok(HttpReply { status, headers: Vec::new(), body: Err("expected value at line 1 column 1".to_string()) })
}

fn header<'a>(request: &'a HttpRequest, name: &str) -> Option<&'a str> {
    request.headers.iter().find(|(k, _)| k == name).map(|(_, v)| v.as_str())
}

fn has_param(request: &HttpRequest, key: &str, value: &str) -> bool {
    request.params.iter().any(|(k, v)| k == key && v == value)
}

struct FakeClient {
    replies: VecDeque<Result<HttpReply, HttpError>>,
    seen: Vec<HttpRequest>,
}

impl HttpClient for FakeClient {
    fn get(
        &mut self,
        url: &str,
        headers: &Vec<(String, String)>,
        params: &Vec<(String, String)>,
        _timeout_ms: u64,
    ) -> Result<HttpReply, HttpError> {
        self.seen.push(HttpRequest { url: url.to_string(), headers: headers.clone(), params: params.clone() });
        self.replies.pop_front().expect("test must provide enough fake replies")
    }
}

fn fetch_hf(
    source: &HuggingFaceSource,
    model_id: &str,
    token: Option<&str>,
    replies: Vec<Result<HttpReply, HttpError>>,
    calls: &mut Vec<HttpRequest>,
) -> Result<ModelArtifact, ModelSourceError> {
    let mut client = FakeClient { replies: replies.into_iter().collect(), seen: Vec::new() };
    let r = source.fetch_with_client(model_id, &mut client, token);
    calls.clear();
    calls.extend(client.seen);
    r
}

fn fetch_ms(
    source: &ModelScopeSource,
    model_id: &str,
    token: Option<&str>,
    replies: Vec<Result<HttpReply, HttpError>>,
    calls: &mut Vec<HttpRequest>,
) -> Result<ModelArtifact, ModelSourceError> {
    let mut client = FakeClient { replies: replies.into_iter().collect(), seen: Vec::new() };
    let r = source.fetch_with_client(model_id, &mut client, token);
    calls.clear();
    calls.extend(client.seen);
    r
}

fn error_of(r: Result<ModelArtifact, ModelSourceError>) -> ModelSourceError {
    match r {
        Ok(_) => panic!("expected an error"),
        Err(e) => e,
    }
}

fn wrapped(data: JsonValue) -> JsonValue {
    obj(vec![
        ("Code", num(200)),
        ("Message", text("ok")),
        ("RequestId", text("test")),
        ("Success", JsonValue::Bool(true)),
        ("Data", data),
    ])
}

#[test]
fn fetch_happy_path_uses_one_model_info_request_and_pins_config_to_sha() {
    let info = obj(vec![
        ("sha", text("abc123")),
        (
            "siblings",
            JsonValue::Array(vec![
                obj(vec![("rfilename", text("config.json")), ("size", num(642))]),
                obj(vec![("rfilename", text("model-00001-of-00002.safetensors")), ("size", num(5_000_000_000))]),
                obj(vec![("rfilename", text("tokenizer.json")), ("size", JsonValue::Null)]),
            ]),
        ),
    ]);
    let config = obj(vec![("model_type", text("llama")), ("hidden_size", num(4096))]);
    let mut calls = Vec::new();
    let artifact = match fetch_hf(
        &HuggingFaceSource::default(),
        "owner/repo",
        Some("hf-secret"),
        vec![reply(info, 200), reply(config, 200)],
        &mut calls,
    ) {
        Ok(a) => a,
        Err(e) => panic!("{}", e.to_string()),
    };

    assert_eq!(artifact.source, "huggingface");
    assert_eq!(artifact.model_id, "owner/repo");
    assert_eq!(artifact.commit_sha.as_deref(), Some("abc123"));
    assert!(matches!(get(&artifact.config, "model_type"), Some(JsonValue::Text(t)) if t == "llama"));
    assert_eq!(artifact.siblings.len(), 3);
    assert_eq!(artifact.siblings[1].filename, "model-00001-of-00002.safetensors");
    assert_eq!(artifact.siblings[1].size, Some(5_000_000_000));
    assert_eq!(artifact.siblings[2].size, None);
    assert_eq!(calls.len(), 2);
    assert_eq!(calls[0].url, "https://huggingface.co/api/models/owner/repo");
    assert!(has_param(&calls[0], "blobs", "true"));
    assert_eq!(calls[1].url, "https://huggingface.co/owner/repo/resolve/abc123/config.json");
    assert!(calls.iter().all(|call| header(call, "Authorization") == Some("Bearer hf-secret")));
}

#[test]
fn fetch_uses_custom_endpoint_and_main_when_sha_missing() {
    let source = HuggingFaceSource::new(Some("https://hf-mirror.example.com/"), 30_000);
    let mut calls = Vec::new();
    let artifact = match fetch_hf(
        &source,
        "o/r",
        None,
        vec![
            reply(obj(vec![("siblings", JsonValue::Array(vec![]))]), 200),
            reply(obj(vec![("model_type", text("mistral"))]), 200),
        ],
        &mut calls,
    ) {
        Ok(a) => a,
        Err(e) => panic!("{}", e.to_string()),
    };

    assert_eq!(artifact.commit_sha, None);
    assert!(calls.iter().all(|call| call.url.starts_with("https://hf-mirror.example.com/")));
    assert!(!calls.iter().any(|call| call.url.starts_with("https://huggingface.co")));
    assert_eq!(calls[1].url, "https://hf-mirror.example.com/o/r/resolve/main/config.json");
    assert!(calls.iter().all(|call| call.headers.is_empty()));
}

#[test]
fn fetch_maps_model_info_errors_like_rust_contract() {
    let source = HuggingFaceSource::default();
    let mut calls = Vec::new();

    let err = error_of(fetch_hf(&source, "missing/repo", None, vec![reply(obj(vec![("error", text("missing"))]), 404)], &mut calls));
    assert!(matches!(err, ModelSourceError::NotFound(_)));
    assert!(err.to_string().contains("not found on HuggingFace"));

    let err = error_of(fetch_hf(&source, "private/repo", None, vec![reply(obj(vec![("error", text("gated"))]), 403)], &mut calls));
    assert!(matches!(err, ModelSourceError::AuthRequired(_)));
    assert!(err.to_string().contains("HF_TOKEN"));

    let rate_limited = Ok(HttpReply {
        status: 429,
        headers: vec![("Retry-After".to_string(), "42".to_string())],
        body: Ok(obj(vec![("error", text("rate"))])),
    });
    let err = error_of(fetch_hf(&source, "o/r", None, vec![rate_limited], &mut calls));
    assert!(matches!(err, ModelSourceError::SourceUnavailable(_)));
    assert!(err.to_string().contains("rate limit"));
    assert!(err.to_string().contains("42"));

    let err = error_of(fetch_hf(&source, "o/r", None, vec![Err(HttpError("timed out".to_string()))], &mut calls));
    assert!(matches!(err, ModelSourceError::SourceUnavailable(_)));
    assert!(err.to_string().contains("timed out"));
    assert_eq!(err.to_string(), "HuggingFace request timed out after 30s: timed out");
}

#[test]
fn fetch_maps_config_errors_like_rust_contract() {
    let source = HuggingFaceSource::default();
    let info = || obj(vec![("sha", text("abc")), ("siblings", JsonValue::Array(vec![]))]);
    let mut calls = Vec::new();

    let err = error_of(fetch_hf(&source, "o/r", None, vec![reply(info(), 200), unparsable(404)], &mut calls));
    assert!(matches!(err, ModelSourceError::NotFound(_)));
    assert!(err.to_string().contains("no config.json"));

    let err = error_of(fetch_hf(&source, "private/repo", None, vec![reply(info(), 200), unparsable(401)], &mut calls));
    assert!(matches!(err, ModelSourceError::AuthRequired(_)));

    let err = error_of(fetch_hf(&source, "o/r", None, vec![reply(info(), 200), unparsable(200)], &mut calls));
    assert!(matches!(err, ModelSourceError::SourceUnavailable(_)));
    assert!(err.to_string().contains("config.json is not valid JSON"));

    let array = JsonValue::Array(vec![num(1), num(2), num(3)]);
    let err = error_of(fetch_hf(&source, "o/r", None, vec![reply(info(), 200), reply(array, 200)], &mut calls));
    assert!(matches!(err, ModelSourceError::SourceUnavailable(_)));
    assert!(err.to_string().contains("JSON object"));
}

#[test]
fn hub_status_messages_and_timeouts_read_exactly() {
    let source = HuggingFaceSource::new(None, 2_500);
    let err = match source.read_info("o/r", Err(HttpError("slow".to_string()))) {
        Ok(_) => panic!("expected an error"),
        Err(e) => e,
    };
    assert_eq!(err.to_string(), "HuggingFace request timed out after 2.5s: slow");
    let err = match source.read_info("o/r", unparsable(500)) {
        Ok(_) => panic!("expected an error"),
        Err(e) => e,
    };
    assert_eq!(err.to_string(), "HuggingFace error (500)");
    let err = match source.read_config("o/r", unparsable(302 + 200)) {
        Ok(_) => panic!("expected an error"),
        Err(e) => e,
    };
    assert_eq!(err.to_string(), "config.json fetch returned HTTP 502");
    let lower = Ok(HttpReply {
        status: 429,
        headers: vec![("retry-after".to_string(), "7".to_string())],
        body: Ok(JsonValue::Null),
    });
    let err = match source.read_config("o/r", lower) {
        Ok(_) => panic!("expected an error"),
        Err(e) => e,
    };
    assert_eq!(err.to_string(), "HuggingFace rate limit (429). Retry-After: 7s.");
    let unknown = Ok(HttpReply { status: 429, headers: vec![], body: Ok(JsonValue::Null) });
    let err = match ModelScopeSource::default().read_config("o/r", unknown) {
        Ok(_) => panic!("expected an error"),
        Err(e) => e,
    };
    assert_eq!(
        err.to_string(),
        "ModelScope rate limit (429). Retry-After: unknowns. Setting MODELSCOPE_API_TOKEN increases your quota."
    );
}

#[test]
fn extract_files_accepts_known_modelscope_shapes() {
    let nested = obj(vec![("Data", obj(vec![("Files", JsonValue::Array(vec![obj(vec![("Path", text("a.bin")), ("Size", num(1))])]))]))]);
    let files = extract_files(&nested).unwrap();
    assert_eq!(files.len(), 1);
    assert!(matches!(get(&files[0], "Path"), Some(JsonValue::Text(t)) if t == "a.bin"));

    let flat = obj(vec![("Data", JsonValue::Array(vec![obj(vec![("Path", text("a.bin"))])]))]);
    let files = extract_files(&flat).unwrap();
    assert_eq!(files.len(), 1);
    assert!(matches!(get(&files[0], "Path"), Some(JsonValue::Text(t)) if t == "a.bin"));

    assert!(extract_files(&obj(vec![("Code", num(200))])).is_none());
    assert!(extract_files(&obj(vec![("Data", text("permission denied"))])).is_none());
    assert!(extract_files(&JsonValue::Null).is_none());
}

#[test]
fn fetch_happy_path_filters_tree_entries_and_pins_commit_sha() {
    let files = wrapped(obj(vec![(
        "Files",
        JsonValue::Array(vec![
            obj(vec![("Path", text("config.json")), ("Type", text("blob")), ("Size", num(642))]),
            obj(vec![
                ("Path", text("model-00001-of-00002.safetensors")),
                ("Type", text("blob")),
                ("Size", num(5_000_000_000)),
            ]),
            obj(vec![("Path", text("tokenizer")), ("Type", text("tree")), ("Size", JsonValue::Null)]),
        ]),
    )]));
    let mut calls = Vec::new();
    let artifact = match fetch_ms(
        &ModelScopeSource::default(),
        "owner/repo",
        None,
        vec![
            reply(wrapped(obj(vec![("LatestSha", text("deadbeef"))])), 200),
            reply(files, 200),
            reply(obj(vec![("model_type", text("qwen3_moe")), ("hidden_size", num(4096))]), 200),
        ],
        &mut calls,
    ) {
        Ok(a) => a,
        Err(e) => panic!("{}", e.to_string()),
    };

    assert_eq!(artifact.source, "modelscope");
    assert_eq!(artifact.model_id, "owner/repo");
    assert_eq!(artifact.commit_sha.as_deref(), Some("deadbeef"));
    assert!(matches!(get(&artifact.config, "model_type"), Some(JsonValue::Text(t)) if t == "qwen3_moe"));
    assert_eq!(artifact.siblings.len(), 2);
    assert_eq!(
        artifact.siblings.iter().map(|s| s.filename.as_str()).collect::<Vec<_>>(),
        vec!["config.json", "model-00001-of-00002.safetensors"]
    );
    assert!(has_param(&calls[1], "Revision", "deadbeef"));
    assert!(has_param(&calls[2], "Revision", "deadbeef"));
    assert_eq!(calls[0].url, "https://www.modelscope.cn/api/v1/models/owner/repo");
    assert_eq!(calls[1].url, "https://www.modelscope.cn/api/v1/models/owner/repo/repo/files");
    assert_eq!(calls[2].url, "https://www.modelscope.cn/api/v1/models/owner/repo/repo");
    assert!(has_param(&calls[2], "FilePath", "config.json"));
}

#[test]
fn fetch_supports_data_list_shape_and_master_fallback_when_info_fails() {
    let mut calls = Vec::new();
    let artifact = match fetch_ms(
        &ModelScopeSource::default(),
        "owner/repo",
        None,
        vec![
            Err(HttpError("info slow".to_string())),
            reply(wrapped(JsonValue::Array(vec![obj(vec![("Path", text("config.json")), ("Type", text("blob")), ("Size", num(100))])])), 200),
            reply(obj(vec![("model_type", text("llama"))]), 200),
        ],
        &mut calls,
    ) {
        Ok(a) => a,
        Err(e) => panic!("{}", e.to_string()),
    };

    assert_eq!(artifact.commit_sha, None);
    assert_eq!(artifact.siblings.len(), 1);
    assert!(has_param(&calls[1], "Revision", "master"));
    assert!(has_param(&calls[2], "Revision", "master"));
}

#[test]
fn fetch_uses_custom_endpoint_and_authorization_header() {
    let source = ModelScopeSource::new(Some("https://my-mirror.example.com"), 30_000, "master");
    let mut calls = Vec::new();
    let result = fetch_ms(
        &source,
        "o/r",
        Some("ms-secret-xyz"),
        vec![
            reply(wrapped(obj(vec![])), 200),
            reply(wrapped(obj(vec![("Files", JsonValue::Array(vec![]))])), 200),
            reply(obj(vec![]), 200),
        ],
        &mut calls,
    );
    assert!(result.is_ok());
    assert!(calls.iter().all(|call| call.url.starts_with("https://my-mirror.example.com/")));
    assert!(!calls.iter().any(|call| call.url.starts_with("https://www.modelscope.cn")));
    assert!(calls.iter().all(|call| header(call, "Authorization") == Some("Bearer ms-secret-xyz")));
}

#[test]
fn fetch_maps_file_list_status_errors_like_python() {
    let source = ModelScopeSource::default();
    let mut calls = Vec::new();

    let err = error_of(fetch_ms(
        &source,
        "nonexistent/model",
        None,
        vec![reply(wrapped(obj(vec![])), 200), reply(obj(vec![("Code", num(404)), ("Message", text("model not found"))]), 404)],
        &mut calls,
    ));
    assert!(matches!(err, ModelSourceError::NotFound(_)));
    assert!(err.to_string().contains("not found"));

    let err = error_of(fetch_ms(
        &source,
        "private/repo",
        None,
        vec![reply(wrapped(obj(vec![])), 200), reply(obj(vec![("Code", num(401)), ("Message", text("auth required"))]), 401)],
        &mut calls,
    ));
    assert!(matches!(err, ModelSourceError::AuthRequired(_)));
    assert!(err.to_string().contains("MODELSCOPE_API_TOKEN"));

    let rate_limited = Ok(HttpReply {
        status: 429,
        headers: vec![("Retry-After".to_string(), "30".to_string())],
        body: Ok(obj(vec![("Code", num(429))])),
    });
    let err = error_of(fetch_ms(&source, "o/r", None, vec![reply(wrapped(obj(vec![])), 200), rate_limited], &mut calls));
    assert!(matches!(err, ModelSourceError::SourceUnavailable(_)));
    assert!(err.to_string().contains("rate limit"));
    assert!(err.to_string().contains("30"));
}

#[test]
fn fetch_maps_payload_and_config_errors_like_python() {
    let source = ModelScopeSource::default();
    let mut calls = Vec::new();

    let err = error_of(fetch_ms(
        &source,
        "o/r",
        None,
        vec![
            reply(wrapped(obj(vec![])), 200),
            reply(obj(vec![("Code", num(200)), ("Message", text("ok")), ("Data", text("permission denied"))]), 200),
        ],
        &mut calls,
    ));
    assert!(matches!(err, ModelSourceError::SourceUnavailable(_)));
    assert!(err.to_string().contains("unexpected shape"));

    let err = error_of(fetch_ms(
        &source,
        "o/r",
        None,
        vec![
            reply(wrapped(obj(vec![])), 200),
            reply(wrapped(obj(vec![("Files", JsonValue::Array(vec![]))])), 200),
            unparsable(200),
        ],
        &mut calls,
    ));
    assert!(matches!(err, ModelSourceError::SourceUnavailable(_)));
    assert!(err.to_string().contains("config.json"));

    let err = error_of(fetch_ms(
        &source,
        "o/r",
        None,
        vec![
            reply(wrapped(obj(vec![])), 200),
            reply(wrapped(obj(vec![("Files", JsonValue::Array(vec![]))])), 200),
            reply(JsonValue::Array(vec![num(1), num(2), num(3)]), 200),
        ],
        &mut calls,
    ));
    assert!(matches!(err, ModelSourceError::SourceUnavailable(_)));
    assert!(err.to_string().contains("JSON object"));
}
