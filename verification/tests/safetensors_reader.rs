use std::collections::HashMap;

use llm_infer_cal_core::json::{JsonNumber, JsonValue};
use llm_infer_cal_core::safetensors::{build_request, dtypes_from_header, header_span, pick_sample_shard};
use llm_infer_cal_core::sources::SiblingFile;

fn to_json_value(v: &serde_json::Value) -> JsonValue {
    match v {
        serde_json::Value::Null => JsonValue::Null,
        serde_json::Value::Bool(b) => JsonValue::Bool(*b),
        serde_json::Value::Number(n) => match (n.as_u64(), n.as_i64(), n.as_f64()) {
            (Some(u), _, _) => JsonValue::Number(JsonNumber::Unsigned(u)),
            (None, Some(i), _) => JsonValue::Number(JsonNumber::Negative(i)),
            (_, _, Some(f)) => JsonValue::Number(JsonNumber::Float {
                nonzero: f != 0.0,
                nonneg_trunc: if f >= 0.0 { Some(f as u64) } else { None },
                text: n.to_string(),
            }),
            _ => JsonValue::Null,
        },
        serde_json::Value::String(s) => JsonValue::Text(s.clone()),
        serde_json::Value::Array(a) => JsonValue::Array(a.iter().map(to_json_value).collect()),
        serde_json::Value::Object(m) => {
            JsonValue::Object(m.iter().map(|(k, v)| (k.clone(), to_json_value(v))).collect())
        }
    }
}

fn parse_header(content: &[u8]) -> Option<HashMap<String, String>> {
    let (start, end) = header_span(content)?;
    let value: serde_json::Value = serde_json::from_slice(&content[start..end]).ok()?;
    dtypes_from_header(&to_json_value(&value)).map(|v| v.into_iter().collect())
}

fn build_safetensors_bytes(header: &str) -> Vec<u8> {
    let value: serde_json::Value = serde_json::from_str(header).unwrap();
    let header_bytes = serde_json::to_vec(&value).unwrap();
    let mut out = Vec::new();
    out.extend_from_slice(&(header_bytes.len() as u64).to_le_bytes());
    out.extend_from_slice(&header_bytes);
    out.extend_from_slice(&[0_u8; 100]);
    out
}

fn sibling(filename: &str, size: u64) -> SiblingFile {
    SiblingFile {
        filename: filename.to_string(),
        size: Some(size),
    }
}

#[test]
fn pick_sample_shard_matches_python_preference_order() {
    let single = vec![
        sibling("model-00001-of-00010.safetensors", 1000),
        sibling("model.safetensors", 100),
        sibling("config.json", 10),
    ];
    assert_eq!(
        pick_sample_shard(&single).unwrap().filename,
        "model.safetensors"
    );

    let shuffled = vec![
        sibling("model-00003-of-00010.safetensors", 1000),
        sibling("model-00001-of-00010.safetensors", 1000),
        sibling("model-00002-of-00010.safetensors", 1000),
    ];
    assert_eq!(
        pick_sample_shard(&shuffled).unwrap().filename,
        "model-00002-of-00010.safetensors"
    );

    let even = (1..47)
        .map(|idx| sibling(&format!("model-{idx:05}-of-00046.safetensors"), 1000))
        .collect::<Vec<_>>();
    assert_eq!(
        pick_sample_shard(&even).unwrap().filename,
        "model-00024-of-00046.safetensors"
    );

    assert!(pick_sample_shard(&vec![sibling("pytorch_model.bin", 1000)]).is_none());
}

#[test]
fn pick_sample_shard_takes_the_first_of_equal_names() {
    let singles = vec![
        sibling("model.safetensors", 1),
        sibling("a.safetensors", 5),
        sibling("model.safetensors", 2),
    ];
    assert_eq!(pick_sample_shard(&singles).unwrap().size, Some(1));

    let shards = vec![
        sibling("b.safetensors", 3),
        sibling("a.safetensors", 1),
        sibling("b.safetensors", 2),
    ];
    let picked = pick_sample_shard(&shards).unwrap();
    assert_eq!(picked.filename, "b.safetensors");
    assert_eq!(picked.size, Some(3));
}

#[test]
fn parse_header_returns_tensor_dtype_map() {
    let content = build_safetensors_bytes(
        r#"{
        "__metadata__": {"format": "pt"},
        "model.layers.0.weight": {
            "dtype": "F8_E4M3",
            "shape": [4096, 4096],
            "data_offsets": [0, 16777216]
        },
        "model.norm.weight": {
            "dtype": "BF16",
            "shape": [4096],
            "data_offsets": [16777216, 16785408]
        },
        "missing_dtype": {"shape": [1], "data_offsets": [0, 1]},
        "not_an_object": "F16"
    }"#,
    );

    let dtypes = parse_header(&content).unwrap();
    let expected = HashMap::from([
        ("model.layers.0.weight".to_string(), "F8_E4M3".to_string()),
        ("model.norm.weight".to_string(), "BF16".to_string()),
    ]);
    assert_eq!(dtypes, expected);
}

#[test]
fn parse_header_malformed_inputs_return_none() {
    assert!(parse_header(b"abc").is_none());

    let mut oversized_claim = Vec::new();
    oversized_claim.extend_from_slice(&10_000_000_u64.to_le_bytes());
    oversized_claim.extend_from_slice(b"{}{}{}");
    assert!(parse_header(&oversized_claim).is_none());

    let mut absurd = Vec::new();
    absurd.extend_from_slice(&(100_u64 * 1024 * 1024).to_le_bytes());
    absurd.extend_from_slice(b"{}");
    assert!(parse_header(&absurd).is_none());

    let mut zero = Vec::new();
    zero.extend_from_slice(&0_u64.to_le_bytes());
    zero.extend_from_slice(b"{}");
    assert!(parse_header(&zero).is_none());

    let bad_json = b"{ not valid json";
    let mut malformed_json = Vec::new();
    malformed_json.extend_from_slice(&(bad_json.len() as u64).to_le_bytes());
    malformed_json.extend_from_slice(bad_json);
    malformed_json.extend_from_slice(&[0_u8; 10]);
    assert!(parse_header(&malformed_json).is_none());

    assert!(parse_header(&build_safetensors_bytes("{}")).is_none());
    assert!(parse_header(&build_safetensors_bytes("[]")).is_none());
}

#[test]
fn header_span_reads_the_little_endian_length() {
    let mut content = vec![5, 0, 0, 0, 0, 0, 0, 0];
    content.extend_from_slice(b"{\"a\"}xyz");
    assert_eq!(header_span(&content), Some((8, 13)));
    let mut short = vec![0, 1, 0, 0, 0, 0, 0, 0];
    short.extend_from_slice(b"{}");
    assert_eq!(header_span(&short), None);
}

#[test]
fn fetch_tensor_dtypes_modelscope_range_gets_and_parses_header() {
    let request = build_request(
        "modelscope",
        "deepseek-ai/DeepSeek-V4-Flash",
        "master",
        "model-00024-of-00046.safetensors",
        None,
        None,
    )
    .unwrap();
    assert_eq!(
        request.url,
        "https://www.modelscope.cn/api/v1/models/deepseek-ai/DeepSeek-V4-Flash/repo"
    );
    assert!(request.params.contains(&(
        "FilePath".to_string(),
        "model-00024-of-00046.safetensors".to_string()
    )));
    assert!(request.params.contains(&("Revision".to_string(), "master".to_string())));
    let headers: HashMap<String, String> = request.headers.into_iter().collect();
    assert_eq!(headers.get("Range").map(String::as_str), Some("bytes=0-16777215"));
    assert_eq!(headers.get("User-Agent").map(String::as_str), Some("llm-infer-cal/0.1"));
    assert_eq!(headers.get("Accept").map(String::as_str), Some("*/*"));
    assert!(!headers.contains_key("Authorization"));

    let content = build_safetensors_bytes(
        r#"{
        "model.layers.0.mlp.experts.0.down_proj.weight": {"dtype": "I8", "shape": [1], "data_offsets": [0, 1]},
        "model.layers.0.mlp.experts.0.down_proj.weight_scale_inv": {"dtype": "F8_E8M0", "shape": [1], "data_offsets": [1, 2]}
    }"#,
    );
    let dtypes = parse_header(&content).unwrap();
    assert_eq!(dtypes["model.layers.0.mlp.experts.0.down_proj.weight"], "I8");
    assert_eq!(dtypes["model.layers.0.mlp.experts.0.down_proj.weight_scale_inv"], "F8_E8M0");
}

#[test]
fn huggingface_request_uses_resolve_path_and_token() {
    let request = build_request(
        "huggingface",
        "org/model",
        "abc123",
        "model-00001.safetensors",
        Some("https://mirror.example/"),
        Some("tok"),
    )
    .unwrap();
    assert_eq!(request.url, "https://mirror.example/org/model/resolve/abc123/model-00001.safetensors");
    assert_eq!(request.headers[0], ("Authorization".to_string(), "Bearer tok".to_string()));
    assert!(request.params.is_empty());
    assert!(build_request("builtin", "a", "b", "c", None, None).is_none());
}
