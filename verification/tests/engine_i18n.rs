use llm_infer_cal_core::engine_compat::{
    find_match, lower_bound_key, version_matches, EngineCompatEntry, EngineCompatMatrix, Version,
};
use llm_infer_cal_core::i18n::{
    detect_locale_from_env_values, get_locale, set_locale, t, t_with, LocaleState,
};

fn entry(engine: &str, model_type: &str, version_spec: &str, support: &str) -> EngineCompatEntry {
    EngineCompatEntry {
        engine: engine.to_string(),
        version_spec: version_spec.to_string(),
        matches_model_type: model_type.to_string(),
        support: support.to_string(),
        verification_level: "cited".to_string(),
        required_flags: Vec::new(),
        optional_flags: Vec::new(),
        sources: Vec::new(),
        caveats_en: Vec::new(),
        caveats_zh: Vec::new(),
        env: Vec::new(),
    }
}

fn matrix() -> EngineCompatMatrix {
    EngineCompatMatrix {
        schema_version: 2,
        entries: vec![
            entry("vllm", "deepseek_v4", ">=0.19.0", "full"),
            entry("sglang", "deepseek_v4", ">=0.5.0", "unverified"),
            entry("vllm", "llama", ">=0.4.0", "partial"),
            entry("vllm", "llama", ">=0.6.0, <1.0", "full"),
        ],
    }
}

#[test]
fn engine_find_match_respects_version_and_case_like_rust_contract() {
    let m = matrix();
    let current = find_match("VLLM", "DEEPSEEK_V4", Some("0.19.0"), &m).unwrap();
    let older = find_match("vllm", "deepseek_v4", Some("0.18.0"), &m);
    let invalid = find_match("vllm", "deepseek_v4", Some("not-a-version"), &m).unwrap();
    let unknown = find_match("vllm", "brand_new_model_type_2030", None, &m);

    assert_eq!(current.engine, "vllm");
    assert!(older.is_none());
    assert_eq!(invalid.matches_model_type, "deepseek_v4");
    assert!(unknown.is_none());
}

#[test]
fn engine_find_match_returns_highest_lower_bound_when_version_is_absent() {
    let m = matrix();
    let entry = find_match("vllm", "llama", None, &m).unwrap();

    assert_eq!(entry.engine, "vllm");
    assert_eq!(entry.matches_model_type, "llama");
    assert_eq!(entry.support, "full");
}

#[test]
fn version_parsing_and_ranges() {
    let v = Version::parse(" v0.19.2 ").unwrap();
    assert_eq!((v.major, v.minor, v.patch), (0, 19, 2));
    let short = Version::parse("1").unwrap();
    assert_eq!((short.major, short.minor, short.patch), (1, 0, 0));
    assert!(Version::parse("not-a-version").is_none());
    assert!(version_matches(v, ">=0.19.0, <0.20"));
    assert!(!version_matches(v, ">0.19.2"));
    assert!(version_matches(v, "==0.19.2"));
    assert!(!version_matches(v, "~0.19"));
    assert!(version_matches(v, ""));
    let key = lower_bound_key("<1.0, >=0.6.1");
    assert_eq!((key.major, key.minor, key.patch), (0, 6, 1));
    let none = lower_bound_key("<1.0");
    assert_eq!((none.major, none.minor, none.patch), (0, 0, 0));
}

#[test]
fn i18n_translates_unknown_keys_and_templates_like_rust_contract() {
    let mut state = LocaleState::new();
    let original = get_locale(&state);

    set_locale(&mut state, "en");
    assert_eq!(t(&state, "section.architecture"), "Architecture");
    assert_eq!(t(&state, "this.key.does.not.exist"), "this.key.does.not.exist");

    let args = vec![
        ("variant".to_string(), "CSA_HCA".to_string()),
        ("heads".to_string(), "64".to_string()),
        ("kv_heads".to_string(), "1".to_string()),
        ("head_dim".to_string(), "512".to_string()),
    ];
    let en = t_with(&state, "arch.attn_summary", &args);
    assert!(en.contains("CSA_HCA"));
    assert!(en.contains("heads=64"));

    set_locale(&mut state, "zh");
    assert_eq!(t(&state, "section.architecture"), "架构");
    assert_eq!(t(&state, "section.weights"), "权重");
    assert_eq!(t(&state, "section.kv_cache"), "单请求 KV Cache（BF16/FP16）");
    let zh = t_with(&state, "arch.attn_summary", &args);
    assert!(zh.contains("CSA_HCA"));
    assert!(zh.contains('（'));

    set_locale(&mut state, original.as_str());
    assert_eq!(get_locale(&state), "en");
}

#[test]
fn i18n_detects_locale_from_env_order_like_rust_contract() {
    assert_eq!(
        detect_locale_from_env_values(&[
            ("LC_ALL", Some("zh_TW.UTF-8")),
            ("LC_MESSAGES", None),
            ("LANG", Some("en_US.UTF-8")),
        ]),
        "zh"
    );
    assert_eq!(
        detect_locale_from_env_values(&[
            ("LC_ALL", None),
            ("LC_MESSAGES", None),
            ("LANG", Some("zh_CN.UTF-8")),
        ]),
        "zh"
    );
    assert_eq!(
        detect_locale_from_env_values(&[
            ("LC_ALL", None),
            ("LC_MESSAGES", None),
            ("LANG", Some("en_US.UTF-8")),
        ]),
        "en"
    );
    assert_eq!(
        detect_locale_from_env_values(&[("LC_ALL", None), ("LC_MESSAGES", None), ("LANG", None),]),
        "en"
    );
}

#[test]
fn set_locale_normalizes_unknown_languages_to_english() {
    let mut state = LocaleState::new();
    set_locale(&mut state, "fr");
    assert_eq!(get_locale(&state), "en");
    set_locale(&mut state, "zh");
    assert_eq!(get_locale(&state), "zh");
}
