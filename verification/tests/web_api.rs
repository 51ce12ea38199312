use llm_infer_cal_core::api::{
    check_request, gpu_vendor, request_nonempty, requested_gpus, reviewer_env_from_request_with_base,
    status_for_source_error, to_ascii_upper, ReviewOverrides,
};
use llm_infer_cal_core::reviewer::EnvConfig;
use llm_infer_cal_core::sources::{AuthRequiredError, ModelNotFoundError, ModelSourceError, SourceUnavailableError};

fn empty_env() -> EnvConfig {
    EnvConfig { api_key: None, base_url: None, model: None }
}

fn request_with_review_config(api_key: Option<&str>, base_url: Option<&str>, model: Option<&str>) -> ReviewOverrides {
    ReviewOverrides {
        llm_review_api_key: api_key.map(ToOwned::to_owned),
        llm_review_base_url: base_url.map(ToOwned::to_owned),
        llm_review_model: model.map(ToOwned::to_owned),
    }
}

#[test]
fn reviewer_env_uses_request_scoped_llm_config() {
    let req = request_with_review_config(Some(" sk-test "), Some(" https://api.deepseek.com/v1/ "), Some(" deepseek-chat "));

    let env = reviewer_env_from_request_with_base(&req, empty_env());

    assert_eq!(env.api_key.as_deref(), Some("sk-test"));
    assert_eq!(env.base_url.as_deref(), Some("https://api.deepseek.com/v1/"));
    assert_eq!(env.model.as_deref(), Some("deepseek-chat"));
}

#[test]
fn reviewer_env_ignores_blank_request_scoped_llm_config() {
    let req = request_with_review_config(Some(" "), None, Some("\t"));

    let env = reviewer_env_from_request_with_base(&req, empty_env());

    assert_eq!(env.api_key, None);
    assert_eq!(env.base_url, None);
    assert_eq!(env.model, None);
}

#[test]
fn reviewer_env_falls_back_to_base_config() {
    let req = request_with_review_config(None, None, None);

    let env = reviewer_env_from_request_with_base(
        &req,
        EnvConfig {
            api_key: Some("sk-env".to_string()),
            base_url: Some("https://api.openai.com/v1".to_string()),
            model: Some("gpt-4o".to_string()),
        },
    );

    assert_eq!(env.api_key.as_deref(), Some("sk-env"));
    assert_eq!(env.base_url.as_deref(), Some("https://api.openai.com/v1"));
    assert_eq!(env.model.as_deref(), Some("gpt-4o"));
}

#[test]
fn gpu_vendors_by_id_and_prefix() {
    assert_eq!(gpu_vendor("h100"), ("NVIDIA", "NVIDIA"));
    assert_eq!(gpu_vendor("A100-80G"), ("NVIDIA", "NVIDIA"));
    assert_eq!(gpu_vendor("RTX4090"), ("NVIDIA", "NVIDIA"));
    assert_eq!(gpu_vendor("MI300X"), ("AMD", "AMD"));
    assert_eq!(gpu_vendor("gaudi3"), ("Intel Habana", "英特尔 Habana"));
    assert_eq!(gpu_vendor("910B"), ("Huawei Ascend", "华为昇腾"));
    assert_eq!(gpu_vendor("Atlas-300"), ("Huawei Ascend", "华为昇腾"));
    assert_eq!(gpu_vendor("BI-V150"), ("Iluvatar 天数智芯", "天数智芯 Iluvatar"));
    assert_eq!(gpu_vendor("BR104"), ("Biren 壁仞", "壁仞 Biren"));
    assert_eq!(gpu_vendor("MTT-S4000"), ("Moore Threads 摩尔线程", "摩尔线程 Moore Threads"));
    assert_eq!(gpu_vendor("MLU590"), ("Cambricon 寒武纪", "寒武纪 Cambricon"));
    assert_eq!(gpu_vendor("H30"), ("Other", "其他"));
    assert_eq!(to_ascii_upper("a100-ß"), "A100-ß");
}

#[test]
fn comparison_gpus_are_trimmed_deduplicated_and_bounded() {
    assert_eq!(requested_gpus("H100", &None), Ok(vec!["H100".to_string()]));
    let listed = Some(vec![" H800 ".to_string(), "".to_string(), "H800".to_string(), "B200".to_string()]);
    assert_eq!(requested_gpus("H100", &listed), Ok(vec!["H800".to_string(), "B200".to_string()]));
    assert_eq!(requested_gpus("  ", &None), Err("gpu is required".to_string()));
    let many = Some((0..65).map(|i| format!("G{i}")).collect::<Vec<_>>());
    assert_eq!(requested_gpus("H100", &many), Err("gpus accepts at most 64 items for comparison".to_string()));
    let sixty_four = Some((0..64).map(|i| format!("G{i}")).collect::<Vec<_>>());
    assert_eq!(requested_gpus("H100", &sixty_four).map(|v| v.len()), Ok(64));
}

#[test]
fn request_checks_and_error_statuses() {
    assert_eq!(check_request(" ", "zh", None, None).as_deref(), Some("model_id is required"));
    assert_eq!(check_request("m", "fr", None, None).as_deref(), Some("lang must be en or zh"));
    assert_eq!(check_request("m", "en", Some(0), None).as_deref(), Some("kv_cache_bits must be greater than 0"));
    assert_eq!(
        check_request("m", "en", Some(8), Some(0)).as_deref(),
        Some("target_concurrent_requests must be greater than 0")
    );
    assert_eq!(check_request("m", "zh", Some(8), Some(2)), None);
    assert_eq!(request_nonempty(&Some("  x ".to_string())).as_deref(), Some("x"));
    assert_eq!(
        status_for_source_error(&ModelSourceError::AuthRequired(AuthRequiredError("a".to_string()))),
        401
    );
    assert_eq!(status_for_source_error(&ModelSourceError::NotFound(ModelNotFoundError("n".to_string()))), 404);
    assert_eq!(
        status_for_source_error(&ModelSourceError::SourceUnavailable(SourceUnavailableError("u".to_string()))),
        502
    );
}
