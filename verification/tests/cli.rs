use llm_infer_cal_core::benchmark::{CheckResult, Status};
use llm_infer_cal_core::cli::{
    check_integer_flags, completion_install_text, completion_script, default_completion_shell,
    handle_completion_args, help_requested, help_text, read_completion_shell, render_benchmark_results_text,
    source_error_exit, source_kind, unknown_source_message, with_newline, CliExit, SourceKind,
};
use llm_infer_cal_core::i18n::{set_locale, LocaleState};
use llm_infer_cal_core::sources::{AuthRequiredError, ModelNotFoundError, ModelSourceError, SourceUnavailableError};

const USAGE_OPTIONS: &[&str] = &[
    "--gpu",
    "--engine",
    "--gpu-count",
    "--context-length",
    "--refresh",
    "--timeout-s",
    "--lang",
    "--list-gpus",
    "--benchmark",
    "--input-tokens",
    "--output-tokens",
    "--target-tokens-per-sec",
    "--prefill-util",
    "--decode-bw-util",
    "--concurrency-degradation",
    "--kv-cache-bits",
    "--paged-attention",
    "--target-concurrency",
    "--speculative-draft-model",
    "--speculative-extra-weight-gb",
    "--cpu-offload-gb",
    "--explain",
    "--llm-review",
    "--source",
    "--format",
    "--json",
    "--install-completion",
    "--show-completion",
    "--help",
];

fn args(list: &[&str]) -> Vec<String> {
    list.iter().map(|s| s.to_string()).collect()
}

#[test]
fn completion_commands_are_stable_without_shell_detection() {
    let show = handle_completion_args(&args(&["llm-infer-cal", "--show-completion", "zsh"]), "bash").unwrap();
    let install = handle_completion_args(&args(&["llm-infer-cal", "--install-completion", "zsh"]), "bash").unwrap();

    assert_eq!(show.code, 0);
    assert!(show.stderr.is_empty());
    assert!(show.stdout.contains("#compdef llm-infer-cal"));
    assert!(show.stdout.contains("--gpu-count"));
    assert!(!show.stdout.contains("llm-cal"));

    assert_eq!(install.code, 0);
    assert!(install.stderr.is_empty());
    assert!(install.stdout.contains("Completion install instructions for zsh"));
    assert!(install.stdout.contains("#compdef llm-infer-cal"));
    assert!(!install.stdout.contains("llm-cal"));
}

#[test]
fn unknown_source_returns_localized_error() {
    let mut state = LocaleState::new();
    set_locale(&mut state, "zh");
    assert!(source_kind("mirror").is_none());
    let exit = CliExit::err(1, unknown_source_message(&state, "mirror"));

    assert_eq!(exit.code, 1);
    assert!(exit.stdout.is_empty());
    assert!(exit.stderr.contains("未知 --source 'mirror'。请使用 'builtin'、'huggingface' 或 'modelscope'。"));
    assert!(!exit.stderr.contains("Unknown --source"));
}

#[test]
fn help_exposes_cli_flags() {
    assert!(help_requested(&args(&["llm-infer-cal", "--help"])));
    let exit = CliExit::ok(help_text().to_string());

    assert_eq!(exit.code, 0);
    assert!(exit.stderr.is_empty());
    assert!(exit.stdout.contains("Usage: llm-infer-cal"));
    assert!(!exit.stdout.contains("Usage: llm-cal"));
    for option in USAGE_OPTIONS {
        assert!(exit.stdout.contains(option), "missing {option} in help");
    }
}

#[test]
fn help_is_printed_only_when_asked_or_without_arguments() {
    assert!(help_requested(&args(&["llm-infer-cal"])));
    assert!(help_requested(&args(&["llm-infer-cal", "m", "-h"])));
    assert!(!help_requested(&args(&["llm-infer-cal", "m", "--gpu", "H800"])));
    assert!(!help_requested(&args(&["-h", "m"])));
}

#[test]
fn source_names_are_case_insensitive_aliases() {
    assert_eq!(source_kind("builtin"), Some(SourceKind::Builtin));
    assert_eq!(source_kind("HF"), Some(SourceKind::HuggingFace));
    assert_eq!(source_kind("HuggingFace"), Some(SourceKind::HuggingFace));
    assert_eq!(source_kind("ms"), Some(SourceKind::ModelScope));
    assert_eq!(source_kind("ModelScope"), Some(SourceKind::ModelScope));
    assert_eq!(source_kind("hub"), None);
}

#[test]
fn fetch_errors_map_to_exit_codes() {
    let state = LocaleState::new();
    let auth = source_error_exit(&state, &ModelSourceError::AuthRequired(AuthRequiredError("need token".to_string())));
    assert_eq!(auth.code, 2);
    assert!(auth.stderr.ends_with(" need token\n"));
    let missing = source_error_exit(&state, &ModelSourceError::NotFound(ModelNotFoundError("gone".to_string())));
    assert_eq!(missing.code, 3);
    assert!(missing.stdout.is_empty());
    let down = source_error_exit(
        &state,
        &ModelSourceError::SourceUnavailable(SourceUnavailableError("down".to_string())),
    );
    assert_eq!(down.code, 4);
    assert!(down.stderr.ends_with(" down\n"));
}

#[test]
fn integer_flags_must_be_positive() {
    assert_eq!(check_integer_flags(0, None).as_deref(), Some("--kv-cache-bits must be greater than 0.\n"));
    assert_eq!(
        check_integer_flags(16, Some(0)).as_deref(),
        Some("--target-concurrent-requests must be greater than 0.\n")
    );
    assert_eq!(check_integer_flags(16, Some(4)), None);
}

#[test]
fn completion_scripts_cover_each_shell() {
    let bash = completion_script("bash").unwrap();
    assert!(bash.starts_with("_llm_infer_cal_completion() {\n  local cur\n"));
    assert!(bash.contains("compgen -W \"--gpu --engine --gpu-count"));
    assert!(bash.ends_with("complete -F _llm_infer_cal_completion llm-infer-cal\n"));
    let fish = completion_script("fish").unwrap();
    assert!(fish.starts_with("complete -c llm-infer-cal -l gpu\ncomplete -c llm-infer-cal -l engine\n"));
    assert_eq!(fish.lines().count(), 38);
    let pwsh = completion_script("pwsh").unwrap();
    assert_eq!(pwsh, completion_script("powershell").unwrap());
    assert!(pwsh.contains("@('--gpu', '--engine', "));
    let zsh = completion_script("zsh").unwrap();
    assert!(zsh.contains("  options=(\n    '--gpu'\n    '--engine'\n"));
    assert_eq!(
        completion_script("tcsh"),
        Err("Unsupported shell 'tcsh'. Use bash, zsh, fish, or powershell.".to_string())
    );
    assert_eq!(
        completion_install_text("fish", "X"),
        "Completion install instructions for fish:\n\nX\nAdd the script above to your shell completion setup, then restart the terminal.\n"
    );
}

#[test]
fn completion_shell_is_read_from_the_arguments() {
    let a = args(&["llm-infer-cal", "--show-completion=BASH"]);
    assert_eq!(read_completion_shell(&a, "--show-completion", "zsh").as_deref(), Some("bash"));
    let a = args(&["llm-infer-cal", "--show-completion", "--json"]);
    assert_eq!(read_completion_shell(&a, "--show-completion", "fish").as_deref(), Some("fish"));
    let a = args(&["llm-infer-cal", "--show-completion"]);
    assert_eq!(read_completion_shell(&a, "--show-completion", "zsh").as_deref(), Some("zsh"));
    let a = args(&["--show-completion", "bash"]);
    assert_eq!(read_completion_shell(&a, "--show-completion", "zsh"), None);
    let bad = handle_completion_args(&args(&["x", "--install-completion", "tcsh"]), "zsh").unwrap();
    assert_eq!(bad.code, 1);
    assert_eq!(bad.stderr, "Unsupported shell 'tcsh'. Use bash, zsh, fish, or powershell.\n");
    assert!(handle_completion_args(&args(&["x", "model"]), "zsh").is_none());
}

#[test]
fn default_shell_comes_from_the_environment_value() {
    assert_eq!(default_completion_shell(Some("/usr/bin/FISH")), "fish");
    assert_eq!(default_completion_shell(Some("/bin/bash")), "bash");
    assert_eq!(default_completion_shell(Some("/bin/tcsh")), "zsh");
    assert_eq!(default_completion_shell(None), "zsh");
}

#[test]
fn output_ends_with_a_single_newline() {
    assert_eq!(with_newline("a".to_string()), "a\n");
    assert_eq!(with_newline("a\n".to_string()), "a\n");
    assert_eq!(with_newline(String::new()), "\n");
}

#[test]
fn benchmark_table_names_each_entry_once() {
    let results = vec![
        CheckResult::new("e1", "quantization", Status::Pass, "FP8", "FP8", "s"),
        CheckResult::new("e1", "is_moe", Status::Fail, "false", "True", "s"),
        CheckResult::new("e2", "weight_bytes", Status::Skip, "(evaluation failed)", "[1, +∞]", "s"),
    ];
    let text = render_benchmark_results_text(&results);
    let lines: Vec<&str> = text.lines().collect();
    assert_eq!(lines[0], "Benchmark results");
    assert_eq!(lines[1], "entry | field | predicted | expected | status");
    assert_eq!(lines[2], "e1 | quantization | FP8 | FP8 | PASS");
    assert_eq!(lines[3], " | is_moe | false | True | FAIL");
    assert_eq!(lines[4], "e2 | weight_bytes | (evaluation failed) | [1, +∞] | SKIP");
    assert_eq!(lines[5], "Total: 3   PASS: 1   FAIL: 1   SKIP: 1");
    assert!(lines[6].starts_with("Failures show"));
    let ok = render_benchmark_results_text(&vec![CheckResult::new("e", "f", Status::Pass, "", "", "s")]);
    assert!(ok.ends_with("Total: 1   PASS: 1   FAIL: 0   SKIP: 0"));
}
