//! Message catalogue in English and Chinese, the current locale, and
//! `{name}` template filling.
use vstd::prelude::*;
use crate::text::{chars_of, matches_at, spec_to_lowercase, seq_starts_with, starts_with, str_eq, to_lowercase, occurs_at};

verus! {

/// The (English, Chinese) text of a message key.
pub open spec fn message_text(key: Seq<char>) -> Option<(Seq<char>, Seq<char>)> {
    if key == "cli.help"@ {
        Some(("LLM inference hardware calculator."@, "大模型推理硬件计算器。"@))
    } else if key == "cli.arg.model_id"@ {
        Some(("HuggingFace or ModelScope model id"@, "HuggingFace 或 ModelScope 的 model id"@))
    } else if key == "cli.opt.gpu"@ {
        Some(("GPU type, e.g. H800, A100-80G"@, "GPU 型号，例如 H800、A100-80G"@))
    } else if key == "cli.opt.engine"@ {
        Some(("Inference engine: vllm | sglang"@, "推理引擎：vllm | sglang"@))
    } else if key == "cli.opt.gpu_count"@ {
        Some(("Force GPU count (otherwise tool recommends min/dev/prod)"@, "强制指定 GPU 张数（默认由工具推荐 min/dev/prod 三档）"@))
    } else if key == "cli.opt.context_length"@ {
        Some(("Context length for KV cache estimation"@, "用于 KV cache 估算的上下文长度"@))
    } else if key == "cli.opt.refresh"@ {
        Some(("Bypass cache and re-fetch"@, "绕过缓存重新拉取"@))
    } else if key == "cli.opt.lang"@ {
        Some(("Output language: en | zh"@, "输出语言：en | zh"@))
    } else if key == "panel.via"@ {
        Some(("via"@, "来源"@))
    } else if key == "section.architecture"@ {
        Some(("Architecture"@, "架构"@))
    } else if key == "section.weights"@ {
        Some(("Weights"@, "权重"@))
    } else if key == "section.kv_cache"@ {
        Some(("KV cache per request (BF16/FP16)"@, "单请求 KV Cache（BF16/FP16）"@))
    } else if key == "section.reconciliation"@ {
        Some(("Quantization reconciliation (observed vs predicted per scheme)"@, "量化方案对账（观测值 vs 各方案预测值）"@))
    } else if key == "section.engine_compat"@ {
        Some(("Engine compatibility"@, "推理引擎兼容性"@))
    } else if key == "section.hardware"@ {
        Some(("Target hardware"@, "目标硬件"@))
    } else if key == "section.labels"@ {
        Some(("labels:"@, "标签："@))
    } else if key == "section.fleet"@ {
        Some(("Recommended fleet"@, "推荐 GPU 张数"@))
    } else if key == "section.command"@ {
        Some(("Generated command"@, "生成的启动命令"@))
    } else if key == "section.performance"@ {
        Some(("Performance analysis"@, "性能分析"@))
    } else if key == "section.explain"@ {
        Some(("Full derivation traces (--explain)"@, "完整推导链（--explain）"@))
    } else if key == "section.llm_review"@ {
        Some(("LLM second opinion (--llm-review, EXPERIMENTAL)"@, "LLM 审阅（--llm-review，实验性）"@))
    } else if key == "weights.safetensors_bytes"@ {
        Some(("safetensors bytes"@, "safetensors 总字节"@))
    } else if key == "weights.params_estimated"@ {
        Some(("estimated total params"@, "参数量（估算）"@))
    } else if key == "weights.bits_per_param"@ {
        Some(("bits/param"@, "每参数位数"@))
    } else if key == "weights.quant_guess"@ {
        Some(("quantization guess"@, "量化方案推断"@))
    } else if key == "arch.model_type"@ {
        Some(("model_type"@, "模型类型"@))
    } else if key == "arch.family"@ {
        Some(("family"@, "架构族"@))
    } else if key == "arch.confidence"@ {
        Some(("confidence"@, "识别置信度"@))
    } else if key == "arch.layers"@ {
        Some(("layers"@, "层数"@))
    } else if key == "arch.hidden_size"@ {
        Some(("hidden_size"@, "隐藏维度"@))
    } else if key == "arch.vocab_size"@ {
        Some(("vocab_size"@, "词表大小"@))
    } else if key == "arch.attention"@ {
        Some(("attention"@, "注意力机制"@))
    } else if key == "arch.compress_ratios"@ {
        Some(("compress_ratios"@, "压缩比数组"@))
    } else if key == "arch.moe"@ {
        Some(("moe"@, "MoE"@))
    } else if key == "arch.sliding_window"@ {
        Some(("sliding_window"@, "滑动窗口"@))
    } else if key == "arch.max_position"@ {
        Some(("max_position_embeddings"@, "最大上下文长度"@))
    } else if key == "arch.none"@ {
        Some(("(none)"@, "（无）"@))
    } else if key == "arch.attn_summary"@ {
        Some(("{variant} (heads={heads}, kv_heads={kv_heads}, head_dim={head_dim})"@, "{variant}（heads={heads}，kv_heads={kv_heads}，head_dim={head_dim}）"@))
    } else if key == "arch.compress_ratios_summary"@ {
        Some(("len={n}, dense_layers={dense}"@, "长度={n}，dense 层数={dense}"@))
    } else if key == "arch.moe_summary"@ {
        Some(("{routed} routed + {shared} shared, top-{topk}"@, "{routed} 个 routed + {shared} 个 shared，top-{topk}"@))
    } else if key == "arch.unsupported_state_space"@ {
        Some(("State-space models are not supported in v0.1 (planned for v0.3+)."@, "状态空间模型（Mamba 类）在 v0.1 暂不支持，计划在 v0.3+ 加入。"@))
    } else if key == "recon.scheme"@ {
        Some(("scheme"@, "量化方案"@))
    } else if key == "recon.predicted"@ {
        Some(("predicted bytes"@, "预测字节"@))
    } else if key == "recon.delta"@ {
        Some(("delta"@, "差值"@))
    } else if key == "recon.error_pct"@ {
        Some(("error %"@, "误差 %"@))
    } else if key == "recon.over"@ {
        Some(("over"@, "偏高"@))
    } else if key == "recon.under"@ {
        Some(("under"@, "偏低"@))
    } else if key == "recon.best"@ {
        Some(("best match:"@, "最佳匹配："@))
    } else if key == "kv.context"@ {
        Some(("context"@, "上下文"@))
    } else if key == "kv.kv_cache"@ {
        Some(("KV cache"@, "KV Cache"@))
    } else if key == "kv.label"@ {
        Some(("label"@, "标签"@))
    } else if key == "kv.tokens"@ {
        Some(("tokens"@, "tokens"@))
    } else if key == "engine.version_spec"@ {
        Some(("version"@, "版本要求"@))
    } else if key == "engine.support"@ {
        Some(("support"@, "支持程度"@))
    } else if key == "engine.verification"@ {
        Some(("verification"@, "验证等级"@))
    } else if key == "engine.required_flags"@ {
        Some(("required flags"@, "必需参数"@))
    } else if key == "engine.optional_flags"@ {
        Some(("optional flags"@, "可选参数"@))
    } else if key == "engine.caveats"@ {
        Some(("caveats"@, "注意事项"@))
    } else if key == "engine.sources"@ {
        Some(("sources"@, "来源"@))
    } else if key == "engine.no_match"@ {
        Some(("No compatibility entry for this model + engine in v0.1 matrix."@, "v0.1 兼容矩阵中暂无此模型 + 引擎的条目。"@))
    } else if key == "hw.memory"@ {
        Some(("memory"@, "显存"@))
    } else if key == "hw.nvlink_bandwidth"@ {
        Some(("NVLink bandwidth"@, "NVLink 带宽"@))
    } else if key == "hw.fp16_tflops"@ {
        Some(("FP16 TFLOPS"@, "FP16 算力"@))
    } else if key == "hw.fp8_support"@ {
        Some(("FP8 support"@, "FP8 支持"@))
    } else if key == "hw.fp4_support"@ {
        Some(("FP4 support"@, "FP4 支持"@))
    } else if key == "hw.notes"@ {
        Some(("notes"@, "备注"@))
    } else if key == "hw.spec_source"@ {
        Some(("spec source"@, "规格来源"@))
    } else if key == "hw.bool_yes"@ {
        Some(("yes"@, "是"@))
    } else if key == "hw.bool_no"@ {
        Some(("no"@, "否"@))
    } else if key == "gpus.list.title"@ {
        Some(("Supported GPUs"@, "支持的 GPU"@))
    } else if key == "gpus.col.id"@ {
        Some(("id"@, "型号"@))
    } else if key == "gpus.col.memory"@ {
        Some(("memory"@, "显存"@))
    } else if key == "gpus.col.nvlink"@ {
        Some(("NVLink / fabric"@, "互联带宽"@))
    } else if key == "gpus.col.fp16"@ {
        Some(("FP16 TFLOPS"@, "FP16"@))
    } else if key == "gpus.col.fp8"@ {
        Some(("FP8"@, "FP8"@))
    } else if key == "gpus.col.fp4"@ {
        Some(("FP4"@, "FP4"@))
    } else if key == "gpus.col.aliases"@ {
        Some(("aliases"@, "别名"@))
    } else if key == "gpus.total"@ {
        Some(("Total: {count} GPUs (pass any id or alias to --gpu)"@, "共 {count} 款（--gpu 后面填 ID 或别名均可）"@))
    } else if key == "hw.unknown"@ {
        Some(("Unknown GPU '{gpu}'. Known: {known}"@, "未知 GPU '{gpu}'。已知型号：{known}"@))
    } else if key == "cli.err.auth_required"@ {
        Some(("Authentication required:"@, "需要认证："@))
    } else if key == "cli.err.model_not_found"@ {
        Some(("Model not found:"@, "模型未找到："@))
    } else if key == "cli.err.source_unavailable"@ {
        Some(("Source unavailable:"@, "数据源不可用："@))
    } else if key == "cli.err.missing_model"@ {
        Some(("Missing argument MODEL_ID. Use --help for usage."@, "缺少参数 MODEL_ID。使用 --help 查看用法。"@))
    } else if key == "cli.err.missing_gpu"@ {
        Some(("Missing option --gpu. Use --list-gpus to see choices."@, "缺少选项 --gpu。使用 --list-gpus 查看可选 GPU。"@))
    } else if key == "cli.err.unknown_source"@ {
        Some(("Unknown --source '{source}'. Use 'builtin', 'huggingface', or 'modelscope'."@, "未知 --source '{source}'。请使用 'builtin'、'huggingface' 或 'modelscope'。"@))
    } else if key == "source.pr"@ {
        Some(("PR"@, "PR"@))
    } else if key == "source.release_notes"@ {
        Some(("release notes"@, "release note"@))
    } else if key == "source.announcement"@ {
        Some(("announcement"@, "官方公告"@))
    } else if key == "source.tested"@ {
        Some(("tested"@, "实测"@))
    } else if key == "source.captured_on"@ {
        Some(("captured on"@, "采集于"@))
    } else if key == "fleet.col.tier"@ {
        Some(("tier"@, "档位"@))
    } else if key == "fleet.col.gpus"@ {
        Some(("GPUs"@, "GPU 数"@))
    } else if key == "fleet.col.weight_per_gpu"@ {
        Some(("weight / GPU"@, "单卡权重"@))
    } else if key == "fleet.col.headroom_per_gpu"@ {
        Some(("headroom / GPU"@, "单卡余量"@))
    } else if key == "fleet.col.fit"@ {
        Some(("fit"@, "评估"@))
    } else if key == "fleet.col.concurrent_at_ctx"@ {
        Some(("concurrent @ {ctx}"@, "并发 @ {ctx}"@))
    } else if key == "fleet.tier.min"@ {
        Some(("min"@, "最小"@))
    } else if key == "fleet.tier.dev"@ {
        Some(("dev"@, "开发"@))
    } else if key == "fleet.tier.prod"@ {
        Some(("prod"@, "生产"@))
    } else if key == "fleet.best_marker"@ {
        Some(("= recommended"@, "= 推荐档位"@))
    } else if key == "fleet.no_recommended_tier"@ {
        Some(("No recommended tier: the model does not fit on the available TP/PP candidates."@, "没有推荐档位：模型无法放入当前 TP/PP 候选配置。"@))
    } else if key == "fleet.constraint"@ {
        Some(("constraint:"@, "约束："@))
    } else if key == "fleet.forced"@ {
        Some(("Forced GPU count (--gpu-count was set)"@, "已强制指定 GPU 张数（--gpu-count）"@))
    } else if key == "fleet.gpu_spec_unknown"@ {
        Some(("Fleet planning skipped - GPU spec unknown."@, "GPU 规格未知，跳过 fleet 规划。"@))
    } else if key == "command.tier_note"@ {
        Some(("tier: {tier} ({gpus} GPUs)"@, "档位：{tier}（{gpus} 张）"@))
    } else if key == "perf.assumptions_note"@ {
        Some(("Assumes input={input_tokens} tokens, output={output_tokens} tokens, target {target_tps} tok/s per user. Utilization: prefill={prefill_util} / decode_bw={decode_util} / concurrency_degradation={degradation}x. All numbers are [estimated] - see docs/methodology.md for formula sources and override via --prefill-util / --decode-bw-util / --concurrency-degradation."@, "假设输入 {input_tokens} tokens、输出 {output_tokens} tokens、每用户目标 {target_tps} tok/s。利用率：prefill={prefill_util} / decode_bw={decode_util} / 并发退化={degradation}x。所有数字都是 [估算] - 公式来源见 docs/methodology.md，可通过 --prefill-util / --decode-bw-util / --concurrency-degradation 覆盖。"@))
    } else if key == "perf.prefill_latency"@ {
        Some(("Prefill latency (single request)"@, "Prefill 延迟（单请求）"@))
    } else if key == "perf.decode_throughput_cluster"@ {
        Some(("Decode throughput (cluster)"@, "Decode 吞吐（集群）"@))
    } else if key == "perf.decode_throughput_per_gpu"@ {
        Some(("Decode throughput (per GPU)"@, "Decode 吞吐（单卡）"@))
    } else if key == "perf.decode_moe_active_optimistic"@ {
        Some(("Decode throughput (MoE active-only, optimistic)"@, "Decode 吞吐（MoE 仅激活专家，乐观估算）"@))
    } else if key == "perf.k_bound"@ {
        Some(("K bound (memory-capacity)"@, "K 上限（显存容量）"@))
    } else if key == "perf.l_bound"@ {
        Some(("L bound (compute / bandwidth @ SLA)"@, "L 上限（算力/带宽 @ SLA）"@))
    } else if key == "perf.max_concurrent"@ {
        Some(("Max concurrent"@, "最大并发"@))
    } else if key == "perf.bottleneck"@ {
        Some(("Bottleneck"@, "瓶颈类型"@))
    } else if key == "perf.bottleneck.memory_capacity"@ {
        Some(("Memory capacity"@, "显存容量"@))
    } else if key == "perf.bottleneck.memory_bandwidth"@ {
        Some(("Memory bandwidth / compute"@, "显存带宽 / 算力"@))
    } else if key == "perf.bottleneck.compute"@ {
        Some(("Compute"@, "算力"@))
    } else if key == "perf.bottleneck.insufficient_data"@ {
        Some(("Insufficient data"@, "数据不足"@))
    } else if key == "perf.optimization.header"@ {
        Some(("Optimization suggestions"@, "优化建议"@))
    } else if key == "perf.opt.quantize_int4"@ {
        Some(("Quantize to INT4: weight bytes halve -> decode tok/s roughly 2x -> concurrency scales accordingly."@, "量化到 INT4：权重字节减半 → decode tok/s 约翻倍 → 并发能力随之提升。"@))
    } else if key == "perf.opt.relax_sla"@ {
        Some(("Relax SLA: if per-user target drops to 15 tok/s, L bound roughly doubles."@, "放宽 SLA：若每用户目标降至 15 tok/s，L 上限约翻倍。"@))
    } else if key == "perf.opt.kv_fp8"@ {
        Some(("KV cache FP8 quantization: halves per-request KV, doubles the K bound at long context."@, "KV cache 量化到 FP8：单请求 KV 减半，长上下文下 K 上限约翻倍。"@))
    } else if key == "perf.opt.moe_offload"@ {
        Some(("MoE expert offload to CPU: frees HBM for more KV cache at the cost of PCIe latency per new expert."@, "MoE 专家卸载到 CPU：释放 HBM 给 KV cache，代价是新专家激活时的 PCIe 延迟。"@))
    } else if key == "explain.formula"@ {
        Some(("Formula"@, "公式"@))
    } else if key == "explain.inputs"@ {
        Some(("Inputs"@, "输入"@))
    } else if key == "explain.steps"@ {
        Some(("Computation"@, "计算步骤"@))
    } else if key == "explain.result"@ {
        Some(("Result"@, "结果"@))
    } else if key == "explain.source"@ {
        Some(("Source"@, "来源"@))
    } else if key == "explain.see_also"@ {
        Some(("See also"@, "延伸阅读"@))
    } else if key == "explain.intro"@ {
        Some(("Each entry below shows the formula used, the inputs that went in, every computation step, and the primary source."@, "下面每一项都给出所用公式、输入、每一步计算、主要来源。"@))
    } else if key == "llm_review.unavailable"@ {
        Some(("LLM review unavailable: {error}"@, "LLM 审阅不可用：{error}"@))
    } else if key == "llm_review.setup_hint"@ {
        Some(("To enable: export LLM_CAL_REVIEWER_API_KEY=<key>  [optional: LLM_CAL_REVIEWER_BASE_URL, LLM_CAL_REVIEWER_MODEL]"@, "启用方法：export LLM_CAL_REVIEWER_API_KEY=<key>  [可选：LLM_CAL_REVIEWER_BASE_URL、LLM_CAL_REVIEWER_MODEL]"@))
    } else if key == "llm_review.disclaimer"@ {
        Some(("This is a second opinion from an external LLM ({model} via {base_url}). It is tagged [llm-opinion] and NEVER overrides the 6 primary labels."@, "以下是来自外部 LLM（{model}，经 {base_url}）的第二意见。标签为 [LLM 观点]，永远不覆盖前 6 级主标签。"@))
    } else if key == "label.verified"@ {
        Some(("verified"@, "已验证"@))
    } else if key == "label.inferred"@ {
        Some(("inferred"@, "推断"@))
    } else if key == "label.estimated"@ {
        Some(("estimated"@, "估算"@))
    } else if key == "label.cited"@ {
        Some(("cited"@, "引用"@))
    } else if key == "label.unverified"@ {
        Some(("unverified"@, "未经验证"@))
    } else if key == "label.unknown"@ {
        Some(("unknown"@, "未知"@))
    } else if key == "label.llm-opinion"@ {
        Some(("llm-opinion"@, "LLM 观点"@))
    } else {
        None
    }
}

pub open spec fn pair_view(p: Option<(&'static str, &'static str)>) -> Option<(Seq<char>, Seq<char>)> {
    match p {
        Some((a, b)) => Some((a@, b@)),
        None => None,
    }
}

/// Looks a message key up in the catalogue.
pub fn message(key: &str) -> (res: Option<(&'static str, &'static str)>)
    ensures
        pair_view(res) == message_text(key@),
{
    if str_eq(key, "cli.help") {
        return Some(("LLM inference hardware calculator.", "大模型推理硬件计算器。"));
    }
    if str_eq(key, "cli.arg.model_id") {
        return Some(("HuggingFace or ModelScope model id", "HuggingFace 或 ModelScope 的 model id"));
    }
    if str_eq(key, "cli.opt.gpu") {
        return Some(("GPU type, e.g. H800, A100-80G", "GPU 型号，例如 H800、A100-80G"));
    }
    if str_eq(key, "cli.opt.engine") {
        return Some(("Inference engine: vllm | sglang", "推理引擎：vllm | sglang"));
    }
    if str_eq(key, "cli.opt.gpu_count") {
        return Some(("Force GPU count (otherwise tool recommends min/dev/prod)", "强制指定 GPU 张数（默认由工具推荐 min/dev/prod 三档）"));
    }
    if str_eq(key, "cli.opt.context_length") {
        return Some(("Context length for KV cache estimation", "用于 KV cache 估算的上下文长度"));
    }
    if str_eq(key, "cli.opt.refresh") {
        return Some(("Bypass cache and re-fetch", "绕过缓存重新拉取"));
    }
    if str_eq(key, "cli.opt.lang") {
        return Some(("Output language: en | zh", "输出语言：en | zh"));
    }
    if str_eq(key, "panel.via") {
        return Some(("via", "来源"));
    }
    if str_eq(key, "section.architecture") {
        return Some(("Architecture", "架构"));
    }
    if str_eq(key, "section.weights") {
        return Some(("Weights", "权重"));
    }
    if str_eq(key, "section.kv_cache") {
        return Some(("KV cache per request (BF16/FP16)", "单请求 KV Cache（BF16/FP16）"));
    }
    if str_eq(key, "section.reconciliation") {
        return Some(("Quantization reconciliation (observed vs predicted per scheme)", "量化方案对账（观测值 vs 各方案预测值）"));
    }
    if str_eq(key, "section.engine_compat") {
        return Some(("Engine compatibility", "推理引擎兼容性"));
    }
    if str_eq(key, "section.hardware") {
        return Some(("Target hardware", "目标硬件"));
    }
    if str_eq(key, "section.labels") {
        return Some(("labels:", "标签："));
    }
    if str_eq(key, "section.fleet") {
        return Some(("Recommended fleet", "推荐 GPU 张数"));
    }
    if str_eq(key, "section.command") {
        return Some(("Generated command", "生成的启动命令"));
    }
    if str_eq(key, "section.performance") {
        return Some(("Performance analysis", "性能分析"));
    }
    if str_eq(key, "section.explain") {
        return Some(("Full derivation traces (--explain)", "完整推导链（--explain）"));
    }
    if str_eq(key, "section.llm_review") {
        return Some(("LLM second opinion (--llm-review, EXPERIMENTAL)", "LLM 审阅（--llm-review，实验性）"));
    }
    if str_eq(key, "weights.safetensors_bytes") {
        return Some(("safetensors bytes", "safetensors 总字节"));
    }
    if str_eq(key, "weights.params_estimated") {
        return Some(("estimated total params", "参数量（估算）"));
    }
    if str_eq(key, "weights.bits_per_param") {
        return Some(("bits/param", "每参数位数"));
    }
    if str_eq(key, "weights.quant_guess") {
        return Some(("quantization guess", "量化方案推断"));
    }
    if str_eq(key, "arch.model_type") {
        return Some(("model_type", "模型类型"));
    }
    if str_eq(key, "arch.family") {
        return Some(("family", "架构族"));
    }
    if str_eq(key, "arch.confidence") {
        return Some(("confidence", "识别置信度"));
    }
    if str_eq(key, "arch.layers") {
        return Some(("layers", "层数"));
    }
    if str_eq(key, "arch.hidden_size") {
        return Some(("hidden_size", "隐藏维度"));
    }
    if str_eq(key, "arch.vocab_size") {
        return Some(("vocab_size", "词表大小"));
    }
    if str_eq(key, "arch.attention") {
        return Some(("attention", "注意力机制"));
    }
    if str_eq(key, "arch.compress_ratios") {
        return Some(("compress_ratios", "压缩比数组"));
    }
    if str_eq(key, "arch.moe") {
        return Some(("moe", "MoE"));
    }
    if str_eq(key, "arch.sliding_window") {
        return Some(("sliding_window", "滑动窗口"));
    }
    if str_eq(key, "arch.max_position") {
        return Some(("max_position_embeddings", "最大上下文长度"));
    }
    if str_eq(key, "arch.none") {
        return Some(("(none)", "（无）"));
    }
    if str_eq(key, "arch.attn_summary") {
        return Some(("{variant} (heads={heads}, kv_heads={kv_heads}, head_dim={head_dim})", "{variant}（heads={heads}，kv_heads={kv_heads}，head_dim={head_dim}）"));
    }
    if str_eq(key, "arch.compress_ratios_summary") {
        return Some(("len={n}, dense_layers={dense}", "长度={n}，dense 层数={dense}"));
    }
    if str_eq(key, "arch.moe_summary") {
        return Some(("{routed} routed + {shared} shared, top-{topk}", "{routed} 个 routed + {shared} 个 shared，top-{topk}"));
    }
    if str_eq(key, "arch.unsupported_state_space") {
        return Some(("State-space models are not supported in v0.1 (planned for v0.3+).", "状态空间模型（Mamba 类）在 v0.1 暂不支持，计划在 v0.3+ 加入。"));
    }
    if str_eq(key, "recon.scheme") {
        return Some(("scheme", "量化方案"));
    }
    if str_eq(key, "recon.predicted") {
        return Some(("predicted bytes", "预测字节"));
    }
    if str_eq(key, "recon.delta") {
        return Some(("delta", "差值"));
    }
    if str_eq(key, "recon.error_pct") {
        return Some(("error %", "误差 %"));
    }
    if str_eq(key, "recon.over") {
        return Some(("over", "偏高"));
    }
    if str_eq(key, "recon.under") {
        return Some(("under", "偏低"));
    }
    if str_eq(key, "recon.best") {
        return Some(("best match:", "最佳匹配："));
    }
    if str_eq(key, "kv.context") {
        return Some(("context", "上下文"));
    }
    if str_eq(key, "kv.kv_cache") {
        return Some(("KV cache", "KV Cache"));
    }
    if str_eq(key, "kv.label") {
        return Some(("label", "标签"));
    }
    if str_eq(key, "kv.tokens") {
        return Some(("tokens", "tokens"));
    }
    if str_eq(key, "engine.version_spec") {
        return Some(("version", "版本要求"));
    }
    if str_eq(key, "engine.support") {
        return Some(("support", "支持程度"));
    }
    if str_eq(key, "engine.verification") {
        return Some(("verification", "验证等级"));
    }
    if str_eq(key, "engine.required_flags") {
        return Some(("required flags", "必需参数"));
    }
    if str_eq(key, "engine.optional_flags") {
        return Some(("optional flags", "可选参数"));
    }
    if str_eq(key, "engine.caveats") {
        return Some(("caveats", "注意事项"));
    }
    if str_eq(key, "engine.sources") {
        return Some(("sources", "来源"));
    }
    if str_eq(key, "engine.no_match") {
        return Some(("No compatibility entry for this model + engine in v0.1 matrix.", "v0.1 兼容矩阵中暂无此模型 + 引擎的条目。"));
    }
    if str_eq(key, "hw.memory") {
        return Some(("memory", "显存"));
    }
    if str_eq(key, "hw.nvlink_bandwidth") {
        return Some(("NVLink bandwidth", "NVLink 带宽"));
    }
    if str_eq(key, "hw.fp16_tflops") {
        return Some(("FP16 TFLOPS", "FP16 算力"));
    }
    if str_eq(key, "hw.fp8_support") {
        return Some(("FP8 support", "FP8 支持"));
    }
    if str_eq(key, "hw.fp4_support") {
        return Some(("FP4 support", "FP4 支持"));
    }
    if str_eq(key, "hw.notes") {
        return Some(("notes", "备注"));
    }
    if str_eq(key, "hw.spec_source") {
        return Some(("spec source", "规格来源"));
    }
    if str_eq(key, "hw.bool_yes") {
        return Some(("yes", "是"));
    }
    if str_eq(key, "hw.bool_no") {
        return Some(("no", "否"));
    }
    if str_eq(key, "gpus.list.title") {
        return Some(("Supported GPUs", "支持的 GPU"));
    }
    if str_eq(key, "gpus.col.id") {
        return Some(("id", "型号"));
    }
    if str_eq(key, "gpus.col.memory") {
        return Some(("memory", "显存"));
    }
    if str_eq(key, "gpus.col.nvlink") {
        return Some(("NVLink / fabric", "互联带宽"));
    }
    if str_eq(key, "gpus.col.fp16") {
        return Some(("FP16 TFLOPS", "FP16"));
    }
    if str_eq(key, "gpus.col.fp8") {
        return Some(("FP8", "FP8"));
    }
    if str_eq(key, "gpus.col.fp4") {
        return Some(("FP4", "FP4"));
    }
    if str_eq(key, "gpus.col.aliases") {
        return Some(("aliases", "别名"));
    }
    if str_eq(key, "gpus.total") {
        return Some(("Total: {count} GPUs (pass any id or alias to --gpu)", "共 {count} 款（--gpu 后面填 ID 或别名均可）"));
    }
    if str_eq(key, "hw.unknown") {
        return Some(("Unknown GPU '{gpu}'. Known: {known}", "未知 GPU '{gpu}'。已知型号：{known}"));
    }
    if str_eq(key, "cli.err.auth_required") {
        return Some(("Authentication required:", "需要认证："));
    }
    if str_eq(key, "cli.err.model_not_found") {
        return Some(("Model not found:", "模型未找到："));
    }
    if str_eq(key, "cli.err.source_unavailable") {
        return Some(("Source unavailable:", "数据源不可用："));
    }
    if str_eq(key, "cli.err.missing_model") {
        return Some(("Missing argument MODEL_ID. Use --help for usage.", "缺少参数 MODEL_ID。使用 --help 查看用法。"));
    }
    if str_eq(key, "cli.err.missing_gpu") {
        return Some(("Missing option --gpu. Use --list-gpus to see choices.", "缺少选项 --gpu。使用 --list-gpus 查看可选 GPU。"));
    }
    if str_eq(key, "cli.err.unknown_source") {
        return Some(("Unknown --source '{source}'. Use 'builtin', 'huggingface', or 'modelscope'.", "未知 --source '{source}'。请使用 'builtin'、'huggingface' 或 'modelscope'。"));
    }
    if str_eq(key, "source.pr") {
        return Some(("PR", "PR"));
    }
    if str_eq(key, "source.release_notes") {
        return Some(("release notes", "release note"));
    }
    if str_eq(key, "source.announcement") {
        return Some(("announcement", "官方公告"));
    }
    if str_eq(key, "source.tested") {
        return Some(("tested", "实测"));
    }
    if str_eq(key, "source.captured_on") {
        return Some(("captured on", "采集于"));
    }
    if str_eq(key, "fleet.col.tier") {
        return Some(("tier", "档位"));
    }
    if str_eq(key, "fleet.col.gpus") {
        return Some(("GPUs", "GPU 数"));
    }
    if str_eq(key, "fleet.col.weight_per_gpu") {
        return Some(("weight / GPU", "单卡权重"));
    }
    if str_eq(key, "fleet.col.headroom_per_gpu") {
        return Some(("headroom / GPU", "单卡余量"));
    }
    if str_eq(key, "fleet.col.fit") {
        return Some(("fit", "评估"));
    }
    if str_eq(key, "fleet.col.concurrent_at_ctx") {
        return Some(("concurrent @ {ctx}", "并发 @ {ctx}"));
    }
    if str_eq(key, "fleet.tier.min") {
        return Some(("min", "最小"));
    }
    if str_eq(key, "fleet.tier.dev") {
        return Some(("dev", "开发"));
    }
    if str_eq(key, "fleet.tier.prod") {
        return Some(("prod", "生产"));
    }
    if str_eq(key, "fleet.best_marker") {
        return Some(("= recommended", "= 推荐档位"));
    }
    if str_eq(key, "fleet.no_recommended_tier") {
        return Some(("No recommended tier: the model does not fit on the available TP/PP candidates.", "没有推荐档位：模型无法放入当前 TP/PP 候选配置。"));
    }
    if str_eq(key, "fleet.constraint") {
        return Some(("constraint:", "约束："));
    }
    if str_eq(key, "fleet.forced") {
        return Some(("Forced GPU count (--gpu-count was set)", "已强制指定 GPU 张数（--gpu-count）"));
    }
    if str_eq(key, "fleet.gpu_spec_unknown") {
        return Some(("Fleet planning skipped - GPU spec unknown.", "GPU 规格未知，跳过 fleet 规划。"));
    }
    if str_eq(key, "command.tier_note") {
        return Some(("tier: {tier} ({gpus} GPUs)", "档位：{tier}（{gpus} 张）"));
    }
    if str_eq(key, "perf.assumptions_note") {
        return Some(("Assumes input={input_tokens} tokens, output={output_tokens} tokens, target {target_tps} tok/s per user. Utilization: prefill={prefill_util} / decode_bw={decode_util} / concurrency_degradation={degradation}x. All numbers are [estimated] - see docs/methodology.md for formula sources and override via --prefill-util / --decode-bw-util / --concurrency-degradation.", "假设输入 {input_tokens} tokens、输出 {output_tokens} tokens、每用户目标 {target_tps} tok/s。利用率：prefill={prefill_util} / decode_bw={decode_util} / 并发退化={degradation}x。所有数字都是 [估算] - 公式来源见 docs/methodology.md，可通过 --prefill-util / --decode-bw-util / --concurrency-degradation 覆盖。"));
    }
    if str_eq(key, "perf.prefill_latency") {
        return Some(("Prefill latency (single request)", "Prefill 延迟（单请求）"));
    }
    if str_eq(key, "perf.decode_throughput_cluster") {
        return Some(("Decode throughput (cluster)", "Decode 吞吐（集群）"));
    }
    if str_eq(key, "perf.decode_throughput_per_gpu") {
        return Some(("Decode throughput (per GPU)", "Decode 吞吐（单卡）"));
    }
    if str_eq(key, "perf.decode_moe_active_optimistic") {
        return Some(("Decode throughput (MoE active-only, optimistic)", "Decode 吞吐（MoE 仅激活专家，乐观估算）"));
    }
    if str_eq(key, "perf.k_bound") {
        return Some(("K bound (memory-capacity)", "K 上限（显存容量）"));
    }
    if str_eq(key, "perf.l_bound") {
        return Some(("L bound (compute / bandwidth @ SLA)", "L 上限（算力/带宽 @ SLA）"));
    }
    if str_eq(key, "perf.max_concurrent") {
        return Some(("Max concurrent", "最大并发"));
    }
    if str_eq(key, "perf.bottleneck") {
        return Some(("Bottleneck", "瓶颈类型"));
    }
    if str_eq(key, "perf.bottleneck.memory_capacity") {
        return Some(("Memory capacity", "显存容量"));
    }
    if str_eq(key, "perf.bottleneck.memory_bandwidth") {
        return Some(("Memory bandwidth / compute", "显存带宽 / 算力"));
    }
    if str_eq(key, "perf.bottleneck.compute") {
        return Some(("Compute", "算力"));
    }
    if str_eq(key, "perf.bottleneck.insufficient_data") {
        return Some(("Insufficient data", "数据不足"));
    }
    if str_eq(key, "perf.optimization.header") {
        return Some(("Optimization suggestions", "优化建议"));
    }
    if str_eq(key, "perf.opt.quantize_int4") {
        return Some(("Quantize to INT4: weight bytes halve -> decode tok/s roughly 2x -> concurrency scales accordingly.", "量化到 INT4：权重字节减半 → decode tok/s 约翻倍 → 并发能力随之提升。"));
    }
    if str_eq(key, "perf.opt.relax_sla") {
        return Some(("Relax SLA: if per-user target drops to 15 tok/s, L bound roughly doubles.", "放宽 SLA：若每用户目标降至 15 tok/s，L 上限约翻倍。"));
    }
    if str_eq(key, "perf.opt.kv_fp8") {
        return Some(("KV cache FP8 quantization: halves per-request KV, doubles the K bound at long context.", "KV cache 量化到 FP8：单请求 KV 减半，长上下文下 K 上限约翻倍。"));
    }
    if str_eq(key, "perf.opt.moe_offload") {
        return Some(("MoE expert offload to CPU: frees HBM for more KV cache at the cost of PCIe latency per new expert.", "MoE 专家卸载到 CPU：释放 HBM 给 KV cache，代价是新专家激活时的 PCIe 延迟。"));
    }
    if str_eq(key, "explain.formula") {
        return Some(("Formula", "公式"));
    }
    if str_eq(key, "explain.inputs") {
        return Some(("Inputs", "输入"));
    }
    if str_eq(key, "explain.steps") {
        return Some(("Computation", "计算步骤"));
    }
    if str_eq(key, "explain.result") {
        return Some(("Result", "结果"));
    }
    if str_eq(key, "explain.source") {
        return Some(("Source", "来源"));
    }
    if str_eq(key, "explain.see_also") {
        return Some(("See also", "延伸阅读"));
    }
    if str_eq(key, "explain.intro") {
        return Some(("Each entry below shows the formula used, the inputs that went in, every computation step, and the primary source.", "下面每一项都给出所用公式、输入、每一步计算、主要来源。"));
    }
    if str_eq(key, "llm_review.unavailable") {
        return Some(("LLM review unavailable: {error}", "LLM 审阅不可用：{error}"));
    }
    if str_eq(key, "llm_review.setup_hint") {
        return Some(("To enable: export LLM_CAL_REVIEWER_API_KEY=<key>  [optional: LLM_CAL_REVIEWER_BASE_URL, LLM_CAL_REVIEWER_MODEL]", "启用方法：export LLM_CAL_REVIEWER_API_KEY=<key>  [可选：LLM_CAL_REVIEWER_BASE_URL、LLM_CAL_REVIEWER_MODEL]"));
    }
    if str_eq(key, "llm_review.disclaimer") {
        return Some(("This is a second opinion from an external LLM ({model} via {base_url}). It is tagged [llm-opinion] and NEVER overrides the 6 primary labels.", "以下是来自外部 LLM（{model}，经 {base_url}）的第二意见。标签为 [LLM 观点]，永远不覆盖前 6 级主标签。"));
    }
    if str_eq(key, "label.verified") {
        return Some(("verified", "已验证"));
    }
    if str_eq(key, "label.inferred") {
        return Some(("inferred", "推断"));
    }
    if str_eq(key, "label.estimated") {
        return Some(("estimated", "估算"));
    }
    if str_eq(key, "label.cited") {
        return Some(("cited", "引用"));
    }
    if str_eq(key, "label.unverified") {
        return Some(("unverified", "未经验证"));
    }
    if str_eq(key, "label.unknown") {
        return Some(("unknown", "未知"));
    }
    if str_eq(key, "label.llm-opinion") {
        return Some(("llm-opinion", "LLM 观点"));
    }
    None
}

/// The output language in use: `"en"` or `"zh"`.
pub struct LocaleState {
    pub locale: String,
}

impl LocaleState {
    /// English, the default.
    pub fn new() -> (res: Self)
        ensures
            res.locale@ == "en"@,
    {
        LocaleState { locale: "en".to_string() }
    }
}

/// Anything but `"zh"` selects English.
pub open spec fn normalized_locale(locale: Seq<char>) -> Seq<char> {
    if locale == "zh"@ {
        "zh"@
    } else {
        "en"@
    }
}

pub fn set_locale(state: &mut LocaleState, locale: &str)
    ensures
        final(state).locale@ == normalized_locale(locale@),
{
    if str_eq(locale, "zh") {
        state.locale = "zh".to_string();
    } else {
        state.locale = "en".to_string();
    }
}

pub fn get_locale(state: &LocaleState) -> (res: String)
    ensures
        res@ == state.locale@,
{
    state.locale.clone()
}

/// The value an environment listing gives a variable: the last entry for it.
pub open spec fn env_value(values: Seq<(&str, Option<&str>)>, var: Seq<char>) -> Option<Seq<char>>
    decreases values.len(),
{
    if values.len() == 0 {
        None
    } else if values.last().0@ == var {
        match values.last().1 {
            Some(v) => Some(v@),
            None => None,
        }
    } else {
        env_value(values.drop_last(), var)
    }
}

pub open spec fn names_chinese(v: Option<Seq<char>>) -> bool {
    match v {
        Some(s) => seq_starts_with(spec_to_lowercase(s), "zh"@),
        None => false,
    }
}

/// `"zh"` when `LC_ALL`, `LC_MESSAGES` or `LANG` (checked in that order)
/// starts with `zh`, case-insensitively.
pub open spec fn locale_from_env(values: Seq<(&str, Option<&str>)>) -> Seq<char> {
    if names_chinese(env_value(values, "LC_ALL"@)) || names_chinese(env_value(values, "LC_MESSAGES"@))
        || names_chinese(env_value(values, "LANG"@)) {
        "zh"@
    } else {
        "en"@
    }
}

fn env_value_exec<'a>(values: &[(&'a str, Option<&'a str>)], var: &str) -> (r: Option<&'a str>)
    ensures
        match r {
            Some(v) => env_value(values@, var@) == Some(v@),
            None => env_value(values@, var@) is None,
        },
{
    let mut i: usize = values.len();
    assert(values@.subrange(0, values@.len() as int) =~= values@);
    while i > 0
        invariant
            i <= values@.len(),
            env_value(values@, var@) == env_value(values@.subrange(0, i as int), var@),
        decreases i,
    {
        let ghost sub = values@.subrange(0, i as int);
        assert(sub.drop_last() =~= values@.subrange(0, i - 1));
        assert(sub.last() == values@[i - 1]);
        let (name, value) = values[i - 1];
        if str_eq(name, var) {
            return value;
        }
        i = i - 1;
    }
    None
}

fn is_chinese(v: Option<&str>) -> (b: bool)
    ensures
        b == names_chinese(match v {
            Some(s) => Some(s@),
            None => None,
        }),
{
    match v {
        Some(s) => starts_with(to_lowercase(s).as_str(), "zh"),
        None => false,
    }
}

/// The locale an environment listing selects.
pub fn detect_locale_from_env_values(values: &[(&str, Option<&str>)]) -> (res: &'static str)
    ensures
        res@ == locale_from_env(values@),
{
    if is_chinese(env_value_exec(values, "LC_ALL")) || is_chinese(env_value_exec(values, "LC_MESSAGES"))
        || is_chinese(env_value_exec(values, "LANG")) {
        "zh"
    } else {
        "en"
    }
}

/// `s` with every non-overlapping occurrence of `pat`, scanned left to right,
/// replaced by `rep`.
pub open spec fn replaced(s: Seq<char>, pat: Seq<char>, rep: Seq<char>) -> Seq<char>
    decreases s.len(),
{
    if pat.len() == 0 || s.len() < pat.len() {
        s
    } else if s.subrange(0, pat.len() as int) == pat {
        rep + replaced(s.subrange(pat.len() as int, s.len() as int), pat, rep)
    } else {
        seq![s[0]] + replaced(s.drop_first(), pat, rep)
    }
}

pub fn replace_all(s: &str, pat: &str, rep: &str) -> (r: String)
    ensures
        r@ == replaced(s@, pat@, rep@),
{
    let sv = chars_of(s);
    let pv = chars_of(pat);
    if pv.len() == 0 {
        return s.to_string();
    }
    let mut out = String::new();
    let mut i: usize = 0;
    assert(sv@.subrange(0, sv@.len() as int) =~= sv@);
    assert(out@ + replaced(sv@, pat@, rep@) =~= replaced(sv@, pat@, rep@));
    while i < sv.len()
        invariant
            i <= sv@.len(),
            sv@ == s@,
            pv@ == pat@,
            pv@.len() > 0,
            out@ + replaced(sv@.subrange(i as int, sv@.len() as int), pat@, rep@) == replaced(s@, pat@, rep@),
        decreases sv.len() - i,
    {
        let ghost rest = sv@.subrange(i as int, sv@.len() as int);
        if pv.len() <= sv.len() - i && matches_at(&sv, &pv, i) {
            assert(rest.subrange(0, pat@.len() as int) =~= pat@);
            assert(rest.subrange(pat@.len() as int, rest.len() as int) =~= sv@.subrange(
                i + pv.len(),
                sv@.len() as int,
            ));
            out.append(rep);
            i = i + pv.len();
        } else {
            proof {
                if rest.len() >= pat@.len() {
                    assert(rest.subrange(0, pat@.len() as int) != pat@) by {
                        if rest.subrange(0, pat@.len() as int) == pat@ {
                            assert forall|m: int| 0 <= m < pat@.len() implies sv@[i + m] == pat@[m] by {
                                assert(rest.subrange(0, pat@.len() as int)[m] == rest[m]);
                            }
                            assert(sv@.subrange(i as int, i + pat@.len()) =~= pat@);
                        }
                    }
                }
            }
            assert(rest.drop_first() =~= sv@.subrange(i + 1, sv@.len() as int));
            let c = sv[i];
            out.push(c);
            proof {
                if rest.len() < pat@.len() {
                    assert(replaced(rest, pat@, rep@) == rest);
                    assert(replaced(rest.drop_first(), pat@, rep@) == rest.drop_first());
                    assert(rest =~= seq![c] + rest.drop_first());
                }
            }
            i = i + 1;
        }
    }
    assert(sv@.subrange(sv@.len() as int, sv@.len() as int) =~= Seq::<char>::empty());
    out
}

/// Named arguments as text pairs.
pub open spec fn kw_view(kw: Seq<(String, String)>) -> Seq<(Seq<char>, Seq<char>)> {
    kw.map_values(|p: (String, String)| (p.0@, p.1@))
}

/// The template after filling each `{name}` in turn.
pub open spec fn filled(template: Seq<char>, kwargs: Seq<(Seq<char>, Seq<char>)>) -> Seq<char>
    decreases kwargs.len(),
{
    if kwargs.len() == 0 {
        template
    } else {
        let last = kwargs.last();
        replaced(filled(template, kwargs.drop_last()), seq!['{'] + last.0 + seq!['}'], last.1)
    }
}

/// The message in the state's language with the arguments filled in; the
/// key itself when it has no message.
pub open spec fn translated(locale: Seq<char>, key: Seq<char>, kwargs: Seq<(Seq<char>, Seq<char>)>) -> Seq<char> {
    match message_text(key) {
        None => key,
        Some((en, zh)) => filled(if locale == "zh"@ { zh } else { en }, kwargs),
    }
}

/// No argument is named twice.
pub open spec fn distinct_names(kw: Seq<(Seq<char>, Seq<char>)>) -> bool {
    forall|i: int, j: int| 0 <= i < j < kw.len() ==> #[trigger] kw[i].0 != #[trigger] kw[j].0
}

/// The message for `key` with each `{name}` replaced by its argument.
pub fn t_with(state: &LocaleState, key: &str, kwargs: &Vec<(String, String)>) -> (res: String)
    requires
        distinct_names(kw_view(kwargs@)),
    ensures
        res@ == translated(state.locale@, key@, kw_view(kwargs@)),
{
    let (en, zh) = match message(key) {
        Some(pair) => pair,
        None => {
            return key.to_string();
        },
    };
    let template = if str_eq(state.locale.as_str(), "zh") {
        zh
    } else {
        en
    };
    let mut out = template.to_string();
    let mut i: usize = 0;
    while i < kwargs.len()
        invariant
            i <= kwargs@.len(),
            out@ == filled(template@, kw_view(kwargs@.subrange(0, i as int))),
        decreases kwargs.len() - i,
    {
        let mut pat = String::new();
        pat.push('{');
        pat.append(kwargs[i].0.as_str());
        pat.push('}');
        let next = replace_all(out.as_str(), pat.as_str(), kwargs[i].1.as_str());
        assert(kw_view(kwargs@.subrange(0, i + 1)).drop_last() =~= kw_view(kwargs@.subrange(0, i as int)));
        assert(pat@ =~= seq!['{'] + kwargs@[i as int].0@ + seq!['}']);
        out = next;
        i = i + 1;
    }
    assert(kwargs@.subrange(0, kwargs@.len() as int) =~= kwargs@);
    out
}

/// The message for `key` in the state's language.
pub fn t(state: &LocaleState, key: &str) -> (res: String)
    ensures
        res@ == translated(state.locale@, key@, Seq::empty()),
{
    let none: Vec<(String, String)> = Vec::new();
    let res = t_with(state, key, &none);
    assert(kw_view(none@) =~= Seq::empty());
    res
}

} // verus!
