# llm-infer-cal-core

The core of an LLM inference sizing calculator, written in Verus. Given a
model's `config.json`, its file list and a GPU, it detects the architecture,
sums the weight bytes, reconciles them against the known quantization
schemes, sizes the KV cache, plans tensor- and pipeline-parallel fleets and
writes the vLLM / SGLang launch command. Every figure carries a provenance
label (`verified`, `inferred`, `estimated`, `cited`, `unknown`).

All arithmetic is exact integer arithmetic: byte counts, ratios and
fractions are proved free of overflow, and each public function states its
result in its `ensures` clause over spec functions and views.

## Layout

- `src/text.rs`, `src/float_text.rs`, `src/json.rs`, `src/capped.rs`:
  strings, the decimal text of a quotient as a 64-bit float shows it, a JSON
  value type and saturating counters the rest is written with.
- `src/profile.rs`, `src/detector.rs`: the architecture profile and its
  detection from a config.
- `src/weight.rs`, `src/quant.rs`, `src/fingerprint.rs`,
  `src/reconciler.rs`, `src/safetensors.rs`: parameter counts, weight
  bytes, declared and observed quantization, safetensors headers.
- `src/kv_cache.rs`, `src/activation.rs`, `src/layout.rs`,
  `src/hardware.rs`, `src/planner.rs`, `src/concurrency.rs`: memory
  formulas, parallel layouts, GPUs and fleet planning.
- `src/evaluation.rs`, `src/explain.rs`, `src/report.rs`,
  `src/formatter.rs`, `src/command.rs`, `src/i18n.rs`: the evaluation
  report, its derivation trace, rendering and launch commands.
- `src/sources.rs`, `src/hub.rs`, `src/auth.rs`, `src/cache.rs`: model
  hubs and their responses, the built-in catalog lookup, tokens, cache
  entries.
- the second-opinion module: the audit request sent to a chat endpoint
  and the mapping of its reply.
- `src/cli.rs`, `src/api.rs`, `src/benchmark.rs`, `src/engine_compat.rs`:
  the decisions behind the command line, the HTTP API, benchmark records and
  engine support.
- `src/properties.rs`: laws that relate several functions.
- `tests/`: tests on concrete values.

HTTP clients are traits that the caller implements (`hub::HttpClient` and
its counterpart for the chat endpoint). The library states what it makes of
each reply; what it states about the requests it sends holds for clients
that record their requests through the traits' spec functions, not for
clients that keep the default (such as the one in `app/`). `app/` is the command line
around the library: arguments, environment, HTTP and YAML files.
