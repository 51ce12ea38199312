//! Quantization fingerprints: what a checkpoint declares or its safetensors
//! header shows about its weight format.
use vstd::prelude::*;
use crate::json::{JsonValue, spec_get, get, get_str, get_i64, get_bool, str_at, i64_at, bool_at};
use crate::quant::QuantizationScheme;
use crate::text::{
    contains, ends_with, seq_contains_seq, seq_ends_with, spec_to_lowercase, str_eq, to_lowercase,
    dec, u64_to_string,
};

verus! {

#[derive(Clone, Copy, Debug, PartialEq, Eq, Structural)]
pub enum SourceType {
    ConfigJson,
    SafetensorsHeader,
}

/// A quantization scheme with where it was read and the evidence for it.
pub struct QuantFingerprint {
    pub scheme: QuantizationScheme,
    pub source_type: SourceType,
    pub evidence: String,
}

fn fingerprint(scheme: QuantizationScheme, source_type: SourceType, evidence: &str) -> (f: QuantFingerprint)
    ensures
        f.scheme == scheme,
        f.source_type == source_type,
        f.evidence@ == evidence@,
{
    QuantFingerprint { scheme, source_type, evidence: evidence.to_string() }
}

// ---------------------------------------------------------------------------
// safetensors header dtypes
// ---------------------------------------------------------------------------

/// A weight matrix (not a norm, bias, embedding or output head), judged by
/// its lower-cased name.
pub open spec fn is_weight_tensor(name: Seq<char>) -> bool {
    let n = spec_to_lowercase(name);
    !(seq_contains_seq(n, ".norm"@) || seq_contains_seq(n, ".bias"@) || seq_contains_seq(
        n,
        "embed"@,
    ) || seq_contains_seq(n, "lm_head"@)) && (seq_contains_seq(n, "weight"@) || seq_ends_with(
        n,
        ".w"@,
    ) || seq_ends_with(n, ".proj"@))
}

fn is_weight_tensor_exec(name: &str) -> (b: bool)
    ensures
        b == is_weight_tensor(name@),
{
    let n = to_lowercase(name);
    let s = n.as_str();
    if contains(s, ".norm") || contains(s, ".bias") || contains(s, "embed") || contains(s, "lm_head") {
        return false;
    }
    contains(s, "weight") || ends_with(s, ".w") || ends_with(s, ".proj")
}

/// Dtype classes of a header.
#[derive(Clone, Copy, PartialEq, Eq, Structural)]
pub enum DtypeClass {
    Any,
    Fp4,
    Fp8,
    Int8,
    F16,
    Bf16,
    MxScale,
}

pub open spec fn in_class(k: DtypeClass, d: Seq<char>) -> bool {
    match k {
        DtypeClass::Any => true,
        DtypeClass::Fp4 => d == "F4_E2M1"@ || d == "F4"@,
        DtypeClass::Fp8 => d == "F8_E4M3"@ || d == "F8_E5M2"@,
        DtypeClass::Int8 => d == "I8"@ || d == "U8"@,
        DtypeClass::F16 => d == "F16"@,
        DtypeClass::Bf16 => d == "BF16"@,
        DtypeClass::MxScale => d == "F8_E8M0"@,
    }
}

fn in_class_exec(k: DtypeClass, d: &str) -> (b: bool)
    ensures
        b == in_class(k, d@),
{
    match k {
        DtypeClass::Any => true,
        DtypeClass::Fp4 => str_eq(d, "F4_E2M1") || str_eq(d, "F4"),
        DtypeClass::Fp8 => str_eq(d, "F8_E4M3") || str_eq(d, "F8_E5M2"),
        DtypeClass::Int8 => str_eq(d, "I8") || str_eq(d, "U8"),
        DtypeClass::F16 => str_eq(d, "F16"),
        DtypeClass::Bf16 => str_eq(d, "BF16"),
        DtypeClass::MxScale => str_eq(d, "F8_E8M0"),
    }
}

/// Tensors (only weight matrices, or all) whose dtype is in class `k`.
pub open spec fn dtype_count(e: Seq<(String, String)>, weights_only: bool, k: DtypeClass) -> nat
    decreases e.len(),
{
    if e.len() == 0 {
        0
    } else {
        dtype_count(e.drop_last(), weights_only, k) + if (!weights_only || is_weight_tensor(
            e.last().0@,
        )) && in_class(k, e.last().1@) {
            1nat
        } else {
            0nat
        }
    }
}

/// The weight tensors decide; a header without any decides by all tensors.
pub open spec fn use_weights(e: Seq<(String, String)>) -> bool {
    dtype_count(e, true, DtypeClass::Any) > 0
}

pub open spec fn wcount(e: Seq<(String, String)>, k: DtypeClass) -> nat {
    dtype_count(e, use_weights(e), k)
}

pub open spec fn any_name_ends(e: Seq<(String, String)>, a: Seq<char>, b: Seq<char>) -> bool {
    exists|i: int| 0 <= i < e.len() && (seq_ends_with(#[trigger] e[i].0@, a) || seq_ends_with(e[i].0@, b))
}

/// The scheme and evidence a header's tensor dtypes show, if any.
pub open spec fn header_fingerprint(e: Seq<(String, String)>) -> Option<(QuantizationScheme, Seq<char>)> {
    let has_qweight = any_name_ends(e, ".qweight"@, "_qweight"@);
    let has_g_idx = any_name_ends(e, ".g_idx"@, "_g_idx"@);
    let has_qzeros = any_name_ends(e, ".qzeros"@, "_qzeros"@);
    let fp4 = wcount(e, DtypeClass::Fp4);
    let fp8 = wcount(e, DtypeClass::Fp8);
    let int8 = wcount(e, DtypeClass::Int8);
    let half = wcount(e, DtypeClass::F16) > 0;
    let bhalf = wcount(e, DtypeClass::Bf16) > 0;
    let total = wcount(e, DtypeClass::Any);
    let mx = dtype_count(e, false, DtypeClass::MxScale) > 0;
    if e.len() == 0 {
        None
    } else if has_qweight && has_g_idx {
        Some((QuantizationScheme::GptqInt4, "safetensors header has .qweight + .g_idx tensors (GPTQ marker)"@))
    } else if has_qweight && has_qzeros {
        Some((QuantizationScheme::AwqInt4, "safetensors header has .qweight + .qzeros, no .g_idx (AWQ marker)"@))
    } else if mx && int8 > 0 {
        if fp8 > 0 {
            Some((QuantizationScheme::Fp4Fp8Mixed, "safetensors header: F8_E8M0 scale tensors + "@ + dec(int8)
                + " packed-I8 (FP4) weights + "@ + dec(fp8) + " FP8 weights — MX block-scaled mixed pack"@))
        } else {
            Some((QuantizationScheme::Fp4Fp8Mixed, "safetensors header: F8_E8M0 scale tensors + "@ + dec(int8)
                + " packed-I8 (FP4) weights — MXFP4 block-scaled"@))
        }
    } else if fp4 > 0 && fp8 > 0 {
        Some((QuantizationScheme::Fp4Fp8Mixed, "safetensors header has both FP4 and FP8 weight tensors ("@
            + dec(fp4) + " FP4, "@ + dec(fp8) + " FP8)"@))
    } else if fp8 > 0 && !(fp4 > 0 || int8 > 0) {
        Some((QuantizationScheme::Fp8, "safetensors header: "@ + dec(fp8) + "/"@ + dec(total)
            + " weight tensors are FP8"@))
    } else if half && !(fp8 > 0 || fp4 > 0 || int8 > 0 || bhalf) {
        Some((QuantizationScheme::Fp16, "safetensors header: all "@ + dec(total) + " weight tensors are F16"@))
    } else if bhalf && !(fp8 > 0 || fp4 > 0 || int8 > 0 || half) {
        Some((QuantizationScheme::Bf16, "safetensors header: all "@ + dec(total) + " weight tensors are BF16"@))
    } else if int8 > 0 && !(fp8 > 0 || fp4 > 0 || half || bhalf) {
        Some((QuantizationScheme::Int8, "safetensors header: "@ + dec(total) + " weight tensors are INT8"@))
    } else {
        None
    }
}

/// Counts of each class over the first entries (weights only and all).
struct Counts {
    w: [u64; 7],
    a: [u64; 7],
}

pub open spec fn class_at(i: int) -> DtypeClass {
    if i == 0 {
        DtypeClass::Any
    } else if i == 1 {
        DtypeClass::Fp4
    } else if i == 2 {
        DtypeClass::Fp8
    } else if i == 3 {
        DtypeClass::Int8
    } else if i == 4 {
        DtypeClass::F16
    } else if i == 5 {
        DtypeClass::Bf16
    } else {
        DtypeClass::MxScale
    }
}

fn class_of(i: usize) -> (k: DtypeClass)
    ensures
        k == class_at(i as int),
{
    if i == 0 {
        DtypeClass::Any
    } else if i == 1 {
        DtypeClass::Fp4
    } else if i == 2 {
        DtypeClass::Fp8
    } else if i == 3 {
        DtypeClass::Int8
    } else if i == 4 {
        DtypeClass::F16
    } else if i == 5 {
        DtypeClass::Bf16
    } else {
        DtypeClass::MxScale
    }
}

fn name_ends_exec(e: &Vec<(String, String)>, a: &str, b: &str) -> (r: bool)
    ensures
        r == any_name_ends(e@, a@, b@),
{
    let mut i: usize = 0;
    while i < e.len()
        invariant
            i <= e@.len(),
            forall|j: int| 0 <= j < i ==> !(seq_ends_with(#[trigger] e@[j].0@, a@) || seq_ends_with(e@[j].0@, b@)),
        decreases e.len() - i,
    {
        if ends_with(e[i].0.as_str(), a) || ends_with(e[i].0.as_str(), b) {
            return true;
        }
        i = i + 1;
    }
    false
}

fn count_all(e: &Vec<(String, String)>) -> (c: Counts)
    ensures
        forall|k: int| 0 <= k < 7 ==> c.w@[k] == dtype_count(e@, true, class_at(k)) && c.a@[k]
            == dtype_count(e@, false, class_at(k)),
{
    let mut w: [u64; 7] = [0, 0, 0, 0, 0, 0, 0];
    let mut a: [u64; 7] = [0, 0, 0, 0, 0, 0, 0];
    let mut i: usize = 0;
    while i < e.len()
        invariant
            i <= e@.len(),
            forall|k: int| 0 <= k < 7 ==> w@[k] == dtype_count(e@.subrange(0, i as int), true, class_at(k))
                && a@[k] == dtype_count(e@.subrange(0, i as int), false, class_at(k)),
            forall|k: int| 0 <= k < 7 ==> w@[k] <= i && a@[k] <= i,
        decreases e.len() - i,
    {
        let is_w = is_weight_tensor_exec(e[i].0.as_str());
        let d = e[i].1.as_str();
        let ghost pre = e@.subrange(0, i as int);
        let ghost cur = e@.subrange(0, i + 1);
        assert(cur.drop_last() =~= pre);
        let mut k: usize = 0;
        while k < 7
            invariant
                0 <= k <= 7,
                i < e@.len(),
                cur == e@.subrange(0, i + 1),
                pre == e@.subrange(0, i as int),
                cur.drop_last() == pre,
                is_w == is_weight_tensor(e@[i as int].0@),
                d@ == e@[i as int].1@,
                forall|j: int| 0 <= j < k ==> w@[j] == dtype_count(cur, true, class_at(j)) && a@[j]
                    == dtype_count(cur, false, class_at(j)),
                forall|j: int| k <= j < 7 ==> w@[j] == dtype_count(pre, true, class_at(j)) && a@[j]
                    == dtype_count(pre, false, class_at(j)),
                forall|j: int| 0 <= j < k ==> w@[j] <= i + 1 && a@[j] <= i + 1,
                forall|j: int| k <= j < 7 ==> w@[j] <= i && a@[j] <= i,
                i < e@.len() <= usize::MAX,
            decreases 7 - k,
        {
            let m = in_class_exec(class_of(k), d);
            if m {
                a[k] = a[k] + 1;
                if is_w {
                    w[k] = w[k] + 1;
                }
            }
            k = k + 1;
        }
        i = i + 1;
    }
    assert(e@.subrange(0, e@.len() as int) =~= e@);
    Counts { w, a }
}

/// No tensor is named twice.
pub open spec fn tensor_names_distinct(e: Seq<(String, String)>) -> bool {
    forall|i: int, j: int| 0 <= i < j < e.len() ==> #[trigger] e[i].0@ != #[trigger] e[j].0@
}

/// The quantization a safetensors header shows: packed INT4 markers first
/// (GPTQ, AWQ), then MX block scales, then the weight dtypes. The header is
/// given as (tensor name, dtype) pairs, one per tensor.
pub fn from_safetensors_dtypes(tensor_dtypes: &Vec<(String, String)>) -> (res: Option<QuantFingerprint>)
    requires
        tensor_names_distinct(tensor_dtypes@),
    ensures
        res is None <==> header_fingerprint(tensor_dtypes@) is None,
        res matches Some(f) ==> f.source_type == SourceType::SafetensorsHeader
            && header_fingerprint(tensor_dtypes@) == Some((f.scheme, f.evidence@)),
{
    if tensor_dtypes.len() == 0 {
        return None;
    }
    let has_qweight = name_ends_exec(tensor_dtypes, ".qweight", "_qweight");
    let has_g_idx = name_ends_exec(tensor_dtypes, ".g_idx", "_g_idx");
    let has_qzeros = name_ends_exec(tensor_dtypes, ".qzeros", "_qzeros");
    let st = SourceType::SafetensorsHeader;
    if has_qweight && has_g_idx {
        return Some(fingerprint(
            QuantizationScheme::GptqInt4,
            st,
            "safetensors header has .qweight + .g_idx tensors (GPTQ marker)",
        ));
    }
    if has_qweight && has_qzeros {
        return Some(fingerprint(
            QuantizationScheme::AwqInt4,
            st,
            "safetensors header has .qweight + .qzeros, no .g_idx (AWQ marker)",
        ));
    }
    let c = count_all(tensor_dtypes);
    let use_w = c.w[0] > 0;
    let pick = if use_w {
        c.w
    } else {
        c.a
    };
    let total = pick[0];
    let fp4 = pick[1];
    let fp8 = pick[2];
    let int8 = pick[3];
    let half = pick[4] > 0;
    let bhalf = pick[5] > 0;
    let mx = c.a[6] > 0;
    proof {
        let e = tensor_dtypes@;
        assert(use_w == use_weights(e));
        assert(total == wcount(e, DtypeClass::Any));
        assert(fp4 == wcount(e, DtypeClass::Fp4));
        assert(fp8 == wcount(e, DtypeClass::Fp8));
        assert(int8 == wcount(e, DtypeClass::Int8));
        assert(half == (wcount(e, DtypeClass::F16) > 0));
        assert(bhalf == (wcount(e, DtypeClass::Bf16) > 0));
        assert(mx == (dtype_count(e, false, DtypeClass::MxScale) > 0));
    }
    let mut ev = String::new();
    if mx && int8 > 0 {
        ev.append("safetensors header: F8_E8M0 scale tensors + ");
        ev.append(u64_to_string(int8).as_str());
        if fp8 > 0 {
            ev.append(" packed-I8 (FP4) weights + ");
            ev.append(u64_to_string(fp8).as_str());
            ev.append(" FP8 weights — MX block-scaled mixed pack");
        } else {
            ev.append(" packed-I8 (FP4) weights — MXFP4 block-scaled");
        }
        return Some(QuantFingerprint { scheme: QuantizationScheme::Fp4Fp8Mixed, source_type: st, evidence: ev });
    }
    if fp4 > 0 && fp8 > 0 {
        ev.append("safetensors header has both FP4 and FP8 weight tensors (");
        ev.append(u64_to_string(fp4).as_str());
        ev.append(" FP4, ");
        ev.append(u64_to_string(fp8).as_str());
        ev.append(" FP8)");
        return Some(QuantFingerprint { scheme: QuantizationScheme::Fp4Fp8Mixed, source_type: st, evidence: ev });
    }
    if fp8 > 0 && !(fp4 > 0 || int8 > 0) {
        ev.append("safetensors header: ");
        ev.append(u64_to_string(fp8).as_str());
        ev.append("/");
        ev.append(u64_to_string(total).as_str());
        ev.append(" weight tensors are FP8");
        return Some(QuantFingerprint { scheme: QuantizationScheme::Fp8, source_type: st, evidence: ev });
    }
    if half && !(fp8 > 0 || fp4 > 0 || int8 > 0 || bhalf) {
        ev.append("safetensors header: all ");
        ev.append(u64_to_string(total).as_str());
        ev.append(" weight tensors are F16");
        return Some(QuantFingerprint { scheme: QuantizationScheme::Fp16, source_type: st, evidence: ev });
    }
    if bhalf && !(fp8 > 0 || fp4 > 0 || int8 > 0 || half) {
        ev.append("safetensors header: all ");
        ev.append(u64_to_string(total).as_str());
        ev.append(" weight tensors are BF16");
        return Some(QuantFingerprint { scheme: QuantizationScheme::Bf16, source_type: st, evidence: ev });
    }
    if int8 > 0 && !(fp8 > 0 || fp4 > 0 || half || bhalf) {
        ev.append("safetensors header: ");
        ev.append(u64_to_string(total).as_str());
        ev.append(" weight tensors are INT8");
        return Some(QuantFingerprint { scheme: QuantizationScheme::Int8, source_type: st, evidence: ev });
    }
    None
}

// ---------------------------------------------------------------------------
// config.json
// ---------------------------------------------------------------------------

pub open spec fn is_object(v: JsonValue) -> bool {
    v is Object
}

/// The first member of an object whose value is itself an object.
pub open spec fn first_object_member(m: Seq<(String, JsonValue)>) -> Option<JsonValue>
    decreases m.len(),
{
    if m.len() == 0 {
        None
    } else if m[0].1 is Object {
        Some(m[0].1)
    } else {
        first_object_member(m.drop_first())
    }
}

/// What the first compressed-tensors config group declares for its weights.
pub open spec fn compressed_group(qc: JsonValue) -> Option<(QuantizationScheme, Seq<char>)> {
    match spec_get(qc, "config_groups"@) {
        Some(JsonValue::Object(groups)) => match first_object_member(groups@) {
            Some(group) => {
                let weights = spec_get(group, "weights"@);
                let num_bits = match weights {
                    Some(w) => if w is Object { i64_at(w, "num_bits"@) } else { None },
                    None => None,
                };
                let wtype = match weights {
                    Some(w) => if w is Object { str_at(w, "type"@) } else { None },
                    None => None,
                };
                if num_bits == Some(8i64) && (wtype == Some("float"@) || wtype == Some("fp8"@)) {
                    Some((QuantizationScheme::Fp8, "config.json compressed-tensors group weights=fp8/8bit"@))
                } else if num_bits == Some(8i64) && wtype == Some("int"@) {
                    Some((QuantizationScheme::Int8, "config.json compressed-tensors group weights=int/8bit"@))
                } else if num_bits == Some(4i64) && wtype == Some("int"@) {
                    Some((QuantizationScheme::Int4, "config.json compressed-tensors group weights=int/4bit"@))
                } else {
                    None
                }
            },
            None => None,
        },
        _ => None,
    }
}

/// What a `quantization_config` object declares.
pub open spec fn quantization_config_fingerprint(qc: JsonValue) -> Option<(QuantizationScheme, Seq<char>)> {
    let method = str_at(qc, "quant_method"@);
    let bits = i64_at(qc, "bits"@);
    let wd = str_at(qc, "weight_dtype"@);
    if method == Some("gptq"@) && bits == Some(4i64) {
        Some((QuantizationScheme::GptqInt4, "config.json quantization_config.quant_method=gptq, bits=4"@))
    } else if method == Some("gptq"@) && bits == Some(8i64) {
        Some((QuantizationScheme::Int8, "config.json quantization_config.quant_method=gptq, bits=8"@))
    } else if method == Some("awq"@) && bits == Some(4i64) {
        Some((QuantizationScheme::AwqInt4, "config.json quantization_config.quant_method=awq, bits=4"@))
    } else if method == Some("fp8"@) {
        Some((QuantizationScheme::Fp8, "config.json quantization_config.quant_method=fp8"@))
    } else if method == Some("compressed-tensors"@) && compressed_group(qc) is Some {
        compressed_group(qc)
    } else if method == Some("bitsandbytes"@) && bool_at(qc, "load_in_4bit"@) == Some(true) {
        Some((QuantizationScheme::Int4, "config.json quant_method=bitsandbytes, load_in_4bit=true"@))
    } else if method == Some("bitsandbytes"@) && bool_at(qc, "load_in_8bit"@) == Some(true) {
        Some((QuantizationScheme::Int8, "config.json quant_method=bitsandbytes, load_in_8bit=true"@))
    } else if wd == Some("float8_e4m3fn"@) || wd == Some("float8_e5m2"@) {
        Some((QuantizationScheme::Fp8, "config.json quantization_config.weight_dtype="@ + wd->0))
    } else {
        None
    }
}

/// A declared floating-point storage dtype.
pub open spec fn dtype_scheme(d: Seq<char>) -> Option<QuantizationScheme> {
    if d == "bfloat16"@ {
        Some(QuantizationScheme::Bf16)
    } else if d == "float16"@ {
        Some(QuantizationScheme::Fp16)
    } else {
        None
    }
}

/// The storage dtype declared at `v[key]`, with its evidence path.
pub open spec fn dtype_at(v: JsonValue, key: Seq<char>, path: Seq<char>) -> Option<(QuantizationScheme, Seq<char>)> {
    match str_at(v, key) {
        Some(d) => match dtype_scheme(d) {
            Some(s) => Some((s, "config.json "@ + path + "="@ + d)),
            None => None,
        },
        None => None,
    }
}

/// Without a quantization config the declared dtype decides: the root
/// `torch_dtype` or `dtype`, else those of `text_config`.
pub open spec fn declared_dtype_fingerprint(config: JsonValue) -> Option<(QuantizationScheme, Seq<char>)> {
    let text = spec_get(config, "text_config"@);
    if dtype_at(config, "torch_dtype"@, "torch_dtype"@) is Some {
        dtype_at(config, "torch_dtype"@, "torch_dtype"@)
    } else if dtype_at(config, "dtype"@, "dtype"@) is Some {
        dtype_at(config, "dtype"@, "dtype"@)
    } else {
        match text {
            Some(t) => if dtype_at(t, "torch_dtype"@, "text_config.torch_dtype"@) is Some {
                dtype_at(t, "torch_dtype"@, "text_config.torch_dtype"@)
            } else {
                dtype_at(t, "dtype"@, "text_config.dtype"@)
            },
            None => None,
        }
    }
}

pub open spec fn config_fingerprint(config: JsonValue) -> Option<(QuantizationScheme, Seq<char>)> {
    match spec_get(config, "quantization_config"@) {
        Some(qc) => if qc is Object {
            quantization_config_fingerprint(qc)
        } else {
            declared_dtype_fingerprint(config)
        },
        None => declared_dtype_fingerprint(config),
    }
}

fn opt_is(o: Option<&str>, s: &str) -> (b: bool)
    ensures
        b == (crate::json::opt_seq(o) == Some(s@)),
{
    match o {
        Some(x) => str_eq(x, s),
        None => false,
    }
}

fn compressed_group_exec(qc: &JsonValue) -> (r: Option<QuantFingerprint>)
    ensures
        r is None <==> compressed_group(*qc) is None,
        r matches Some(f) ==> f.source_type == SourceType::ConfigJson && compressed_group(*qc) == Some(
            (f.scheme, f.evidence@),
        ),
{
    let groups = match get(qc, "config_groups") {
        Some(JsonValue::Object(g)) => g,
        _ => {
            return None;
        },
    };
    let mut i: usize = 0;
    assert(groups@.subrange(0, groups@.len() as int) =~= groups@);
    while i < groups.len()
        invariant
            i <= groups@.len(),
            spec_get(*qc, "config_groups"@) matches Some(JsonValue::Object(g)) && g@ == groups@,
            first_object_member(groups@) == first_object_member(groups@.subrange(i as int, groups@.len() as int)),
        decreases groups.len() - i,
    {
        assert(groups@.subrange(i as int, groups@.len() as int).drop_first() =~= groups@.subrange(
            i + 1,
            groups@.len() as int,
        ));
        match &groups[i].1 {
            JsonValue::Object(_) => {
                let group = &groups[i].1;
                assert(first_object_member(groups@) == Some(*group));
                let (num_bits, wtype): (Option<i64>, Option<&str>) = match get(group, "weights") {
                    Some(w) => match w {
                        JsonValue::Object(_) => (get_i64(w, "num_bits"), get_str(w, "type")),
                        _ => (None, None),
                    },
                    None => (None, None),
                };
                let ct = SourceType::ConfigJson;
                if num_bits == Some(8i64) && (opt_is(wtype, "float") || opt_is(wtype, "fp8")) {
                    return Some(fingerprint(
                        QuantizationScheme::Fp8,
                        ct,
                        "config.json compressed-tensors group weights=fp8/8bit",
                    ));
                }
                if num_bits == Some(8i64) && opt_is(wtype, "int") {
                    return Some(fingerprint(
                        QuantizationScheme::Int8,
                        ct,
                        "config.json compressed-tensors group weights=int/8bit",
                    ));
                }
                if num_bits == Some(4i64) && opt_is(wtype, "int") {
                    return Some(fingerprint(
                        QuantizationScheme::Int4,
                        ct,
                        "config.json compressed-tensors group weights=int/4bit",
                    ));
                }
                return None;
            },
            _ => {},
        }
        i = i + 1;
    }
    None
}

fn dtype_at_exec(v: &JsonValue, key: &str, path: &str) -> (r: Option<QuantFingerprint>)
    ensures
        r is None <==> dtype_at(*v, key@, path@) is None,
        r matches Some(f) ==> f.source_type == SourceType::ConfigJson && dtype_at(*v, key@, path@)
            == Some((f.scheme, f.evidence@)),
{
    match get_str(v, key) {
        Some(d) => {
            let scheme = if str_eq(d, "bfloat16") {
                QuantizationScheme::Bf16
            } else if str_eq(d, "float16") {
                QuantizationScheme::Fp16
            } else {
                return None;
            };
            let mut ev = String::new();
            ev.append("config.json ");
            ev.append(path);
            ev.append("=");
            ev.append(d);
            Some(QuantFingerprint { scheme, source_type: SourceType::ConfigJson, evidence: ev })
        },
        None => None,
    }
}

fn declared_dtype_exec(config: &JsonValue) -> (r: Option<QuantFingerprint>)
    ensures
        r is None <==> declared_dtype_fingerprint(*config) is None,
        r matches Some(f) ==> f.source_type == SourceType::ConfigJson
            && declared_dtype_fingerprint(*config) == Some((f.scheme, f.evidence@)),
{
    let root = dtype_at_exec(config, "torch_dtype", "torch_dtype");
    if root.is_some() {
        return root;
    }
    let root2 = dtype_at_exec(config, "dtype", "dtype");
    if root2.is_some() {
        return root2;
    }
    match get(config, "text_config") {
        Some(t) => {
            let a = dtype_at_exec(t, "torch_dtype", "text_config.torch_dtype");
            if a.is_some() {
                return a;
            }
            dtype_at_exec(t, "dtype", "text_config.dtype")
        },
        None => None,
    }
}

/// The quantization `config.json` declares: its `quantization_config`
/// (GPTQ, AWQ, FP8, compressed-tensors, bitsandbytes, an FP8 weight dtype),
/// or, without one, the declared BF16/FP16 storage dtype.
pub fn from_config(config: &JsonValue) -> (res: Option<QuantFingerprint>)
    ensures
        res is None <==> config_fingerprint(*config) is None,
        res matches Some(f) ==> f.source_type == SourceType::ConfigJson && config_fingerprint(*config)
            == Some((f.scheme, f.evidence@)),
{
    let qc = match get(config, "quantization_config") {
        Some(q) => match q {
            JsonValue::Object(_) => q,
            _ => {
                return declared_dtype_exec(config);
            },
        },
        None => {
            return declared_dtype_exec(config);
        },
    };
    let method = get_str(qc, "quant_method");
    let bits = get_i64(qc, "bits");
    let ct = SourceType::ConfigJson;
    if opt_is(method, "gptq") && bits == Some(4i64) {
        return Some(fingerprint(
            QuantizationScheme::GptqInt4,
            ct,
            "config.json quantization_config.quant_method=gptq, bits=4",
        ));
    }
    if opt_is(method, "gptq") && bits == Some(8i64) {
        return Some(fingerprint(
            QuantizationScheme::Int8,
            ct,
            "config.json quantization_config.quant_method=gptq, bits=8",
        ));
    }
    if opt_is(method, "awq") && bits == Some(4i64) {
        return Some(fingerprint(
            QuantizationScheme::AwqInt4,
            ct,
            "config.json quantization_config.quant_method=awq, bits=4",
        ));
    }
    if opt_is(method, "fp8") {
        return Some(fingerprint(
            QuantizationScheme::Fp8,
            ct,
            "config.json quantization_config.quant_method=fp8",
        ));
    }
    if opt_is(method, "compressed-tensors") {
        let g = compressed_group_exec(qc);
        if g.is_some() {
            return g;
        }
    }
    if opt_is(method, "bitsandbytes") && get_bool(qc, "load_in_4bit") == Some(true) {
        return Some(fingerprint(
            QuantizationScheme::Int4,
            ct,
            "config.json quant_method=bitsandbytes, load_in_4bit=true",
        ));
    }
    if opt_is(method, "bitsandbytes") && get_bool(qc, "load_in_8bit") == Some(true) {
        return Some(fingerprint(
            QuantizationScheme::Int8,
            ct,
            "config.json quant_method=bitsandbytes, load_in_8bit=true",
        ));
    }
    match get_str(qc, "weight_dtype") {
        Some(wd) => {
            if str_eq(wd, "float8_e4m3fn") || str_eq(wd, "float8_e5m2") {
                let mut ev = String::new();
                ev.append("config.json quantization_config.weight_dtype=");
                ev.append(wd);
                return Some(QuantFingerprint { scheme: QuantizationScheme::Fp8, source_type: ct, evidence: ev });
            }
        },
        None => {},
    }
    None
}

} // verus!
