//! Quantization schemes and the byte-count analysis of a checkpoint.
use vstd::prelude::*;
use crate::labels::{AnnotatedValue, Label, opt_string};
use crate::capped::{cap_add, cap_of, capped};
use crate::fingerprint::QuantFingerprint;
use crate::sources::SiblingFile;
use crate::text::{str_eq, ends_with, seq_ends_with, dec, fixed, fmt_fixed_wide, u64_to_string};

verus! {

#[derive(Clone, Copy, Debug, PartialEq, Eq, Hash, Structural)]
pub enum QuantizationScheme {
    Fp16,
    Bf16,
    Fp8,
    Int8,
    Fp4Fp8Mixed,
    Int4,
    GptqInt4,
    AwqInt4,
    Unknown,
}

pub open spec fn scheme_name(s: QuantizationScheme) -> Seq<char> {
    match s {
        QuantizationScheme::Fp16 => "FP16"@,
        QuantizationScheme::Bf16 => "BF16"@,
        QuantizationScheme::Fp8 => "FP8"@,
        QuantizationScheme::Int8 => "INT8"@,
        QuantizationScheme::Fp4Fp8Mixed => "FP4_FP8_MIXED"@,
        QuantizationScheme::Int4 => "INT4"@,
        QuantizationScheme::GptqInt4 => "GPTQ_INT4"@,
        QuantizationScheme::AwqInt4 => "AWQ_INT4"@,
        QuantizationScheme::Unknown => "UNKNOWN"@,
    }
}

pub open spec fn all_schemes() -> Seq<QuantizationScheme> {
    seq![
        QuantizationScheme::Fp16,
        QuantizationScheme::Bf16,
        QuantizationScheme::Fp8,
        QuantizationScheme::Int8,
        QuantizationScheme::Fp4Fp8Mixed,
        QuantizationScheme::Int4,
        QuantizationScheme::GptqInt4,
        QuantizationScheme::AwqInt4,
        QuantizationScheme::Unknown,
    ]
}

/// The scheme whose canonical name is exactly `name`, if any.
pub open spec fn scheme_of_name(name: Seq<char>) -> Option<QuantizationScheme> {
    if exists|i: int| 0 <= i < 9 && scheme_name(#[trigger] all_schemes()[i]) == name {
        Some(all_schemes()[choose|i: int| 0 <= i < 9 && scheme_name(#[trigger] all_schemes()[i]) == name])
    } else {
        None
    }
}

/// Bytes per parameter as an exact fraction (numerator, denominator).
pub open spec fn spec_bpp_ratio(s: QuantizationScheme) -> Option<(u64, u64)> {
    match s {
        QuantizationScheme::Fp16 | QuantizationScheme::Bf16 => Some((2, 1)),
        QuantizationScheme::Fp8 | QuantizationScheme::Int8 => Some((1, 1)),
        QuantizationScheme::Fp4Fp8Mixed | QuantizationScheme::GptqInt4
        | QuantizationScheme::AwqInt4 => Some((55, 100)),
        QuantizationScheme::Int4 => Some((1, 2)),
        QuantizationScheme::Unknown => None,
    }
}

pub proof fn lemma_names_distinct()
    ensures
        forall|i: int, j: int|
            0 <= i < 9 && 0 <= j < 9 && i != j ==> scheme_name(#[trigger] all_schemes()[i])
                != scheme_name(#[trigger] all_schemes()[j]),
{
    reveal_strlit("FP16");
    reveal_strlit("BF16");
    reveal_strlit("FP8");
    reveal_strlit("INT8");
    reveal_strlit("FP4_FP8_MIXED");
    reveal_strlit("INT4");
    reveal_strlit("GPTQ_INT4");
    reveal_strlit("AWQ_INT4");
    reveal_strlit("UNKNOWN");
    assert forall|i: int, j: int|
        0 <= i < 9 && 0 <= j < 9 && i != j implies scheme_name(#[trigger] all_schemes()[i])
            != scheme_name(#[trigger] all_schemes()[j]) by {
        let a = scheme_name(all_schemes()[i]);
        let b = scheme_name(all_schemes()[j]);
        if a == b {
            assert(a.len() == b.len());
            assert(a[0] == b[0]);
            if a.len() > 2 {
                assert(a[2] == b[2]);
            }
            if a.len() > 3 {
                assert(a[3] == b[3]);
            }
            if a.len() > 4 {
                assert(a[4] == b[4]);
            }
        }
    }
}

/// The scheme at a position of `all_schemes()` is the one named by its name.
pub proof fn lemma_scheme_of_name_at(i: int)
    requires
        0 <= i < 9,
    ensures
        scheme_of_name(scheme_name(all_schemes()[i])) == Some(all_schemes()[i]),
{
    lemma_names_distinct();
    let name = scheme_name(all_schemes()[i]);
    assert(scheme_name(all_schemes()[i]) == name);
    let j = choose|j: int| 0 <= j < 9 && scheme_name(#[trigger] all_schemes()[j]) == name;
    assert(j == i);
}

impl QuantizationScheme {
    pub fn all() -> (res: [QuantizationScheme; 9])
        ensures
            res@ == all_schemes(),
    {
        let res = [
            QuantizationScheme::Fp16,
            QuantizationScheme::Bf16,
            QuantizationScheme::Fp8,
            QuantizationScheme::Int8,
            QuantizationScheme::Fp4Fp8Mixed,
            QuantizationScheme::Int4,
            QuantizationScheme::GptqInt4,
            QuantizationScheme::AwqInt4,
            QuantizationScheme::Unknown,
        ];
        assert(res@ =~= all_schemes());
        res
    }

    pub fn as_str(self) -> (res: &'static str)
        ensures
            res@ == scheme_name(self),
    {
        match self {
            QuantizationScheme::Fp16 => "FP16",
            QuantizationScheme::Bf16 => "BF16",
            QuantizationScheme::Fp8 => "FP8",
            QuantizationScheme::Int8 => "INT8",
            QuantizationScheme::Fp4Fp8Mixed => "FP4_FP8_MIXED",
            QuantizationScheme::Int4 => "INT4",
            QuantizationScheme::GptqInt4 => "GPTQ_INT4",
            QuantizationScheme::AwqInt4 => "AWQ_INT4",
            QuantizationScheme::Unknown => "UNKNOWN",
        }
    }

    /// The display form (the canonical name).
    pub fn to_string(self) -> (res: String)
        ensures
            res@ == scheme_name(self),
    {
        self.as_str().to_string()
    }

    /// Parses a canonical scheme name (case-sensitive).
    pub fn from_name(name: &str) -> (res: Option<QuantizationScheme>)
        ensures
            res == scheme_of_name(name@),
    {
        let all = QuantizationScheme::all();
        let mut i: usize = 0;
        while i < 9
            invariant
                0 <= i <= 9,
                all@ == all_schemes(),
                forall|j: int| 0 <= j < i ==> scheme_name(#[trigger] all_schemes()[j]) != name@,
            decreases 9 - i,
        {
            let s = all[i];
            if str_eq(s.as_str(), name) {
                proof {
                    lemma_scheme_of_name_at(i as int);
                }
                return Some(s);
            }
            i = i + 1;
        }
        None
    }

    pub fn bpp_ratio(self) -> (res: Option<(u64, u64)>)
        ensures
            res == spec_bpp_ratio(self),
    {
        match self {
            QuantizationScheme::Fp16 | QuantizationScheme::Bf16 => Some((2, 1)),
            QuantizationScheme::Fp8 | QuantizationScheme::Int8 => Some((1, 1)),
            QuantizationScheme::Fp4Fp8Mixed | QuantizationScheme::GptqInt4
            | QuantizationScheme::AwqInt4 => Some((55, 100)),
            QuantizationScheme::Int4 => Some((1, 2)),
            QuantizationScheme::Unknown => None,
        }
    }
}

/// Bytes in the `.safetensors` files of a listing (a file of unknown size
/// counting as empty).
pub open spec fn safetensors_total(files: Seq<SiblingFile>) -> int
    decreases files.len(),
{
    if files.len() == 0 {
        0
    } else {
        let f = files.last();
        safetensors_total(files.drop_last()) + if seq_ends_with(f.filename@, ".safetensors"@) {
            match f.size {
                Some(n) => n as int,
                None => 0int,
            }
        } else {
            0int
        }
    }
}

proof fn lemma_safetensors_total_prefix(files: Seq<SiblingFile>, i: int)
    requires
        0 <= i <= files.len(),
    ensures
        0 <= safetensors_total(files.subrange(0, i)) <= safetensors_total(files),
    decreases files.len() - i,
{
    if i < files.len() {
        lemma_safetensors_total_prefix(files, i + 1);
        assert(files.subrange(0, i + 1).drop_last() =~= files.subrange(0, i));
    } else {
        assert(files.subrange(0, i) =~= files);
    }
    lemma_safetensors_total_nonneg(files.subrange(0, i));
}

proof fn lemma_safetensors_total_nonneg(files: Seq<SiblingFile>)
    ensures
        safetensors_total(files) >= 0,
    decreases files.len(),
{
    if files.len() > 0 {
        lemma_safetensors_total_nonneg(files.drop_last());
    }
}

/// Sums the sizes of the `.safetensors` files.
pub fn safetensors_total_bytes(files: &Vec<SiblingFile>) -> (n: u64)
    requires
        safetensors_total(files@) <= u64::MAX,
    ensures
        n == safetensors_total(files@),
{
    let mut total: u64 = 0;
    let mut i: usize = 0;
    while i < files.len()
        invariant
            i <= files@.len(),
            safetensors_total(files@) <= u64::MAX,
            total == safetensors_total(files@.subrange(0, i as int)),
        decreases files.len() - i,
    {
        proof {
            assert(files@.subrange(0, i + 1).drop_last() =~= files@.subrange(0, i as int));
            lemma_safetensors_total_prefix(files@, i + 1);
            lemma_safetensors_total_nonneg(files@.subrange(0, i as int));
        }
        if ends_with(files[i].filename.as_str(), ".safetensors") {
            match files[i].size {
                Some(n) => {
                    total = total + n;
                },
                None => {},
            }
        }
        i = i + 1;
    }
    assert(files@.subrange(0, files@.len() as int) =~= files@);
    total
}

/// Bits per parameter to two decimals: `8 * bytes / params`.
pub open spec fn bits_text(bytes: u64, params: u64) -> Seq<char> {
    fixed((8 * bytes) as nat, params as nat, 2)
}

/// The schemes a bytes-per-parameter figure is matched against, with each
/// anchor and tolerance in hundredths of a byte per parameter.
pub open spec fn guess_anchors() -> Seq<(QuantizationScheme, int, int)> {
    seq![
        (QuantizationScheme::Fp16, 200int, 5int),
        (QuantizationScheme::Fp8, 100int, 5int),
        (QuantizationScheme::Fp4Fp8Mixed, 55int, 10int),
        (QuantizationScheme::Int4, 50int, 5int),
        (QuantizationScheme::GptqInt4, 55int, 10int),
    ]
}

/// Distance of `bytes / params` from an anchor, in units of `1 / (100 * params)`.
pub open spec fn anchor_distance(bytes: u64, params: u64, anchor: int) -> int {
    let x = 100 * bytes - anchor * params;
    if x < 0 {
        -x
    } else {
        x
    }
}

/// The closest anchor within its tolerance among the first `k`; on equal
/// distance the earlier one.
pub open spec fn closest_anchor(bytes: u64, params: u64, k: int) -> Option<(QuantizationScheme, int)>
    decreases k,
{
    if k <= 0 {
        None
    } else {
        let prev = closest_anchor(bytes, params, k - 1);
        let (s, a, t) = guess_anchors()[k - 1];
        let d = anchor_distance(bytes, params, a);
        if d <= t * params && (match prev {
            Some((_, pd)) => d < pd,
            None => true,
        }) {
            Some((s, d))
        } else {
            prev
        }
    }
}

/// The scheme guessed from bytes per parameter alone.
pub open spec fn guessed(bytes: u64, params: u64) -> (QuantizationScheme, Label, Seq<char>) {
    match closest_anchor(bytes, params, 5) {
        Some((s, _)) => (s, Label::Inferred, "bits/param "@ + bits_text(bytes, params) + " within tolerance of "@
            + scheme_name(s)),
        None => (QuantizationScheme::Unknown, Label::Unknown, "bits/param "@ + bits_text(bytes, params)
            + " does not match known schemes"@),
    }
}

pub(crate) fn bits_per_param_text(bytes: u64, params: u64) -> (s: String)
    requires
        params > 0,
    ensures
        s@ == bits_text(bytes, params),
{
    fmt_fixed_wide(8 * (bytes as u128), params as u128, 2)
}

fn guess_quantization(bytes: u64, params: u64) -> (r: AnnotatedValue<QuantizationScheme>)
    requires
        params > 0,
    ensures
        (r.value, r.label, opt_string(r.source)->0) == guessed(bytes, params),
        r.source is Some,
{
    let schemes = [
        QuantizationScheme::Fp16,
        QuantizationScheme::Fp8,
        QuantizationScheme::Fp4Fp8Mixed,
        QuantizationScheme::Int4,
        QuantizationScheme::GptqInt4,
    ];
    let anchors: [u128; 5] = [200, 100, 55, 50, 55];
    let tolerances: [u128; 5] = [5, 5, 10, 5, 10];
    let mut best: Option<(QuantizationScheme, u128)> = None;
    let mut k: usize = 0;
    while k < 5
        invariant
            k <= 5,
            params > 0,
            forall|i: int| 0 <= i < 5 ==> (#[trigger] schemes@[i], anchors@[i] as int, tolerances@[i] as int)
                == guess_anchors()[i],
            match best {
                Some((s, d)) => closest_anchor(bytes, params, k as int) == Some((s, d as int)),
                None => closest_anchor(bytes, params, k as int) is None,
            },
        decreases 5 - k,
    {
        assert((schemes@[k as int], anchors@[k as int] as int, tolerances@[k as int] as int) == guess_anchors()[k as int]);
        assert(tolerances@[k as int] <= 10 && anchors@[k as int] <= 200);
        let tol: u128 = tolerances[k];
        assert(tol * (params as u128) <= 10 * 0xffff_ffff_ffff_ffffu128) by (nonlinear_arith)
            requires
                tol <= 10,
                params <= 0xffff_ffff_ffff_ffffu64,
        ;
        let scaled: u128 = 100 * (bytes as u128);
        let target: u128 = anchors[k] * (params as u128);
        let d: u128 = if scaled >= target {
            scaled - target
        } else {
            target - scaled
        };
        let within = d <= tol * (params as u128);
        let closer = match best {
            Some((_, bd)) => d < bd,
            None => true,
        };
        if within && closer {
            best = Some((schemes[k], d));
        }
        k = k + 1;
    }
    match best {
        Some((s, _)) => {
            let mut note = "bits/param ".to_string();
            note.append(bits_per_param_text(bytes, params).as_str());
            note.append(" within tolerance of ");
            note.append(s.as_str());
            AnnotatedValue::new(s, Label::Inferred, Some(note.as_str()))
        },
        None => {
            let mut note = "bits/param ".to_string();
            note.append(bits_per_param_text(bytes, params).as_str());
            note.append(" does not match known schemes");
            AnnotatedValue::new(QuantizationScheme::Unknown, Label::Unknown, Some(note.as_str()))
        },
    }
}

/// What the weight files say: their total size, bits per parameter (as the
/// exact fraction `8 * bytes / params`, kept as the pair `(bytes, params)`),
/// and the quantization they point to.
pub struct WeightReport {
    pub total_bytes: AnnotatedValue<u64>,
    pub bits_per_param: Option<AnnotatedValue<(u64, u64)>>,
    pub quantization_guess: AnnotatedValue<QuantizationScheme>,
}

/// What `analyze` reports. The total always comes from the listing. With
/// no parameter count (or zero) or no weight bytes, nothing more is known;
/// otherwise bits per parameter are inferred and the quantization is the
/// declared fingerprint's, else guessed from bytes per parameter.
pub open spec fn analyzes(
    r: WeightReport,
    files: Seq<SiblingFile>,
    total_params: Option<u64>,
    declared: Option<(QuantizationScheme, Seq<char>)>,
) -> bool {
    let observed = safetensors_total(files);
    &&& r.total_bytes.value == observed
    &&& r.total_bytes.label == Label::Verified
    &&& opt_string(r.total_bytes.source) == Some("sum of safetensors siblings from model_info API"@)
    &&& if total_params is None || total_params->0 == 0 || observed == 0 {
        &&& r.bits_per_param is None
        &&& r.quantization_guess.value == QuantizationScheme::Unknown
        &&& r.quantization_guess.label == Label::Unknown
        &&& opt_string(r.quantization_guess.source) == Some("total_params unknown or no safetensors files"@)
    } else {
        let params = total_params->0;
        &&& r.bits_per_param matches Some(b) && b.value == (observed as u64, params) && b.label == Label::Inferred
            && opt_string(b.source) == Some(dec(observed as nat) + " bytes / "@ + dec(params as nat) + " params"@)
        &&& match declared {
            Some((s, evidence)) => r.quantization_guess.value == s && r.quantization_guess.label == Label::Verified
                && opt_string(r.quantization_guess.source) == Some(evidence),
            None => (r.quantization_guess.value, r.quantization_guess.label, opt_string(
                r.quantization_guess.source,
            )->0) == guessed(observed as u64, params) && r.quantization_guess.source is Some,
        }
    }
}

/// Reads the weight listing: total bytes, bits per parameter and the
/// quantization.
pub fn analyze(siblings: &Vec<SiblingFile>, total_params: Option<u64>, fingerprint: Option<&QuantFingerprint>) -> (r:
    WeightReport)
    requires
        safetensors_total(siblings@) <= u64::MAX,
    ensures
        analyzes(r, siblings@, total_params, crate::reconciler::declared_view(fingerprint)),
{
    let observed = safetensors_total_bytes(siblings);
    let total_bytes = AnnotatedValue::new(
        observed,
        Label::Verified,
        Some("sum of safetensors siblings from model_info API"),
    );
    let params = match total_params {
        Some(p) => p,
        None => 0,
    };
    if params == 0 || observed == 0 {
        return WeightReport {
            total_bytes,
            bits_per_param: None,
            quantization_guess: AnnotatedValue::new(
                QuantizationScheme::Unknown,
                Label::Unknown,
                Some("total_params unknown or no safetensors files"),
            ),
        };
    }
    let mut note = u64_to_string(observed);
    note.append(" bytes / ");
    note.append(u64_to_string(params).as_str());
    note.append(" params");
    let bits_per_param = Some(AnnotatedValue::new((observed, params), Label::Inferred, Some(note.as_str())));
    let quantization_guess = match fingerprint {
        Some(f) => AnnotatedValue::new(f.scheme, Label::Verified, Some(f.evidence.as_str())),
        None => guess_quantization(observed, params),
    };
    WeightReport { total_bytes, bits_per_param, quantization_guess }
}

/// Whether the `.safetensors` sizes of a listing sum within `u64`.
pub fn safetensors_total_fits(files: &Vec<SiblingFile>) -> (b: bool)
    ensures
        b == (safetensors_total(files@) <= u64::MAX),
{
    let mut total: Option<u64> = Some(0);
    let mut i: usize = 0;
    while i < files.len()
        invariant
            i <= files@.len(),
            total == capped(safetensors_total(files@.subrange(0, i as int))),
        decreases files.len() - i,
    {
        proof {
            assert(files@.subrange(0, i + 1).drop_last() =~= files@.subrange(0, i as int));
            lemma_safetensors_total_nonneg(files@.subrange(0, i as int));
        }
        let add: u64 = if ends_with(files[i].filename.as_str(), ".safetensors") {
            match files[i].size {
                Some(n) => n,
                None => 0,
            }
        } else {
            0
        };
        total = cap_add(total, cap_of(add), Ghost(safetensors_total(files@.subrange(0, i as int))), Ghost(add as int));
        i = i + 1;
    }
    assert(files@.subrange(0, files@.len() as int) =~= files@);
    total.is_some()
}

} // verus!
