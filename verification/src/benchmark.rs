//! Benchmark expectations and the verdicts of checking them.
use vstd::prelude::*;
use crate::json::{parse_i64, spec_parse_i64};
use crate::text::{dec, dec_signed, grouped, fmt_u64, i64_to_string, str_eq, u64_to_string};
use crate::evaluation::{option_of_tier, EvaluationReport};
use crate::planner::FleetOption;
use crate::profile::variant_name;
use crate::quant::scheme_name;
use crate::sources::{error_message, ModelSourceError};

verus! {

#[derive(Clone, Copy, Debug, PartialEq, Eq, Structural)]
pub enum Status {
    Pass,
    Fail,
    Skip,
}

pub open spec fn status_name(s: Status) -> Seq<char> {
    match s {
        Status::Pass => "PASS"@,
        Status::Fail => "FAIL"@,
        Status::Skip => "SKIP"@,
    }
}

impl Status {
    pub fn as_str(self) -> (res: &'static str)
        ensures
            res@ == status_name(self),
    {
        match self {
            Status::Pass => "PASS",
            Status::Fail => "FAIL",
            Status::Skip => "SKIP",
        }
    }
}

/// An expected value as written in the dataset.
pub enum ExpectedValue {
    String(String),
    Int(i64),
    Bool(bool),
}

/// How an expected value prints (booleans as `True`/`False`).
pub open spec fn expected_text(v: ExpectedValue) -> Seq<char> {
    match v {
        ExpectedValue::String(s) => s@,
        ExpectedValue::Int(n) => dec_signed(n as int),
        ExpectedValue::Bool(b) => if b { "True"@ } else { "False"@ },
    }
}

impl ExpectedValue {
    pub fn to_string(&self) -> (s: String)
        ensures
            s@ == expected_text(*self),
    {
        match self {
            ExpectedValue::String(v) => v.clone(),
            ExpectedValue::Int(n) => i64_to_string(*n),
            ExpectedValue::Bool(b) => if *b {
                "True".to_string()
            } else {
                "False".to_string()
            },
        }
    }
}

/// One field to check, against an exact value or a range, with its source.
pub struct Expectation {
    pub field: String,
    pub expected: Option<ExpectedValue>,
    pub expected_min: Option<u64>,
    pub expected_max: Option<u64>,
    pub source: String,
}

impl Expectation {
    pub fn expected(field: &str, expected: ExpectedValue, source: &str) -> (e: Self)
        ensures
            e.field@ == field@,
            e.expected == Some(expected),
            e.expected_min is None,
            e.expected_max is None,
            e.source@ == source@,
    {
        Expectation {
            field: field.to_string(),
            expected: Some(expected),
            expected_min: None,
            expected_max: None,
            source: source.to_string(),
        }
    }

    pub fn range(field: &str, expected_min: Option<u64>, expected_max: Option<u64>, source: &str) -> (e: Self)
        ensures
            e.field@ == field@,
            e.expected is None,
            e.expected_min == expected_min,
            e.expected_max == expected_max,
            e.source@ == source@,
    {
        Expectation {
            field: field.to_string(),
            expected: None,
            expected_min,
            expected_max,
            source: source.to_string(),
        }
    }
}

pub struct BenchmarkEntry {
    pub name: String,
    pub model_id: String,
    pub gpu: String,
    pub engine: String,
    pub expectations: Vec<Expectation>,
}

pub struct BenchmarkDataset {
    pub schema_version: u64,
    pub entries: Vec<BenchmarkEntry>,
}

/// The engine an entry is checked with when it names none.
pub fn default_engine() -> (s: String)
    ensures
        s@ == "vllm"@,
{
    "vllm".to_string()
}

pub struct CheckResult {
    pub entry_name: String,
    pub field: String,
    pub status: Status,
    pub predicted: String,
    pub expected: String,
    pub source: String,
    pub note: Option<String>,
}

impl CheckResult {
    pub fn new(
        entry_name: &str,
        field: &str,
        status: Status,
        predicted: &str,
        expected: &str,
        source: &str,
    ) -> (r: Self)
        ensures
            r.entry_name@ == entry_name@,
            r.field@ == field@,
            r.status == status,
            r.predicted@ == predicted@,
            r.expected@ == expected@,
            r.source@ == source@,
            r.note is None,
    {
        CheckResult {
            entry_name: entry_name.to_string(),
            field: field.to_string(),
            status,
            predicted: predicted.to_string(),
            expected: expected.to_string(),
            source: source.to_string(),
            note: None,
        }
    }

    pub fn with_note(self, note: String) -> (r: Self)
        ensures
            r.entry_name == self.entry_name,
            r.field == self.field,
            r.status == self.status,
            r.predicted == self.predicted,
            r.expected == self.expected,
            r.source == self.source,
            r.note == Some(note),
    {
        CheckResult { note: Some(note), ..self }
    }
}

/// An expectation as displayed: the exact value, `[low, high]` (with `-∞`
/// and `+∞` for open ends), or `(unspecified)`.
pub open spec fn expectation_text(e: Expectation) -> Seq<char> {
    match e.expected {
        Some(v) => expected_text(v),
        None => if e.expected_min is Some || e.expected_max is Some {
            "["@ + match e.expected_min {
                Some(lo) => grouped(lo as nat),
                None => "-∞"@,
            } + ", "@ + match e.expected_max {
                Some(hi) => grouped(hi as nat),
                None => "+∞"@,
            } + "]"@
        } else {
            "(unspecified)"@
        },
    }
}

pub fn fmt_expected(expectation: &Expectation) -> (s: String)
    ensures
        s@ == expectation_text(*expectation),
{
    match &expectation.expected {
        Some(v) => {
            return v.to_string();
        },
        None => {},
    }
    if expectation.expected_min.is_some() || expectation.expected_max.is_some() {
        let mut s = String::new();
        s.append("[");
        match expectation.expected_min {
            Some(lo) => s.append(fmt_u64(lo).as_str()),
            None => s.append("-∞"),
        }
        s.append(", ");
        match expectation.expected_max {
            Some(hi) => s.append(fmt_u64(hi).as_str()),
            None => s.append("+∞"),
        }
        s.append("]");
        return s;
    }
    "(unspecified)".to_string()
}

/// 1 when any check failed, else 0.
pub fn exit_code_from(results: &[CheckResult]) -> (code: i32)
    ensures
        code == (if exists|i: int| 0 <= i < results@.len() && #[trigger] results@[i].status
            == Status::Fail {
            1i32
        } else {
            0i32
        }),
{
    let mut i: usize = 0;
    while i < results.len()
        invariant
            i <= results@.len(),
            forall|j: int| 0 <= j < i ==> #[trigger] results@[j].status != Status::Fail,
        decreases results.len() - i,
    {
        match results[i].status {
            Status::Fail => {
                return 1;
            },
            _ => {},
        }
        i = i + 1;
    }
    0
}

/// Pass when a text expectation equals the actual text.
pub open spec fn text_verdict(actual: Seq<char>, expected: Option<ExpectedValue>) -> Status {
    match expected {
        Some(ExpectedValue::String(e)) => if e@ == actual { Status::Pass } else { Status::Fail },
        _ => Status::Fail,
    }
}

pub fn pass_if_string(actual: &str, expected: &Option<ExpectedValue>) -> (s: Status)
    ensures
        s == text_verdict(actual@, *expected),
{
    match expected {
        Some(ExpectedValue::String(e)) => if crate::text::str_eq(e.as_str(), actual) {
            Status::Pass
        } else {
            Status::Fail
        },
        _ => Status::Fail,
    }
}

/// Pass when a boolean expectation equals the actual value.
pub open spec fn bool_verdict(actual: bool, expected: Option<ExpectedValue>) -> Status {
    match expected {
        Some(ExpectedValue::Bool(e)) => if e == actual { Status::Pass } else { Status::Fail },
        _ => Status::Fail,
    }
}

pub fn pass_if_bool(actual: bool, expected: &Option<ExpectedValue>) -> (s: Status)
    ensures
        s == bool_verdict(actual, *expected),
{
    match expected {
        Some(ExpectedValue::Bool(e)) => if *e == actual {
            Status::Pass
        } else {
            Status::Fail
        },
        _ => Status::Fail,
    }
}

/// An expected value read as an integer (numeric strings too).
pub open spec fn expected_int(v: ExpectedValue) -> Option<i64> {
    match v {
        ExpectedValue::Int(n) => Some(n),
        ExpectedValue::String(s) => spec_parse_i64(s@),
        ExpectedValue::Bool(_) => None,
    }
}

pub fn expected_as_i64(v: &ExpectedValue) -> (r: Option<i64>)
    ensures
        r == expected_int(*v),
{
    match v {
        ExpectedValue::Int(n) => Some(*n),
        ExpectedValue::String(s) => parse_i64(s.as_str()),
        ExpectedValue::Bool(_) => None,
    }
}

/// An expectation's value read as an integer, if it is one.
pub open spec fn expected_i64(e: Expectation) -> Option<i64> {
    match e.expected {
        Some(v) => expected_int(v),
        None => None,
    }
}

/// The report's `prod` tier, if it was planned.
pub open spec fn prod_tier(r: EvaluationReport) -> Option<FleetOption> {
    match r.fleet {
        Some(f) => option_of_tier(f.options@, "prod"@),
        None => None,
    }
}

/// Why a fleet check is skipped: no plan, or no `prod` tier in it.
pub open spec fn fleet_missing(r: EvaluationReport) -> (Seq<char>, Status) {
    if r.fleet is None {
        ("(no fleet)"@, Status::Skip)
    } else {
        ("(no prod tier)"@, Status::Skip)
    }
}

/// The predicted value of a checked field, and whether it passes. Attention
/// variant, quantization and MoE-ness are compared for equality, weight
/// bytes against a range (open ends at 0 and 2^62), the `prod` tier's GPU
/// count exactly or as a ceiling; anything else is skipped.
pub open spec fn field_check(r: EvaluationReport, e: Expectation) -> (Seq<char>, Status) {
    let f = e.field@;
    if f == "attention_variant"@ {
        let a = match r.profile.attention {
            Some(at) => variant_name(at.variant),
            None => "(none)"@,
        };
        (a, text_verdict(a, e.expected))
    } else if f == "quantization"@ {
        let q = scheme_name(r.weight.quantization_guess.value);
        (q, text_verdict(q, e.expected))
    } else if f == "is_moe"@ {
        let m = r.profile.moe is Some;
        (
            if m {
                "true"@
            } else {
                "false"@
            },
            bool_verdict(m, e.expected),
        )
    } else if f == "weight_bytes"@ {
        let v = r.weight.total_bytes.value;
        let lo: u64 = match e.expected_min {
            Some(x) => x,
            None => 0,
        };
        let hi: u64 = match e.expected_max {
            Some(x) => x,
            None => 0x4000_0000_0000_0000,
        };
        (
            grouped(v as nat),
            if lo <= v && v <= hi {
                Status::Pass
            } else {
                Status::Fail
            },
        )
    } else if f == "fleet_prod_gpus"@ {
        match prod_tier(r) {
            None => fleet_missing(r),
            Some(o) => (
                dec(o.gpu_count as nat),
                if expected_i64(e) == Some(o.gpu_count as i64) {
                    Status::Pass
                } else {
                    Status::Fail
                },
            ),
        }
    } else if f == "fleet_prod_gpus_at_most"@ {
        match prod_tier(r) {
            None => fleet_missing(r),
            Some(o) => {
                let x: i64 = match expected_i64(e) {
                    Some(x) => x,
                    None => 0,
                };
                (
                    dec(o.gpu_count as nat) + " (max "@ + dec_signed(x as int) + ")"@,
                    if (o.gpu_count as i64) <= x {
                        Status::Pass
                    } else {
                        Status::Fail
                    },
                )
            },
        }
    } else {
        ("(unknown field)"@, Status::Skip)
    }
}

fn prod_option<'a>(report: &'a EvaluationReport) -> (r: Option<&'a FleetOption>)
    ensures
        match r {
            Some(o) => prod_tier(*report) == Some(*o),
            None => prod_tier(*report) is None,
        },
{
    let f = match &report.fleet {
        Some(f) => f,
        None => {
            return None;
        },
    };
    let mut i: usize = 0;
    assert(f.options@.subrange(0, f.options@.len() as int) =~= f.options@);
    while i < f.options.len()
        invariant
            i <= f.options@.len(),
            report.fleet == Some(*f),
            option_of_tier(f.options@, "prod"@) == option_of_tier(
                f.options@.subrange(i as int, f.options@.len() as int),
                "prod"@,
            ),
        decreases f.options.len() - i,
    {
        assert(f.options@.subrange(i as int, f.options@.len() as int).drop_first() =~= f.options@.subrange(
            i + 1,
            f.options@.len() as int,
        ));
        if str_eq(f.options[i].tier, "prod") {
            return Some(&f.options[i]);
        }
        i = i + 1;
    }
    None
}

fn missing_fleet(report: &EvaluationReport) -> (r: (String, Status))
    ensures
        (r.0@, r.1) == fleet_missing(*report),
{
    if report.fleet.is_none() {
        ("(no fleet)".to_string(), Status::Skip)
    } else {
        ("(no prod tier)".to_string(), Status::Skip)
    }
}

fn expected_value_i64(e: &Expectation) -> (r: Option<i64>)
    ensures
        r == expected_i64(*e),
{
    match &e.expected {
        Some(v) => expected_as_i64(v),
        None => None,
    }
}

/// Checks one field of a report against its expectation, giving the
/// predicted value as shown and the status.
pub fn evaluate_field(report: &EvaluationReport, expectation: &Expectation) -> (r: (String, Status))
    ensures
        (r.0@, r.1) == field_check(*report, *expectation),
{
    let f = expectation.field.as_str();
    if str_eq(f, "attention_variant") {
        let actual = match &report.profile.attention {
            Some(a) => a.variant.as_str(),
            None => "(none)",
        };
        (actual.to_string(), pass_if_string(actual, &expectation.expected))
    } else if str_eq(f, "quantization") {
        let actual = report.weight.quantization_guess.value.as_str();
        (actual.to_string(), pass_if_string(actual, &expectation.expected))
    } else if str_eq(f, "is_moe") {
        let actual = report.profile.is_moe();
        (
            if actual {
                "true".to_string()
            } else {
                "false".to_string()
            },
            pass_if_bool(actual, &expectation.expected),
        )
    } else if str_eq(f, "weight_bytes") {
        let actual = report.weight.total_bytes.value;
        let low: u64 = match expectation.expected_min {
            Some(x) => x,
            None => 0,
        };
        let high: u64 = match expectation.expected_max {
            Some(x) => x,
            None => 0x4000_0000_0000_0000,
        };
        (
            fmt_u64(actual),
            if low <= actual && actual <= high {
                Status::Pass
            } else {
                Status::Fail
            },
        )
    } else if str_eq(f, "fleet_prod_gpus") {
        let prod = match prod_option(report) {
            Some(o) => o,
            None => {
                return missing_fleet(report);
            },
        };
        let passed = match expected_value_i64(expectation) {
            Some(x) => prod.gpu_count as i64 == x,
            None => false,
        };
        (
            u64_to_string(prod.gpu_count),
            if passed {
                Status::Pass
            } else {
                Status::Fail
            },
        )
    } else if str_eq(f, "fleet_prod_gpus_at_most") {
        let prod = match prod_option(report) {
            Some(o) => o,
            None => {
                return missing_fleet(report);
            },
        };
        let expected: i64 = match expected_value_i64(expectation) {
            Some(x) => x,
            None => 0,
        };
        let mut text = u64_to_string(prod.gpu_count);
        text.append(" (max ");
        text.append(i64_to_string(expected).as_str());
        text.append(")");
        (
            text,
            if (prod.gpu_count as i64) <= expected {
                Status::Pass
            } else {
                Status::Fail
            },
        )
    } else {
        ("(unknown field)".to_string(), Status::Skip)
    }
}

/// The check of one expectation against a report.
pub fn check_one(entry_name: &str, report: &EvaluationReport, expectation: &Expectation) -> (c: CheckResult)
    ensures
        c.entry_name@ == entry_name@,
        c.field@ == expectation.field@,
        (c.predicted@, c.status) == field_check(*report, *expectation),
        c.expected@ == expectation_text(*expectation),
        c.source@ == expectation.source@,
        c.note is None,
{
    let (predicted, status) = evaluate_field(report, expectation);
    CheckResult::new(
        entry_name,
        expectation.field.as_str(),
        status,
        predicted.as_str(),
        fmt_expected(expectation).as_str(),
        expectation.source.as_str(),
    )
}

/// The checks of a benchmark entry: each expectation against the report,
/// or, when the evaluation failed, each one skipped with the error noted.
pub fn entry_checks(entry: &BenchmarkEntry, outcome: Result<&EvaluationReport, &ModelSourceError>) -> (v: Vec<
    CheckResult,
>)
    ensures
        v@.len() == entry.expectations@.len(),
        forall|i: int|
            0 <= i < v@.len() ==> {
                let c = #[trigger] v@[i];
                let e = entry.expectations@[i];
                &&& c.entry_name@ == entry.name@
                &&& c.field@ == e.field@
                &&& c.expected@ == expectation_text(e)
                &&& c.source@ == e.source@
                &&& match outcome {
                    Ok(r) => (c.predicted@, c.status) == field_check(*r, e) && c.note is None,
                    Err(err) => c.predicted@ == "(evaluation failed)"@ && c.status == Status::Skip && c.note
                        is Some && c.note->0@ == error_message(*err),
                }
            },
{
    let mut v: Vec<CheckResult> = Vec::new();
    let mut i: usize = 0;
    while i < entry.expectations.len()
        invariant
            i <= entry.expectations@.len(),
            v@.len() == i,
            forall|j: int|
                0 <= j < i ==> {
                    let c = #[trigger] v@[j];
                    let e = entry.expectations@[j];
                    &&& c.entry_name@ == entry.name@
                    &&& c.field@ == e.field@
                    &&& c.expected@ == expectation_text(e)
                    &&& c.source@ == e.source@
                    &&& match outcome {
                        Ok(r) => (c.predicted@, c.status) == field_check(*r, e) && c.note is None,
                        Err(err) => c.predicted@ == "(evaluation failed)"@ && c.status == Status::Skip && c.note
                            is Some && c.note->0@ == error_message(*err),
                    }
                },
        decreases entry.expectations.len() - i,
    {
        let e = &entry.expectations[i];
        let c = match outcome {
            Ok(r) => check_one(entry.name.as_str(), r, e),
            Err(err) => CheckResult::new(
                entry.name.as_str(),
                e.field.as_str(),
                Status::Skip,
                "(evaluation failed)",
                fmt_expected(e).as_str(),
                e.source.as_str(),
            ).with_note(err.to_string()),
        };
        v.push(c);
        i = i + 1;
    }
    v
}

} // verus!
