//! Provenance labels carried by every user-facing number.
use vstd::prelude::*;

verus! {

/// How a value was obtained.
#[derive(Clone, Copy, Debug, PartialEq, Eq, Structural)]
pub enum Label {
    Verified,
    Inferred,
    Estimated,
    Cited,
    Unverified,
    Unknown,
    LlmOpinion,
}

pub open spec fn label_name(label: Label) -> Seq<char> {
    match label {
        Label::Verified => "verified"@,
        Label::Inferred => "inferred"@,
        Label::Estimated => "estimated"@,
        Label::Cited => "cited"@,
        Label::Unverified => "unverified"@,
        Label::Unknown => "unknown"@,
        Label::LlmOpinion => "llm-opinion"@,
    }
}

impl Label {
    /// Every label, in display order.
    pub fn all() -> (res: [Label; 7])
        ensures
            res@ == seq![
                Label::Verified,
                Label::Inferred,
                Label::Estimated,
                Label::Cited,
                Label::Unverified,
                Label::Unknown,
                Label::LlmOpinion,
            ],
    {
        let res = [
            Label::Verified,
            Label::Inferred,
            Label::Estimated,
            Label::Cited,
            Label::Unverified,
            Label::Unknown,
            Label::LlmOpinion,
        ];
        assert(res@ =~= seq![
            Label::Verified,
            Label::Inferred,
            Label::Estimated,
            Label::Cited,
            Label::Unverified,
            Label::Unknown,
            Label::LlmOpinion,
        ]);
        res
    }

    pub fn as_str(self) -> (res: &'static str)
        ensures
            res@ == label_name(self),
    {
        match self {
            Label::Verified => "verified",
            Label::Inferred => "inferred",
            Label::Estimated => "estimated",
            Label::Cited => "cited",
            Label::Unverified => "unverified",
            Label::Unknown => "unknown",
            Label::LlmOpinion => "llm-opinion",
        }
    }

    /// The label's name as an owned string (its display form).
    pub fn to_string(self) -> (res: String)
        ensures
            res@ == label_name(self),
    {
        self.as_str().to_string()
    }
}

pub open spec fn opt_text(o: Option<&str>) -> Option<Seq<char>> {
    match o {
        Some(s) => Some(s@),
        None => None,
    }
}

pub open spec fn opt_string(o: Option<String>) -> Option<Seq<char>> {
    match o {
        Some(s) => Some(s@),
        None => None,
    }
}

/// `Some(s)` copied into an owned string.
pub fn own_opt(o: Option<&str>) -> (res: Option<String>)
    ensures
        opt_string(res) == opt_text(o),
{
    match o {
        Some(s) => Some(s.to_string()),
        None => None,
    }
}

/// A value together with its provenance label and an optional note on where
/// it came from.
#[derive(Clone, Debug, PartialEq)]
pub struct AnnotatedValue<T> {
    pub value: T,
    pub label: Label,
    pub source: Option<String>,
}

impl<T> AnnotatedValue<T> {
    pub fn new(value: T, label: Label, source: Option<&str>) -> (res: Self)
        ensures
            res.value == value,
            res.label == label,
            opt_string(res.source) == opt_text(source),
    {
        AnnotatedValue { value, label, source: own_opt(source) }
    }

    /// The label in brackets, e.g. `[verified]`.
    pub fn render_tag(&self) -> (res: String)
        ensures
            res@ == seq!['['] + label_name(self.label) + seq![']'],
    {
        let mut s = String::new();
        s.push('[');
        s.append(self.label.as_str());
        s.push(']');
        assert(s@ =~= seq!['['] + label_name(self.label) + seq![']']);
        s
    }
}

} // verus!
