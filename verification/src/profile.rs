//! The architecture profile that the detectors build from `config.json`.
use vstd::prelude::*;
use crate::json::JsonNumber;

verus! {

#[derive(Clone, Copy, Debug, PartialEq, Eq, Structural)]
pub enum Family {
    Transformer,
    StateSpace,
    Unknown,
}

impl Family {
    pub fn as_str(self) -> (res: &'static str)
        ensures
            res@ == (match self {
                Family::Transformer => "transformer"@,
                Family::StateSpace => "state_space"@,
                Family::Unknown => "unknown"@,
            }),
    {
        match self {
            Family::Transformer => "transformer",
            Family::StateSpace => "state_space",
            Family::Unknown => "unknown",
        }
    }
}

#[derive(Clone, Copy, Debug, PartialEq, Eq, Structural)]
pub enum Confidence {
    High,
    Medium,
    Low,
}

impl Confidence {
    pub fn as_str(self) -> (res: &'static str)
        ensures
            res@ == (match self {
                Confidence::High => "high"@,
                Confidence::Medium => "medium"@,
                Confidence::Low => "low"@,
            }),
    {
        match self {
            Confidence::High => "high",
            Confidence::Medium => "medium",
            Confidence::Low => "low",
        }
    }
}

#[derive(Clone, Copy, Debug, PartialEq, Eq, Structural)]
pub enum AttentionVariant {
    Mha,
    Gqa,
    Mqa,
    Mla,
    Nsa,
    CsaHca,
}

pub open spec fn variant_name(v: AttentionVariant) -> Seq<char> {
    match v {
        AttentionVariant::Mha => "MHA"@,
        AttentionVariant::Gqa => "GQA"@,
        AttentionVariant::Mqa => "MQA"@,
        AttentionVariant::Mla => "MLA"@,
        AttentionVariant::Nsa => "NSA"@,
        AttentionVariant::CsaHca => "CSA_HCA"@,
    }
}

/// Sparse attention: NSA and CSA+HCA keep only part of the context.
pub open spec fn spec_is_sparse(v: AttentionVariant) -> bool {
    v == AttentionVariant::Nsa || v == AttentionVariant::CsaHca
}

impl AttentionVariant {
    pub fn as_str(self) -> (res: &'static str)
        ensures
            res@ == variant_name(self),
    {
        match self {
            AttentionVariant::Mha => "MHA",
            AttentionVariant::Gqa => "GQA",
            AttentionVariant::Mqa => "MQA",
            AttentionVariant::Mla => "MLA",
            AttentionVariant::Nsa => "NSA",
            AttentionVariant::CsaHca => "CSA_HCA",
        }
    }

    pub fn is_sparse(self) -> (res: bool)
        ensures
            res == spec_is_sparse(self),
    {
        match self {
            AttentionVariant::Nsa | AttentionVariant::CsaHca => true,
            _ => false,
        }
    }
}

#[derive(Clone, Debug, PartialEq, Eq)]
pub struct AttentionTraits {
    pub variant: AttentionVariant,
    pub num_heads: u64,
    pub num_kv_heads: u64,
    pub head_dim: u64,
    pub q_lora_rank: Option<u64>,
    pub kv_lora_rank: Option<u64>,
    pub qk_rope_head_dim: Option<u64>,
    pub compress_ratios: Option<Vec<u64>>,
    pub nsa_topk: Option<u64>,
}

#[derive(Clone, Debug, PartialEq, Eq)]
pub struct MoeTraits {
    pub num_routed_experts: u64,
    pub num_shared_experts: u64,
    pub num_experts_per_tok: u64,
    pub moe_intermediate_size: u64,
}

/// A JSON value that is not a container: what the profile keeps of
/// `config.json` beyond its counts.
#[derive(Debug, PartialEq)]
pub enum JsonScalar {
    Null,
    Bool(bool),
    Number(JsonNumber),
    Text(String),
}

#[derive(Debug, PartialEq)]
pub struct PositionTraits {
    pub rope_type: Option<String>,
    /// `rope_theta` as written in the config (a number, a numeric string or a
    /// boolean); absent when missing or falsy.
    pub rope_theta: Option<JsonScalar>,
    /// `rope_scaling.factor` as written in the config, under the same rule.
    pub rope_scaling_factor: Option<JsonScalar>,
    pub max_position_embeddings: Option<u64>,
}

impl PositionTraits {
    /// Plain RoPE with nothing else known.
    pub fn default() -> (res: Self)
        ensures
            res.rope_type.is_some() && res.rope_type.unwrap()@ == "rope"@,
            res.rope_theta.is_none(),
            res.rope_scaling_factor.is_none(),
            res.max_position_embeddings.is_none(),
    {
        PositionTraits {
            rope_type: Some("rope".to_string()),
            rope_theta: None,
            rope_scaling_factor: None,
            max_position_embeddings: None,
        }
    }
}

/// What the detectors know of a model's architecture.
#[derive(Debug, PartialEq)]
pub struct ArchitectureProfile {
    pub model_type: String,
    pub architectures: Vec<String>,
    pub family: Family,
    pub num_hidden_layers: u64,
    pub hidden_size: u64,
    pub vocab_size: u64,
    pub confidence: Confidence,
    pub attention: Option<AttentionTraits>,
    pub moe: Option<MoeTraits>,
    pub position: Option<PositionTraits>,
    pub sliding_window: Option<u64>,
    pub intermediate_size: Option<u64>,
    pub tie_word_embeddings: bool,
    /// Extra facts kept by name (`warning`, `v0_1_unsupported`,
    /// `intermediate_size`, `tie_word_embeddings`).
    pub auxiliary: Vec<(String, JsonScalar)>,
}

impl ArchitectureProfile {
    pub fn is_moe(&self) -> (res: bool)
        ensures
            res == self.moe.is_some(),
    {
        self.moe.is_some()
    }

    pub fn is_sparse_attention(&self) -> (res: bool)
        ensures
            res == (self.attention.is_some() && spec_is_sparse(self.attention.unwrap().variant)),
    {
        match &self.attention {
            Some(attention) => attention.variant.is_sparse(),
            None => false,
        }
    }

    /// An empty profile of unknown family and low confidence.
    pub fn default() -> (res: Self)
        ensures
            res.model_type@.len() == 0,
            res.architectures@.len() == 0,
            res.family == Family::Unknown,
            res.num_hidden_layers == 0,
            res.hidden_size == 0,
            res.vocab_size == 0,
            res.confidence == Confidence::Low,
            res.attention.is_none(),
            res.moe.is_none(),
            res.position.is_none(),
            res.sliding_window.is_none(),
            res.intermediate_size.is_none(),
            !res.tie_word_embeddings,
            res.auxiliary@.len() == 0,
    {
        ArchitectureProfile {
            model_type: String::new(),
            architectures: Vec::new(),
            family: Family::Unknown,
            num_hidden_layers: 0,
            hidden_size: 0,
            vocab_size: 0,
            confidence: Confidence::Low,
            attention: None,
            moe: None,
            position: None,
            sliding_window: None,
            intermediate_size: None,
            tie_word_embeddings: false,
            auxiliary: Vec::new(),
        }
    }
}

} // verus!
