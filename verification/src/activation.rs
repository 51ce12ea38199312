//! Activation-memory estimate for one prefill batch.
use vstd::prelude::*;
use crate::labels::{AnnotatedValue, Label, opt_string};
use crate::profile::{ArchitectureProfile, Confidence, Family};
use crate::text::{dec, fixed, fmt_fixed_wide, u64_to_string};

verus! {

/// Tokens processed in one prefill step when nothing else is configured.
pub const DEFAULT_BATCHED_TOKENS: u64 = 2048;

pub open spec fn activation_base(p: ArchitectureProfile, batched_tokens: u64) -> int {
    batched_tokens * p.hidden_size * 2 * 2
}

/// Two bytes per element and an activation factor of two per hidden unit;
/// MoE routing adds half the routed fraction on top, and the result is capped
/// at `u64::MAX`.
pub open spec fn activation_value(p: ArchitectureProfile, batched_tokens: u64) -> int {
    if batched_tokens == 0 || p.family == Family::StateSpace || p.family == Family::Unknown
        || p.confidence == Confidence::Low || p.hidden_size == 0 {
        0
    } else {
        let base = activation_base(p, batched_tokens);
        match p.moe {
            Some(m) => if m.num_routed_experts > 0 {
                let v = base + base * m.num_experts_per_tok / (2 * m.num_routed_experts);
                if v > u64::MAX {
                    u64::MAX as int
                } else {
                    v
                }
            } else {
                base
            },
            None => base,
        }
    }
}

pub open spec fn activation_label(p: ArchitectureProfile, batched_tokens: u64) -> Label {
    if batched_tokens == 0 {
        Label::Estimated
    } else if p.family == Family::StateSpace || p.family == Family::Unknown || p.confidence
        == Confidence::Low || p.hidden_size == 0 {
        Label::Unknown
    } else {
        Label::Estimated
    }
}

pub open spec fn activation_note(p: ArchitectureProfile, batched_tokens: u64) -> Seq<char> {
    if batched_tokens == 0 {
        "batched_tokens <= 0"@
    } else if p.family == Family::StateSpace {
        "state-space model activation memory is not estimated"@
    } else if p.family == Family::Unknown || p.confidence == Confidence::Low {
        "unknown architecture - cannot estimate activation memory"@
    } else if p.hidden_size == 0 {
        "missing hidden_size for activation estimate"@
    } else {
        let head = dec(batched_tokens as nat) + " batched_tokens * "@ + dec(p.hidden_size as nat)
            + " hidden * 2B * 2 activation_factor"@;
        match p.moe {
            Some(m) => {
                let t = m.num_routed_experts;
                let a = m.num_experts_per_tok;
                let factor = if t > 0 {
                    fixed((2 * t + a) as nat, (2 * t) as nat, 3)
                } else {
                    "1.000"@
                };
                head + " * MoE("@ + dec(a as nat) + "/"@ + dec(t as nat) + " routing -> "@ + factor
                    + ")"@
            },
            None => head,
        }
    }
}

/// The base product `tokens * hidden * 4` fits in `u64`.
pub open spec fn activation_fits(p: ArchitectureProfile, batched_tokens: u64) -> bool {
    activation_base(p, batched_tokens) <= u64::MAX
}

pub fn compute_activation_bytes(profile: &ArchitectureProfile, batched_tokens: u64) -> (res:
    AnnotatedValue<u64>)
    requires
        activation_fits(*profile, batched_tokens),
    ensures
        res.value == activation_value(*profile, batched_tokens),
        res.label == activation_label(*profile, batched_tokens),
        opt_string(res.source) == Some(activation_note(*profile, batched_tokens)),
{
    if batched_tokens == 0 {
        return AnnotatedValue::new(0, Label::Estimated, Some("batched_tokens <= 0"));
    }
    match profile.family {
        Family::StateSpace => {
            return AnnotatedValue::new(
                0,
                Label::Unknown,
                Some("state-space model activation memory is not estimated"),
            );
        },
        Family::Unknown => {
            return AnnotatedValue::new(
                0,
                Label::Unknown,
                Some("unknown architecture - cannot estimate activation memory"),
            );
        },
        _ => {},
    }
    match profile.confidence {
        Confidence::Low => {
            return AnnotatedValue::new(
                0,
                Label::Unknown,
                Some("unknown architecture - cannot estimate activation memory"),
            );
        },
        _ => {},
    }
    if profile.hidden_size == 0 {
        return AnnotatedValue::new(
            0,
            Label::Unknown,
            Some("missing hidden_size for activation estimate"),
        );
    }
    assert(batched_tokens * profile.hidden_size <= activation_base(*profile, batched_tokens))
        by (nonlinear_arith)
        requires
            batched_tokens >= 1,
            profile.hidden_size >= 1,
    ;
    let th = batched_tokens * profile.hidden_size;
    let base = th * 2 * 2;
    let mut note = u64_to_string(batched_tokens);
    note.append(" batched_tokens * ");
    note.append(u64_to_string(profile.hidden_size).as_str());
    note.append(" hidden * 2B * 2 activation_factor");
    let value: u64 = match &profile.moe {
        Some(m) => {
            let t = m.num_routed_experts;
            let a = m.num_experts_per_tok;
            note.append(" * MoE(");
            note.append(u64_to_string(a).as_str());
            note.append("/");
            note.append(u64_to_string(t).as_str());
            note.append(" routing -> ");
            if t > 0 {
                let two_t = 2 * (t as u128);
                assert((base as u128) * (a as u128) <= u128::MAX) by (nonlinear_arith)
                    requires
                        base <= u64::MAX,
                        a <= u64::MAX,
                ;
                let prod_ba = (base as u128) * (a as u128);
                let extra = prod_ba / two_t;
                assert(extra <= prod_ba / 2) by (nonlinear_arith)
                    requires
                        extra == prod_ba / two_t,
                        two_t >= 2,
                        prod_ba >= 0,
                ;
                assert(prod_ba <= 0xffff_ffff_ffff_ffff * 0xffff_ffff_ffff_ffff) by (nonlinear_arith)
                    requires
                        prod_ba == (base as u128) * (a as u128),
                        base <= 0xffff_ffff_ffff_ffff,
                        a <= 0xffff_ffff_ffff_ffff,
                ;
                let total = base as u128 + extra;
                let num = 2 * (t as u128) + a as u128;
                let v: u64 = if total > u64::MAX as u128 {
                    u64::MAX
                } else {
                    total as u64
                };
                note.append(fmt_fixed_wide(num, two_t, 3).as_str());
                note.append(")");
                v
            } else {
                note.append("1.000");
                note.append(")");
                base
            }
        },
        None => base,
    };
    AnnotatedValue::new(value, Label::Estimated, Some(note.as_str()))
}

} // verus!
