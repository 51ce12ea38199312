//! Access tokens for the model hubs, and the messages shown when one is needed.
use vstd::prelude::*;
use crate::i18n::env_value;
use crate::text::str_eq;

verus! {

/// The first of two variables that is set to a non-empty value.
pub open spec fn first_token(values: Seq<(&str, Option<&str>)>, primary: Seq<char>, fallback: Seq<char>) -> Option<Seq<char>> {
    match env_value(values, primary) {
        Some(v) => if v.len() > 0 {
            Some(v)
        } else {
            match env_value(values, fallback) {
                Some(w) => if w.len() > 0 { Some(w) } else { None },
                None => None,
            }
        },
        None => match env_value(values, fallback) {
            Some(w) => if w.len() > 0 { Some(w) } else { None },
            None => None,
        },
    }
}

pub open spec fn opt_string_view(o: Option<String>) -> Option<Seq<char>> {
    match o {
        Some(s) => Some(s@),
        None => None,
    }
}

fn value_of<'a>(values: &[(&'a str, Option<&'a str>)], var: &str) -> (r: Option<&'a str>)
    ensures
        match r {
            Some(v) => env_value(values@, var@) == Some(v@),
            None => env_value(values@, var@) is None,
        },
{
    let mut i: usize = values.len();
    assert(values@.subrange(0, values@.len() as int) =~= values@);
    while i > 0
        invariant
            i <= values@.len(),
            env_value(values@, var@) == env_value(values@.subrange(0, i as int), var@),
        decreases i,
    {
        let ghost sub = values@.subrange(0, i as int);
        assert(sub.drop_last() =~= values@.subrange(0, i - 1));
        assert(sub.last() == values@[i - 1]);
        let (name, value) = values[i - 1];
        if str_eq(name, var) {
            return value;
        }
        i = i - 1;
    }
    None
}

fn first_token_exec(values: &[(&str, Option<&str>)], primary: &str, fallback: &str) -> (r: Option<String>)
    ensures
        opt_string_view(r) == first_token(values@, primary@, fallback@),
{
    match value_of(values, primary) {
        Some(v) => {
            if v.unicode_len() > 0 {
                return Some(v.to_string());
            }
        },
        None => {},
    }
    match value_of(values, fallback) {
        Some(w) => if w.unicode_len() > 0 {
            Some(w.to_string())
        } else {
            None
        },
        None => None,
    }
}

/// The Hugging Face token of an environment listing: `HF_TOKEN`, else
/// `HUGGING_FACE_HUB_TOKEN`; empty values count as unset.
pub fn get_hf_token_from_values(values: &[(&str, Option<&str>)]) -> (r: Option<String>)
    ensures
        opt_string_view(r) == first_token(values@, "HF_TOKEN"@, "HUGGING_FACE_HUB_TOKEN"@),
{
    first_token_exec(values, "HF_TOKEN", "HUGGING_FACE_HUB_TOKEN")
}

/// The ModelScope token: `MODELSCOPE_API_TOKEN`, else `MODELSCOPE_TOKEN`.
pub fn get_modelscope_token_from_values(values: &[(&str, Option<&str>)]) -> (r: Option<String>)
    ensures
        opt_string_view(r) == first_token(values@, "MODELSCOPE_API_TOKEN"@, "MODELSCOPE_TOKEN"@),
{
    first_token_exec(values, "MODELSCOPE_API_TOKEN", "MODELSCOPE_TOKEN")
}

pub open spec fn hf_auth_message(model_id: Seq<char>) -> Seq<char> {
    "Model '"@ + model_id
        + "' requires authentication (gated or private).\nSet HF_TOKEN env var or run: huggingface-cli login"@
}

pub open spec fn modelscope_auth_message(model_id: Seq<char>) -> Seq<char> {
    "模型 '"@ + model_id + "' 需要登录（gated 或 私有）。\n设置 MODELSCOPE_API_TOKEN 环境变量，或执行：modelscope login"@
}

pub fn hf_auth_error_message(model_id: &str) -> (s: String)
    ensures
        s@ == hf_auth_message(model_id@),
{
    let mut s = String::new();
    s.append("Model '");
    s.append(model_id);
    s.append("' requires authentication (gated or private).\nSet HF_TOKEN env var or run: huggingface-cli login");
    s
}

pub fn modelscope_auth_error_message(model_id: &str) -> (s: String)
    ensures
        s@ == modelscope_auth_message(model_id@),
{
    let mut s = String::new();
    s.append("模型 '");
    s.append(model_id);
    s.append("' 需要登录（gated 或 私有）。\n设置 MODELSCOPE_API_TOKEN 环境变量，或执行：modelscope login");
    s
}

} // verus!
