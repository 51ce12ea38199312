//! A JSON document model (what `config.json` and the hub APIs return) and the
//! lookups the detectors make on it.
use vstd::prelude::*;
use crate::text::{chars_of, dec, dec_signed, i64_to_string, join, joined, lemma_views_push, str_eq, u64_to_string, views};

verus! {

/// A JSON number: an unsigned integer, a negative integer, or a float. Of a
/// float the library keeps what its rules read: whether it is non-zero,
/// when it is not negative its value truncated towards zero (saturating at
/// `u64::MAX`, as an `as u64` cast does), and its shortest decimal text as a
/// JSON serializer writes it.
#[derive(Clone, Debug, PartialEq)]
pub enum JsonNumber {
    Unsigned(u64),
    Negative(i64),
    Float { nonzero: bool, nonneg_trunc: Option<u64>, text: String },
}

/// A JSON value. Object members keep their document order.
#[derive(Debug)]
pub enum JsonValue {
    Null,
    Bool(bool),
    Number(JsonNumber),
    Text(String),
    Array(Vec<JsonValue>),
    Object(Vec<(String, JsonValue)>),
}

pub open spec fn is_ascii_digit(c: char) -> bool {
    '0' <= c && c <= '9'
}

/// Value of a string of decimal digits.
pub open spec fn digits_value(s: Seq<char>) -> nat
    decreases s.len(),
{
    if s.len() == 0 {
        0
    } else {
        digits_value(s.drop_last()) * 10 + ((s.last() as u32) - ('0' as u32)) as nat
    }
}

/// What `str::parse::<u64>` accepts: an optional `+`, then one or more ASCII
/// digits whose value fits in a `u64`.
pub open spec fn unsigned_digits(s: Seq<char>) -> Seq<char> {
    if s.len() > 0 && s[0] == '+' {
        s.drop_first()
    } else {
        s
    }
}

pub open spec fn all_digits(d: Seq<char>) -> bool {
    forall|i: int| 0 <= i < d.len() ==> is_ascii_digit(#[trigger] d[i])
}

pub open spec fn spec_parse_u64(s: Seq<char>) -> Option<u64> {
    let d = unsigned_digits(s);
    if d.len() > 0 && all_digits(d) && digits_value(d) <= u64::MAX {
        Some(digits_value(d) as u64)
    } else {
        None
    }
}

proof fn lemma_digits_value_grows(s: Seq<char>, k: int)
    requires
        0 <= k <= s.len(),
        forall|i: int| 0 <= i < s.len() ==> is_ascii_digit(#[trigger] s[i]),
    ensures
        digits_value(s.subrange(0, k)) <= digits_value(s),
    decreases s.len() - k,
{
    if k < s.len() {
        lemma_digits_value_grows(s, k + 1);
        assert(s.subrange(0, k + 1).drop_last() =~= s.subrange(0, k));
    } else {
        assert(s.subrange(0, k) =~= s);
    }
}

/// `str::parse::<u64>`, written out.
pub fn parse_u64(s: &str) -> (res: Option<u64>)
    ensures
        res == spec_parse_u64(s@),
{
    let v = chars_of(s);
    let mut start: usize = 0;
    if v.len() > 0 && v[0] == '+' {
        start = 1;
    }
    let ghost d = unsigned_digits(s@);
    assert(d =~= v@.subrange(start as int, v.len() as int));
    if start >= v.len() {
        return None;
    }
    let mut acc: u64 = 0;
    let mut i: usize = start;
    let mut overflow = false;
    while i < v.len()
        invariant
            start <= i <= v.len(),
            v@ == s@,
            d == v@.subrange(start as int, v.len() as int),
            d == unsigned_digits(s@),
            forall|j: int| start <= j < i ==> is_ascii_digit(#[trigger] v@[j]),
            !overflow ==> acc == digits_value(v@.subrange(start as int, i as int)),
            overflow ==> digits_value(v@.subrange(start as int, i as int)) > u64::MAX,
        decreases v.len() - i,
    {
        let c = v[i];
        if !(c >= '0' && c <= '9') {
            assert(!is_ascii_digit(d[i - start]));
            assert(!all_digits(d));
            return None;
        }
        let dval: u64 = ((c as u32) - ('0' as u32)) as u64;
        let ghost prev = v@.subrange(start as int, i as int);
        assert(v@.subrange(start as int, i + 1).drop_last() =~= prev);
        if !overflow {
            match acc.checked_mul(10) {
                Some(m) => match m.checked_add(dval) {
                    Some(a) => {
                        acc = a;
                    },
                    None => {
                        overflow = true;
                    },
                },
                None => {
                    overflow = true;
                },
            }
        }
        i = i + 1;
    }
    assert(v@.subrange(start as int, v.len() as int) == d);
    assert forall|j: int| 0 <= j < d.len() implies is_ascii_digit(#[trigger] d[j]) by {
        assert(d[j] == v@[start + j]);
    }
    if overflow {
        None
    } else {
        Some(acc)
    }
}

/// First member of `members` named `key`.
pub open spec fn member(members: Seq<(String, JsonValue)>, key: Seq<char>) -> Option<JsonValue>
    decreases members.len(),
{
    if members.len() == 0 {
        None
    } else if members[0].0@ == key {
        Some(members[0].1)
    } else {
        member(members.drop_first(), key)
    }
}

/// `config[key]` when `config` is an object holding `key`.
pub open spec fn spec_get(config: JsonValue, key: Seq<char>) -> Option<JsonValue> {
    match config {
        JsonValue::Object(members) => member(members@, key),
        _ => None,
    }
}

pub open spec fn deref_opt(o: Option<&JsonValue>) -> Option<JsonValue> {
    match o {
        Some(v) => Some(*v),
        None => None,
    }
}

/// Looks `key` up in an object; `None` for other values.
pub fn get<'a>(config: &'a JsonValue, key: &str) -> (res: Option<&'a JsonValue>)
    ensures
        deref_opt(res) == spec_get(*config, key@),
{
    match config {
        JsonValue::Object(members) => {
            let mut i: usize = 0;
            assert(members@.subrange(0, members.len() as int) =~= members@);
            while i < members.len()
                invariant
                    i <= members.len(),
                    spec_get(*config, key@) == member(members@, key@),
                    member(members@, key@) == member(members@.subrange(i as int, members.len() as int), key@),
                decreases members.len() - i,
            {
                assert(members@.subrange(i as int, members.len() as int).drop_first()
                    =~= members@.subrange(i + 1, members.len() as int));
                assert(members@.subrange(i as int, members.len() as int)[0] == members@[i as int]);
                if str_eq(members[i].0.as_str(), key) {
                    let ghost sub = members@.subrange(i as int, members.len() as int);
                    assert(sub[0].0@ == key@);
                    assert(member(sub, key@) == Some(sub[0].1));
                    return Some(&members[i].1);
                }
                i = i + 1;
            }
            None
        },
        _ => None,
    }
}

pub fn has_key(config: &JsonValue, key: &str) -> (res: bool)
    ensures
        res == spec_get(*config, key@).is_some(),
{
    get(config, key).is_some()
}

/// The truth value of a JSON value: false for null, `false`, zero, and empty
/// strings, arrays and objects.
pub open spec fn truthy(v: JsonValue) -> bool {
    match v {
        JsonValue::Null => false,
        JsonValue::Bool(b) => b,
        JsonValue::Number(JsonNumber::Unsigned(n)) => n != 0,
        JsonValue::Number(JsonNumber::Negative(n)) => n != 0,
        JsonValue::Number(JsonNumber::Float { nonzero, .. }) => nonzero,
        JsonValue::Text(s) => s@.len() > 0,
        JsonValue::Array(a) => a@.len() > 0,
        JsonValue::Object(o) => o@.len() > 0,
    }
}

pub fn is_truthy(v: &JsonValue) -> (res: bool)
    ensures
        res == truthy(*v),
{
    match v {
        JsonValue::Null => false,
        JsonValue::Bool(b) => *b,
        JsonValue::Number(JsonNumber::Unsigned(n)) => *n != 0,
        JsonValue::Number(JsonNumber::Negative(n)) => *n != 0,
        JsonValue::Number(JsonNumber::Float { nonzero, .. }) => *nonzero,
        JsonValue::Text(s) => s.as_str().unicode_len() > 0,
        JsonValue::Array(a) => a.len() > 0,
        JsonValue::Object(o) => o.len() > 0,
    }
}

/// A JSON value read as a count: non-negative numbers (floats truncated),
/// decimal strings, and booleans as 0/1.
pub open spec fn spec_value_to_u64(v: JsonValue) -> Option<u64> {
    match v {
        JsonValue::Number(JsonNumber::Unsigned(n)) => Some(n),
        JsonValue::Number(JsonNumber::Negative(_)) => None,
        JsonValue::Number(JsonNumber::Float { nonneg_trunc, .. }) => nonneg_trunc,
        JsonValue::Text(s) => spec_parse_u64(s@),
        JsonValue::Bool(b) => Some(
            if b {
                1u64
            } else {
                0u64
            },
        ),
        _ => None,
    }
}

pub fn value_to_u64(v: &JsonValue) -> (res: Option<u64>)
    ensures
        res == spec_value_to_u64(*v),
{
    match v {
        JsonValue::Number(JsonNumber::Unsigned(n)) => Some(*n),
        JsonValue::Number(JsonNumber::Negative(_)) => None,
        JsonValue::Number(JsonNumber::Float { nonneg_trunc, .. }) => *nonneg_trunc,
        JsonValue::Text(s) => parse_u64(s.as_str()),
        JsonValue::Bool(b) => Some(
            if *b {
                1u64
            } else {
                0u64
            },
        ),
        _ => None,
    }
}

/// `config[key]` read as a count.
pub open spec fn spec_get_u64(config: JsonValue, key: Seq<char>) -> Option<u64> {
    match spec_get(config, key) {
        Some(v) => spec_value_to_u64(v),
        None => None,
    }
}

/// `config[key]` read as a count, provided the value is truthy.
pub open spec fn spec_get_truthy_u64(config: JsonValue, key: Seq<char>) -> Option<u64> {
    match spec_get(config, key) {
        Some(v) => if truthy(v) {
            spec_value_to_u64(v)
        } else {
            None
        },
        None => None,
    }
}

pub fn get_u64(config: &JsonValue, key: &str) -> (res: Option<u64>)
    ensures
        res == spec_get_u64(*config, key@),
{
    match get(config, key) {
        Some(v) => value_to_u64(v),
        None => None,
    }
}

pub fn get_truthy_u64(config: &JsonValue, key: &str) -> (res: Option<u64>)
    ensures
        res == spec_get_truthy_u64(*config, key@),
{
    match get(config, key) {
        Some(v) => if is_truthy(v) {
            value_to_u64(v)
        } else {
            None
        },
        None => None,
    }
}

/// The text of a JSON string value.
pub open spec fn spec_as_str(v: JsonValue) -> Option<Seq<char>> {
    match v {
        JsonValue::Text(s) => Some(s@),
        _ => None,
    }
}

pub fn as_str(v: &JsonValue) -> (res: Option<&str>)
    ensures
        match res {
            Some(s) => spec_as_str(*v) == Some(s@),
            None => spec_as_str(*v).is_none(),
        },
{
    match v {
        JsonValue::Text(s) => Some(s.as_str()),
        _ => None,
    }
}

/// A JSON number read as `i64` when it is an integer in range.
pub open spec fn spec_as_i64(v: JsonValue) -> Option<i64> {
    match v {
        JsonValue::Number(JsonNumber::Unsigned(n)) => if n <= i64::MAX {
            Some(n as i64)
        } else {
            None
        },
        JsonValue::Number(JsonNumber::Negative(n)) => Some(n),
        _ => None,
    }
}

pub fn as_i64(v: &JsonValue) -> (res: Option<i64>)
    ensures
        res == spec_as_i64(*v),
{
    match v {
        JsonValue::Number(JsonNumber::Unsigned(n)) => if *n <= 0x7fff_ffff_ffff_ffff {
            Some(*n as i64)
        } else {
            None
        },
        JsonValue::Number(JsonNumber::Negative(n)) => Some(*n),
        _ => None,
    }
}

pub open spec fn spec_as_bool(v: JsonValue) -> Option<bool> {
    match v {
        JsonValue::Bool(b) => Some(b),
        _ => None,
    }
}

pub fn as_bool(v: &JsonValue) -> (res: Option<bool>)
    ensures
        res == spec_as_bool(*v),
{
    match v {
        JsonValue::Bool(b) => Some(*b),
        _ => None,
    }
}

pub open spec fn str_at(v: JsonValue, key: Seq<char>) -> Option<Seq<char>> {
    match spec_get(v, key) {
        Some(x) => spec_as_str(x),
        None => None,
    }
}

pub open spec fn i64_at(v: JsonValue, key: Seq<char>) -> Option<i64> {
    match spec_get(v, key) {
        Some(x) => spec_as_i64(x),
        None => None,
    }
}

pub open spec fn bool_at(v: JsonValue, key: Seq<char>) -> Option<bool> {
    match spec_get(v, key) {
        Some(x) => spec_as_bool(x),
        None => None,
    }
}

pub open spec fn opt_seq(o: Option<&str>) -> Option<Seq<char>> {
    match o {
        Some(s) => Some(s@),
        None => None,
    }
}

/// `v[key]` as a string.
pub fn get_str<'a>(v: &'a JsonValue, key: &str) -> (res: Option<&'a str>)
    ensures
        opt_seq(res) == str_at(*v, key@),
{
    match get(v, key) {
        Some(x) => as_str(x),
        None => None,
    }
}

/// `v[key]` as an `i64`.
pub fn get_i64(v: &JsonValue, key: &str) -> (res: Option<i64>)
    ensures
        res == i64_at(*v, key@),
{
    match get(v, key) {
        Some(x) => as_i64(x),
        None => None,
    }
}

/// `v[key]` as a boolean.
pub fn get_bool(v: &JsonValue, key: &str) -> (res: Option<bool>)
    ensures
        res == bool_at(*v, key@),
{
    match get(v, key) {
        Some(x) => as_bool(x),
        None => None,
    }
}

/// What `str::parse::<i64>` accepts: an optional sign, then one or more
/// ASCII digits whose value fits.
pub open spec fn spec_parse_i64(s: Seq<char>) -> Option<i64> {
    if s.len() > 0 && s[0] == '-' {
        let d = s.drop_first();
        if d.len() > 0 && all_digits(d) && digits_value(d) <= 0x8000_0000_0000_0000 {
            Some((-(digits_value(d) as int)) as i64)
        } else {
            None
        }
    } else {
        match spec_parse_u64(s) {
            Some(v) => if v <= i64::MAX {
                Some(v as i64)
            } else {
                None
            },
            None => None,
        }
    }
}

pub fn parse_i64(s: &str) -> (res: Option<i64>)
    ensures
        res == spec_parse_i64(s@),
{
    let v = chars_of(s);
    if v.len() > 0 && v[0] == '-' {
        let mut rest_v: Vec<char> = Vec::new();
        let mut i: usize = 1;
        while i < v.len()
            invariant
                1 <= i <= v@.len(),
                rest_v@ == v@.subrange(1, i as int),
            decreases v.len() - i,
        {
            rest_v.push(v[i]);
            i = i + 1;
        }
        assert(rest_v@ =~= s@.drop_first());
        if rest_v.len() == 0 || !('0' <= rest_v[0] && rest_v[0] <= '9') {
            return None;
        }
        let rest = crate::text::string_of(&rest_v);
        assert(unsigned_digits(rest@) == rest@);
        match parse_u64(rest.as_str()) {
            Some(n) => {
                if n <= 0x8000_0000_0000_0000 {
                    let wide = 0i128 - (n as i128);
                    Some(wide as i64)
                } else {
                    None
                }
            },
            None => None,
        }
    } else {
        match parse_u64(s) {
            Some(n) => if n <= 0x7fff_ffff_ffff_ffff {
                Some(n as i64)
            } else {
                None
            },
            None => None,
        }
    }
}

pub open spec fn hex_digit(d: int) -> char {
    if d < 10 {
        crate::text::digit_char(d)
    } else if d == 10 {
        'a'
    } else if d == 11 {
        'b'
    } else if d == 12 {
        'c'
    } else if d == 13 {
        'd'
    } else if d == 14 {
        'e'
    } else {
        'f'
    }
}

/// How a character is written inside a JSON string (as `serde_json` does).
pub open spec fn escape_char(c: char) -> Seq<char> {
    if c == '"' {
        seq!['\\', '"']
    } else if c == '\\' {
        seq!['\\', '\\']
    } else if c == '\n' {
        seq!['\\', 'n']
    } else if c == '\r' {
        seq!['\\', 'r']
    } else if c == '\t' {
        seq!['\\', 't']
    } else if c == '\u{8}' {
        seq!['\\', 'b']
    } else if c == '\u{c}' {
        seq!['\\', 'f']
    } else if (c as u32) < 0x20 {
        seq!['\\', 'u', '0', '0', hex_digit(((c as u32) / 16) as int), hex_digit(((c as u32) % 16) as int)]
    } else {
        seq![c]
    }
}

pub open spec fn escaped(s: Seq<char>) -> Seq<char>
    decreases s.len(),
{
    if s.len() == 0 {
        Seq::empty()
    } else {
        escaped(s.drop_last()) + escape_char(s.last())
    }
}

/// `s` as a JSON string literal.
pub open spec fn quoted(s: Seq<char>) -> Seq<char> {
    seq!['"'] + escaped(s) + seq!['"']
}

fn hex_digit_exec(d: u32) -> (c: char)
    requires
        d < 16,
    ensures
        c == hex_digit(d as int),
{
    if d < 10 {
        crate::text::digit(d as u64)
    } else if d == 10 {
        'a'
    } else if d == 11 {
        'b'
    } else if d == 12 {
        'c'
    } else if d == 13 {
        'd'
    } else if d == 14 {
        'e'
    } else {
        'f'
    }
}

pub fn json_quote(s: &str) -> (r: String)
    ensures
        r@ == quoted(s@),
{
    let v = chars_of(s);
    let mut out = String::new();
    out.push('"');
    let mut i: usize = 0;
    while i < v.len()
        invariant
            i <= v@.len(),
            v@ == s@,
            out@ == seq!['"'] + escaped(v@.subrange(0, i as int)),
        decreases v.len() - i,
    {
        let c = v[i];
        let ghost before = out@;
        if c == '"' {
            out.push('\\');
            out.push('"');
        } else if c == '\\' {
            out.push('\\');
            out.push('\\');
        } else if c == '\n' {
            out.push('\\');
            out.push('n');
        } else if c == '\r' {
            out.push('\\');
            out.push('r');
        } else if c == '\t' {
            out.push('\\');
            out.push('t');
        } else if c == '\u{8}' {
            out.push('\\');
            out.push('b');
        } else if c == '\u{c}' {
            out.push('\\');
            out.push('f');
        } else if (c as u32) < 0x20 {
            out.push('\\');
            out.push('u');
            out.push('0');
            out.push('0');
            out.push(hex_digit_exec((c as u32) / 16));
            out.push(hex_digit_exec((c as u32) % 16));
        } else {
            out.push(c);
        }
        assert(v@.subrange(0, i + 1).drop_last() =~= v@.subrange(0, i as int));
        assert(out@ =~= before + escape_char(c));
        i = i + 1;
    }
    out.push('"');
    assert(v@.subrange(0, v@.len() as int) =~= v@);
    out
}

/// Compact JSON text of a value: no whitespace, members in the order held.
pub open spec fn json_text(v: JsonValue) -> Seq<char>
    decreases v,
{
    match v {
        JsonValue::Null => "null"@,
        JsonValue::Bool(b) => if b {
            "true"@
        } else {
            "false"@
        },
        JsonValue::Number(JsonNumber::Unsigned(n)) => dec(n as nat),
        JsonValue::Number(JsonNumber::Negative(n)) => dec_signed(n as int),
        JsonValue::Number(JsonNumber::Float { text, .. }) => text@,
        JsonValue::Text(s) => quoted(s@),
        JsonValue::Array(a) => "["@ + joined(item_texts(a@), ","@) + "]"@,
        JsonValue::Object(m) => "{"@ + joined(member_texts(m@), ","@) + "}"@,
    }
}

/// The JSON texts of the items of an array, in order.
pub open spec fn item_texts(a: Seq<JsonValue>) -> Seq<Seq<char>>
    decreases a,
{
    if a.len() == 0 {
        Seq::empty()
    } else {
        item_texts(a.drop_last()).push(json_text(a.last()))
    }
}

/// The `"key":value` texts of the members of an object, in order.
pub open spec fn member_texts(m: Seq<(String, JsonValue)>) -> Seq<Seq<char>>
    decreases m,
{
    if m.len() == 0 {
        Seq::empty()
    } else {
        member_texts(m.drop_last()).push(quoted(m.last().0@) + ":"@ + json_text(m.last().1))
    }
}

/// Serializes a value as compact JSON.
pub fn to_json_string(v: &JsonValue) -> (s: String)
    ensures
        s@ == json_text(*v),
    decreases v,
{
    match v {
        JsonValue::Null => "null".to_string(),
        JsonValue::Bool(b) => if *b {
            "true".to_string()
        } else {
            "false".to_string()
        },
        JsonValue::Number(JsonNumber::Unsigned(n)) => u64_to_string(*n),
        JsonValue::Number(JsonNumber::Negative(n)) => i64_to_string(*n),
        JsonValue::Number(JsonNumber::Float { text, .. }) => text.as_str().to_string(),
        JsonValue::Text(t) => json_quote(t.as_str()),
        JsonValue::Array(a) => {
            let mut parts: Vec<String> = Vec::new();
            let mut i: usize = 0;
            while i < a.len()
                invariant
                    i <= a@.len(),
                    *v == JsonValue::Array(*a),
                    views(parts@) == item_texts(a@.subrange(0, i as int)),
                decreases a.len() - i,
            {
                proof {
                    assert(decreases_to!(*v => (*v)->Array_0));
                    assert(decreases_to!((*v)->Array_0 => (*v)->Array_0@));
                    assert(decreases_to!(a@ => a@[i as int]));
                }
                let p = to_json_string(&a[i]);
                proof {
                    lemma_views_push(parts@, p);
                    assert(a@.subrange(0, i + 1).drop_last() =~= a@.subrange(0, i as int));
                }
                parts.push(p);
                i = i + 1;
            }
            assert(a@.subrange(0, a@.len() as int) =~= a@);
            let mut s = "[".to_string();
            s.append(join(&parts, ",").as_str());
            s.append("]");
            s
        },
        JsonValue::Object(m) => {
            let mut parts: Vec<String> = Vec::new();
            let mut i: usize = 0;
            while i < m.len()
                invariant
                    i <= m@.len(),
                    *v == JsonValue::Object(*m),
                    views(parts@) == member_texts(m@.subrange(0, i as int)),
                decreases m.len() - i,
            {
                proof {
                    assert(decreases_to!(*v => (*v)->Object_0));
                    assert(decreases_to!((*v)->Object_0 => (*v)->Object_0@));
                    assert(decreases_to!(m@ => m@[i as int]));
                    assert(decreases_to!(m@[i as int] => m@[i as int].1));
                }
                let mut p = json_quote(m[i].0.as_str());
                p.append(":");
                let inner = to_json_string(&m[i].1);
                p.append(inner.as_str());
                proof {
                    lemma_views_push(parts@, p);
                    assert(m@.subrange(0, i + 1).drop_last() =~= m@.subrange(0, i as int));
                }
                parts.push(p);
                i = i + 1;
            }
            assert(m@.subrange(0, m@.len() as int) =~= m@);
            let mut s = "{".to_string();
            s.append(join(&parts, ",").as_str());
            s.append("}");
            s
        },
    }
}

} // verus!
