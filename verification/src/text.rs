//! Text building blocks: string comparison, decimal rendering of integers,
//! fixed-point rendering of exact ratios, and the few std string operations
//! whose behaviour depends on Unicode tables.
use vstd::prelude::*;

verus! {

/// `String::push` appends one character.
pub assume_specification[ std::string::String::push ](s: &mut std::string::String, ch: char)
    ensures
        final(s)@ == old(s)@.push(ch),
;

/// Whether `c` has the Unicode `White_Space` property, which is what
/// `char::is_whitespace` tests: the 25 code points that the Unicode
/// Character Database's PropList.txt lists for it.
pub open spec fn spec_is_whitespace(c: char) -> bool {
    let u = c as u32;
    ||| 0x09 <= u <= 0x0D
    ||| u == 0x20
    ||| u == 0x85
    ||| u == 0xA0
    ||| u == 0x1680
    ||| 0x2000 <= u <= 0x200A
    ||| u == 0x2028
    ||| u == 0x2029
    ||| u == 0x202F
    ||| u == 0x205F
    ||| u == 0x3000
}

/// Unicode lower-case mapping of a whole string, as `str::to_lowercase` computes it.
pub uninterp spec fn spec_to_lowercase(s: Seq<char>) -> Seq<char>;

/// Unicode upper-case mapping of a whole string, as `str::to_uppercase` computes it.
pub uninterp spec fn spec_to_uppercase(s: Seq<char>) -> Seq<char>;

/// Calls `str::to_lowercase`; its result is named, Unicode case tables being
/// pages long.
#[verifier::external_body]
pub fn to_lowercase(s: &str) -> (res: String)
    ensures
        res@ == spec_to_lowercase(s@),
{
    s.to_lowercase()
}

/// Calls `str::to_uppercase`; its result is named for the same reason.
#[verifier::external_body]
pub fn to_uppercase(s: &str) -> (res: String)
    ensures
        res@ == spec_to_uppercase(s@),
{
    s.to_uppercase()
}

/// Number of white-space characters at the start of `s`.
pub open spec fn ws_prefix_len(s: Seq<char>) -> nat
    decreases s.len(),
{
    if s.len() > 0 && spec_is_whitespace(s[0]) {
        1 + ws_prefix_len(s.drop_first())
    } else {
        0
    }
}

/// Number of white-space characters at the end of `s`.
pub open spec fn ws_suffix_len(s: Seq<char>) -> nat
    decreases s.len(),
{
    if s.len() > 0 && spec_is_whitespace(s.last()) {
        1 + ws_suffix_len(s.drop_last())
    } else {
        0
    }
}

/// `s` without its leading and trailing white space.
pub open spec fn trimmed(s: Seq<char>) -> Seq<char> {
    if ws_prefix_len(s) >= s.len() {
        Seq::empty()
    } else {
        s.subrange(ws_prefix_len(s) as int, s.len() - ws_suffix_len(s))
    }
}

/// Calls `str::trim`: the result is `s` without its leading and trailing white
/// space (`char::is_whitespace`), so it neither starts nor ends with white space.
#[verifier::external_body]
pub fn trim(s: &str) -> (res: &str)
    ensures
        res@ == trimmed(s@),
        res@.len() > 0 ==> !spec_is_whitespace(res@[0]) && !spec_is_whitespace(res@.last()),
{
    s.trim()
}

/// Copy of a string slice.
pub fn owned(s: &str) -> (res: String)
    ensures
        res@ == s@,
{
    s.to_string()
}

/// Equality of two string slices by their characters.
pub fn str_eq(a: &str, b: &str) -> (res: bool)
    ensures
        res == (a@ == b@),
{
    let x = a.to_string();
    let y = b.to_string();
    x == y
}

/// The characters of `s`, one by one.
pub fn chars_of(s: &str) -> (v: Vec<char>)
    ensures
        v@ == s@,
{
    let n = s.unicode_len();
    let mut v: Vec<char> = Vec::new();
    let mut i: usize = 0;
    while i < n
        invariant
            n == s@.len(),
            i <= n,
            v@ == s@.subrange(0, i as int),
        decreases n - i,
    {
        let c = s.get_char(i);
        v.push(c);
        i = i + 1;
        assert(v@ =~= s@.subrange(0, i as int));
    }
    assert(v@ =~= s@);
    v
}

/// A string holding the characters of `v`.
pub fn string_of(v: &Vec<char>) -> (s: String)
    ensures
        s@ == v@,
{
    let mut s = String::new();
    let mut i: usize = 0;
    while i < v.len()
        invariant
            i <= v.len(),
            s@ == v@.subrange(0, i as int),
        decreases v.len() - i,
    {
        s.push(v[i]);
        i = i + 1;
        assert(s@ =~= v@.subrange(0, i as int));
    }
    assert(s@ =~= v@);
    s
}

pub open spec fn seq_starts_with(s: Seq<char>, prefix: Seq<char>) -> bool {
    prefix.len() <= s.len() && s.subrange(0, prefix.len() as int) == prefix
}

pub open spec fn seq_ends_with(s: Seq<char>, suffix: Seq<char>) -> bool {
    suffix.len() <= s.len() && s.subrange(s.len() - suffix.len(), s.len() as int) == suffix
}

/// Whether `needle` occurs in `s` at position `i`.
pub open spec fn occurs_at(s: Seq<char>, needle: Seq<char>, i: int) -> bool {
    0 <= i && i + needle.len() <= s.len() && s.subrange(i, i + needle.len()) == needle
}

pub open spec fn seq_contains_seq(s: Seq<char>, needle: Seq<char>) -> bool {
    exists|i: int| #[trigger] occurs_at(s, needle, i)
}

/// Whether `needle` occurs at position `i` of `s`, compared character by character.
pub fn matches_at(s: &Vec<char>, needle: &Vec<char>, i: usize) -> (res: bool)
    ensures
        res == occurs_at(s@, needle@, i as int),
{
    if i > s.len() || needle.len() > s.len() - i {
        return false;
    }
    let mut k: usize = 0;
    while k < needle.len()
        invariant
            i + needle.len() <= s.len(),
            k <= needle.len(),
            forall|m: int| 0 <= m < k ==> s@[i + m] == needle@[m],
        decreases needle.len() - k,
    {
        if s[i + k] != needle[k] {
            assert(s@.subrange(i as int, i + needle.len())[k as int] != needle@[k as int]);
            return false;
        }
        k = k + 1;
    }
    assert(s@.subrange(i as int, i + needle@.len()) =~= needle@);
    true
}

pub fn starts_with(s: &str, prefix: &str) -> (res: bool)
    ensures
        res == seq_starts_with(s@, prefix@),
{
    let sv = chars_of(s);
    let pv = chars_of(prefix);
    matches_at(&sv, &pv, 0)
}

pub fn ends_with(s: &str, suffix: &str) -> (res: bool)
    ensures
        res == seq_ends_with(s@, suffix@),
{
    let sv = chars_of(s);
    let pv = chars_of(suffix);
    if pv.len() > sv.len() {
        return false;
    }
    matches_at(&sv, &pv, sv.len() - pv.len())
}

pub fn contains(s: &str, needle: &str) -> (res: bool)
    ensures
        res == seq_contains_seq(s@, needle@),
{
    let sv = chars_of(s);
    let nv = chars_of(needle);
    if nv.len() == 0 {
        assert(s@.subrange(0, 0) =~= needle@);
        assert(occurs_at(s@, needle@, 0));
        return true;
    }
    if nv.len() > sv.len() {
        assert forall|i: int| !occurs_at(s@, needle@, i) by {}
        return false;
    }
    let mut i: usize = 0;
    while nv.len() <= sv.len() - i
        invariant
            0 < nv.len() <= sv.len(),
            sv@ == s@,
            nv@ == needle@,
            i <= sv.len(),
            i <= sv.len() - nv.len() + 1,
            forall|j: int| 0 <= j < i ==> !occurs_at(s@, needle@, j),
        decreases sv.len() - nv.len() + 1 - i,
    {
        if matches_at(&sv, &nv, i) {
            return true;
        }
        i = i + 1;
    }
    assert forall|j: int| !occurs_at(s@, needle@, j) by {
        if 0 <= j < i {
        }
    }
    false
}

/// Whether character `c` occurs in `s`.
pub fn has_char(s: &str, c: char) -> (res: bool)
    ensures
        res == s@.contains(c),
{
    let sv = chars_of(s);
    let mut i: usize = 0;
    while i < sv.len()
        invariant
            sv@ == s@,
            i <= sv.len(),
            forall|j: int| 0 <= j < i ==> sv@[j] != c,
        decreases sv.len() - i,
    {
        if sv[i] == c {
            return true;
        }
        i = i + 1;
    }
    false
}

/// `s` with every trailing occurrence of `c` removed.
pub open spec fn trim_end_char(s: Seq<char>, c: char) -> Seq<char>
    decreases s.len(),
{
    if s.len() > 0 && s.last() == c {
        trim_end_char(s.drop_last(), c)
    } else {
        s
    }
}

/// `s` with every leading occurrence of `c` removed.
pub open spec fn trim_start_char(s: Seq<char>, c: char) -> Seq<char>
    decreases s.len(),
{
    if s.len() > 0 && s[0] == c {
        trim_start_char(s.drop_first(), c)
    } else {
        s
    }
}

pub fn trim_end_matches_char(s: &str, c: char) -> (res: String)
    ensures
        res@ == trim_end_char(s@, c),
{
    let v = chars_of(s);
    let mut n = v.len();
    assert(v@.subrange(0, n as int) =~= s@);
    while n > 0 && v[n - 1] == c
        invariant
            n <= v.len(),
            v@ == s@,
            trim_end_char(v@.subrange(0, n as int), c) == trim_end_char(s@, c),
        decreases n,
    {
        assert(v@.subrange(0, n as int).drop_last() =~= v@.subrange(0, n - 1));
        n = n - 1;
    }
    let mut out: Vec<char> = Vec::new();
    let mut i: usize = 0;
    while i < n
        invariant
            n <= v.len(),
            i <= n,
            out@ == v@.subrange(0, i as int),
        decreases n - i,
    {
        out.push(v[i]);
        i = i + 1;
        assert(out@ =~= v@.subrange(0, i as int));
    }
    assert(out@ =~= v@.subrange(0, n as int));
    string_of(&out)
}

pub fn trim_start_matches_char(s: &str, c: char) -> (res: String)
    ensures
        res@ == trim_start_char(s@, c),
{
    let v = chars_of(s);
    let mut k: usize = 0;
    assert(v@.subrange(0, v.len() as int) =~= s@);
    while k < v.len() && v[k] == c
        invariant
            k <= v.len(),
            v@ == s@,
            trim_start_char(v@.subrange(k as int, v.len() as int), c) == trim_start_char(s@, c),
        decreases v.len() - k,
    {
        assert(v@.subrange(k as int, v.len() as int).drop_first() =~= v@.subrange(
            k + 1,
            v.len() as int,
        ));
        k = k + 1;
    }
    let mut out: Vec<char> = Vec::new();
    let mut i: usize = k;
    while i < v.len()
        invariant
            k <= i <= v.len(),
            out@ == v@.subrange(k as int, i as int),
        decreases v.len() - i,
    {
        out.push(v[i]);
        i = i + 1;
        assert(out@ =~= v@.subrange(k as int, i as int));
    }
    assert(v@.subrange(k as int, v.len() as int) == out@);
    string_of(&out)
}

// ---------------------------------------------------------------------------
// Decimal rendering
// ---------------------------------------------------------------------------

pub open spec fn digit_char(d: int) -> char {
    if d == 0 {
        '0'
    } else if d == 1 {
        '1'
    } else if d == 2 {
        '2'
    } else if d == 3 {
        '3'
    } else if d == 4 {
        '4'
    } else if d == 5 {
        '5'
    } else if d == 6 {
        '6'
    } else if d == 7 {
        '7'
    } else if d == 8 {
        '8'
    } else {
        '9'
    }
}

/// Decimal digits of `n`, without leading zeros ("0" for zero).
pub open spec fn dec(n: nat) -> Seq<char>
    decreases n,
{
    if n < 10 {
        seq![digit_char(n as int)]
    } else {
        dec(n / 10).push(digit_char((n % 10) as int))
    }
}

/// Decimal digits of `n` written with exactly `width` digits (leading zeros),
/// for `n < 10^width`.
pub open spec fn dec_padded(n: nat, width: nat) -> Seq<char>
    decreases width,
{
    if width == 0 {
        Seq::empty()
    } else {
        dec_padded(n / 10, (width - 1) as nat).push(digit_char((n % 10) as int))
    }
}

/// Decimal digits with a comma between groups of three, counted from the right.
pub open spec fn grouped(n: nat) -> Seq<char>
    decreases n,
{
    if n < 1000 {
        dec(n)
    } else {
        grouped(n / 1000) + seq![','] + dec_padded(n % 1000, 3)
    }
}

pub fn digit(d: u64) -> (c: char)
    requires
        d < 10,
    ensures
        c == digit_char(d as int),
{
    if d == 0 {
        '0'
    } else if d == 1 {
        '1'
    } else if d == 2 {
        '2'
    } else if d == 3 {
        '3'
    } else if d == 4 {
        '4'
    } else if d == 5 {
        '5'
    } else if d == 6 {
        '6'
    } else if d == 7 {
        '7'
    } else if d == 8 {
        '8'
    } else {
        '9'
    }
}

/// Decimal rendering of an unsigned integer.
pub fn u64_to_string(n: u64) -> (s: String)
    ensures
        s@ == dec(n as nat),
    decreases n,
{
    if n < 10 {
        let mut s = String::new();
        s.push(digit(n));
        s
    } else {
        let mut s = u64_to_string(n / 10);
        s.push(digit(n % 10));
        s
    }
}

/// Decimal rendering of a wide unsigned integer.
pub fn u128_to_string(n: u128) -> (s: String)
    ensures
        s@ == dec(n as nat),
    decreases n,
{
    if n < 10 {
        let mut s = String::new();
        s.push(digit(n as u64));
        s
    } else {
        let mut s = u128_to_string(n / 10);
        s.push(digit((n % 10) as u64));
        s
    }
}

/// Appends `n` to `s` with exactly `width` digits.
pub fn push_padded(s: &mut String, n: u128, width: u32)
    ensures
        final(s)@ == old(s)@ + dec_padded(n as nat, width as nat),
    decreases width,
{
    if width == 0 {
        assert(old(s)@ + dec_padded(n as nat, 0) =~= old(s)@);
        return;
    }
    push_padded(s, n / 10, width - 1);
    s.push(digit((n % 10) as u64));
    assert(final(s)@ =~= old(s)@ + dec_padded(n as nat, width as nat));
}

/// Decimal rendering with thousands separators, e.g. `12,345`.
pub fn fmt_u64(n: u64) -> (s: String)
    ensures
        s@ == grouped(n as nat),
    decreases n,
{
    if n < 1000 {
        u64_to_string(n)
    } else {
        let mut s = fmt_u64(n / 1000);
        s.push(',');
        push_padded(&mut s, (n % 1000) as u128, 3);
        assert(s@ =~= grouped(n as nat));
        s
    }
}

pub open spec fn pow10(k: nat) -> nat
    decreases k,
{
    if k == 0 {
        1
    } else {
        10 * pow10((k - 1) as nat)
    }
}

/// `num / den` rounded half-up to `places` decimal places, written with
/// exactly `places` digits after the point (none and no point for 0 places).
pub open spec fn fixed(num: nat, den: nat, places: nat) -> Seq<char> {
    let scale = pow10(places);
    let q = (2 * num * scale + den) / (2 * den);
    if places == 0 {
        dec(q)
    } else {
        dec(q / scale) + seq!['.'] + dec_padded(q % scale, places)
    }
}

pub proof fn lemma_pow10_bound(k: nat)
    requires
        k <= 6,
    ensures
        1 <= pow10(k) <= 1_000_000,
{
    reveal_with_fuel(pow10, 7);
}

/// Exact ratio rendered with a fixed number of decimals (half-up rounding).
pub fn fmt_fixed(num: u64, den: u64, places: u32) -> (s: String)
    requires
        den > 0,
        places <= 6,
    ensures
        s@ == fixed(num as nat, den as nat, places as nat),
{
    fmt_fixed_wide(num as u128, den as u128, places)
}

/// `fmt_fixed` for operands up to 2^96.
pub fn fmt_fixed_wide(num: u128, den: u128, places: u32) -> (s: String)
    requires
        0 < den <= 0x1_0000_0000_0000_0000_0000_0000,
        num <= 0x1_0000_0000_0000_0000_0000_0000,
        places <= 6,
    ensures
        s@ == fixed(num as nat, den as nat, places as nat),
{
    let mut scale: u128 = 1;
    let mut k: u32 = 0;
    while k < places
        invariant
            k <= places <= 6,
            scale == pow10(k as nat),
        decreases places - k,
    {
        proof {
            lemma_pow10_bound(k as nat);
        }
        scale = scale * 10;
        k = k + 1;
    }
    proof {
        lemma_pow10_bound(places as nat);
    }
    let n = num;
    let d = den;
    assert(n * scale <= 0x1_0000_0000_0000_0000_0000_0000 * 1_000_000) by (nonlinear_arith)
        requires
            n <= 0x1_0000_0000_0000_0000_0000_0000,
            scale <= 1_000_000,
    ;
    let ns = n * scale;
    let q = (2 * ns + d) / (2 * d);
    assert(2 * (num as nat) * pow10(places as nat) == 2 * (ns as nat)) by (nonlinear_arith)
        requires
            ns == n * scale,
            n == num,
            scale == pow10(places as nat),
    ;
    assert(q == (2 * (num as nat) * pow10(places as nat) + den as nat) / (2 * den as nat));
    if places == 0 {
        u128_to_string(q)
    } else {
        let mut s = u128_to_string(q / scale);
        s.push('.');
        push_padded(&mut s, q % scale, places);
        assert(s@ =~= fixed(num as nat, den as nat, places as nat));
        s
    }
}

/// `[a, b, c]`: the debug rendering of a list of integers.
pub open spec fn debug_list(items: Seq<u64>) -> Seq<char>
    decreases items.len(),
{
    seq!['['] + list_body(items) + seq![']']
}

pub open spec fn list_body(items: Seq<u64>) -> Seq<char>
    decreases items.len(),
{
    if items.len() == 0 {
        Seq::empty()
    } else if items.len() == 1 {
        dec(items[0] as nat)
    } else {
        list_body(items.drop_last()) + seq![',', ' '] + dec(items.last() as nat)
    }
}

pub fn fmt_list(items: &Vec<u64>) -> (s: String)
    ensures
        s@ == debug_list(items@),
{
    let mut s = String::new();
    s.push('[');
    let mut i: usize = 0;
    while i < items.len()
        invariant
            i <= items.len(),
            s@ == seq!['['] + list_body(items@.subrange(0, i as int)),
        decreases items.len() - i,
    {
        let ghost before = s@;
        if i > 0 {
            s.push(',');
            s.push(' ');
        }
        let d = u64_to_string(items[i]);
        s.append(d.as_str());
        proof {
            let sub = items@.subrange(0, i + 1);
            assert(sub.drop_last() =~= items@.subrange(0, i as int));
            if i == 0 {
                assert(list_body(items@.subrange(0, 0)) =~= Seq::<char>::empty());
            }
        }
        i = i + 1;
        assert(s@ =~= seq!['['] + list_body(items@.subrange(0, i as int)));
    }
    s.push(']');
    assert(items@.subrange(0, items.len() as int) =~= items@);
    s
}

/// Decimal rendering of a signed integer.
pub open spec fn dec_signed(n: int) -> Seq<char> {
    if n < 0 {
        seq!['-'] + dec((-n) as nat)
    } else {
        dec(n as nat)
    }
}

pub fn i64_to_string(n: i64) -> (s: String)
    ensures
        s@ == dec_signed(n as int),
{
    if n < 0 {
        let m = (0i128 - n as i128) as u128;
        let mut s = String::new();
        s.push('-');
        s.append(u128_to_string(m).as_str());
        s
    } else {
        u64_to_string(n as u64)
    }
}

/// The pieces of `s` between occurrences of `sep` (`str::split` with a
/// character): one more piece than separators, empty pieces kept.
pub open spec fn split_on(s: Seq<char>, sep: char) -> Seq<Seq<char>>
    decreases s.len(),
{
    if s.len() == 0 {
        seq![Seq::empty()]
    } else {
        let r = split_on(s.drop_last(), sep);
        if s.last() == sep {
            r.push(Seq::empty())
        } else {
            r.update(r.len() - 1, r.last().push(s.last()))
        }
    }
}

pub proof fn lemma_split_nonempty(s: Seq<char>, sep: char)
    ensures
        split_on(s, sep).len() >= 1,
    decreases s.len(),
{
    if s.len() > 0 {
        lemma_split_nonempty(s.drop_last(), sep);
    }
}

pub open spec fn views(v: Seq<String>) -> Seq<Seq<char>> {
    v.map_values(|x: String| x@)
}

pub fn split_char(s: &str, sep: char) -> (parts: Vec<String>)
    ensures
        views(parts@) == split_on(s@, sep),
{
    let v = chars_of(s);
    let mut parts: Vec<String> = Vec::new();
    let mut cur: Vec<char> = Vec::new();
    let mut i: usize = 0;
    assert(v@.subrange(0, 0) =~= Seq::<char>::empty());
    while i < v.len()
        invariant
            i <= v@.len(),
            v@ == s@,
            views(parts@).push(cur@) == split_on(v@.subrange(0, i as int), sep),
        decreases v.len() - i,
    {
        let ghost pre = v@.subrange(0, i as int);
        let ghost r = split_on(pre, sep);
        assert(v@.subrange(0, i + 1).drop_last() =~= pre);
        assert(v@.subrange(0, i + 1).last() == v@[i as int]);
        proof {
            lemma_split_nonempty(pre, sep);
        }
        let c = v[i];
        if c == sep {
            let piece = string_of(&cur);
            parts.push(piece);
            cur = Vec::new();
            assert(views(parts@) =~= r);
            assert(views(parts@).push(cur@) =~= r.push(Seq::empty()));
        } else {
            let ghost old_parts = views(parts@);
            cur.push(c);
            assert(old_parts.push(cur@) =~= r.update(r.len() - 1, r.last().push(c)));
        }
        i = i + 1;
    }
    let piece = string_of(&cur);
    parts.push(piece);
    assert(v@.subrange(0, v.len() as int) =~= v@);
    assert(views(parts@) =~= split_on(s@, sep));
    parts
}

/// `s` without `prefix`, when it starts with it.
pub fn strip_prefix(s: &str, prefix: &str) -> (r: Option<String>)
    ensures
        seq_starts_with(s@, prefix@) ==> r is Some && r->0@ == s@.subrange(prefix@.len() as int, s@.len() as int),
        !seq_starts_with(s@, prefix@) ==> r is None,
{
    if !starts_with(s, prefix) {
        return None;
    }
    let v = chars_of(s);
    let k = prefix.unicode_len();
    let mut out: Vec<char> = Vec::new();
    let mut i: usize = k;
    while i < v.len()
        invariant
            k <= i <= v@.len(),
            k == prefix@.len(),
            out@ == v@.subrange(k as int, i as int),
        decreases v.len() - i,
    {
        out.push(v[i]);
        i = i + 1;
        assert(out@ =~= v@.subrange(k as int, i as int));
    }
    Some(string_of(&out))
}

/// The pieces separated by `sep` (`[..].join(sep)`).
pub open spec fn joined(pieces: Seq<Seq<char>>, sep: Seq<char>) -> Seq<char>
    decreases pieces.len(),
{
    if pieces.len() == 0 {
        Seq::empty()
    } else if pieces.len() == 1 {
        pieces[0]
    } else {
        joined(pieces.drop_last(), sep) + sep + pieces.last()
    }
}

pub fn join(pieces: &Vec<String>, sep: &str) -> (s: String)
    ensures
        s@ == joined(views(pieces@), sep@),
{
    let mut s = String::new();
    let mut i: usize = 0;
    while i < pieces.len()
        invariant
            i <= pieces@.len(),
            s@ == joined(views(pieces@).subrange(0, i as int), sep@),
        decreases pieces.len() - i,
    {
        if i > 0 {
            s.append(sep);
        }
        s.append(pieces[i].as_str());
        proof {
            let sub = views(pieces@).subrange(0, i + 1);
            assert(sub.drop_last() =~= views(pieces@).subrange(0, i as int));
            assert(sub.last() == pieces@[i as int]@);
            if i == 0 {
                assert(views(pieces@).subrange(0, 0) =~= Seq::<Seq<char>>::empty());
            }
        }
        i = i + 1;
    }
    assert(views(pieces@).subrange(0, pieces@.len() as int) =~= views(pieces@));
    s
}

pub proof fn lemma_views_push(s: Seq<String>, x: String)
    ensures
        views(s.push(x)) == views(s).push(x@),
{
    assert(views(s.push(x)) =~= views(s).push(x@));
}

} // verus!
