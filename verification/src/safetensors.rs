//! Sampling one safetensors shard and reading its header's tensor dtypes.
use vstd::prelude::*;
use crate::json::{JsonValue, spec_get, get, str_at, get_str};
use crate::sources::SiblingFile;
use crate::fingerprint::tensor_names_distinct;
use crate::text::{
    dec, ends_with, lemma_views_push, seq_ends_with, str_eq, chars_of, trim_end_char, trim_end_matches_char,
    u64_to_string, views,
};

verus! {

/// Headers larger than 16 MiB are refused.
pub const MAX_HEADER_BYTES: u64 = 16777216;

/// Bytes requested from the start of a shard.
pub const RANGE_FETCH_BYTES: u64 = 16777216;

pub open spec fn is_shard(s: SiblingFile) -> bool {
    seq_ends_with(s.filename@, ".safetensors"@)
}

/// Strict lexicographic order of character sequences (`String`'s order).
pub open spec fn lex_lt(a: Seq<char>, b: Seq<char>) -> bool
    decreases a.len(),
{
    if a.len() == 0 {
        b.len() > 0
    } else if b.len() == 0 {
        false
    } else if a[0] < b[0] {
        true
    } else if a[0] > b[0] {
        false
    } else {
        lex_lt(a.drop_first(), b.drop_first())
    }
}

pub proof fn lemma_lex_total(a: Seq<char>, b: Seq<char>)
    ensures
        lex_lt(a, b) || a == b || lex_lt(b, a),
        !(lex_lt(a, b) && lex_lt(b, a)),
        !(lex_lt(a, b) && a == b),
    decreases a.len(),
{
    if a.len() > 0 && b.len() > 0 && a[0] == b[0] {
        lemma_lex_total(a.drop_first(), b.drop_first());
        if a.drop_first() == b.drop_first() {
            assert(a =~= seq![a[0]] + a.drop_first());
            assert(b =~= seq![b[0]] + b.drop_first());
        }
    } else if a.len() == 0 && b.len() == 0 {
        assert(a =~= b);
    } else if a.len() > 0 && b.len() > 0 {
    }
}

fn lex_lt_exec(a: &str, b: &str) -> (r: bool)
    ensures
        r == lex_lt(a@, b@),
{
    let av = chars_of(a);
    let bv = chars_of(b);
    let mut i: usize = 0;
    assert(av@.subrange(0, av@.len() as int) =~= av@);
    assert(bv@.subrange(0, bv@.len() as int) =~= bv@);
    while i < av.len() && i < bv.len() && av[i] == bv[i]
        invariant
            i <= av@.len(),
            i <= bv@.len(),
            av@ == a@,
            bv@ == b@,
            lex_lt(a@, b@) == lex_lt(av@.subrange(i as int, av@.len() as int), bv@.subrange(i as int, bv@.len() as int)),
        decreases av.len() - i,
    {
        assert(av@.subrange(i as int, av@.len() as int).drop_first() =~= av@.subrange(i + 1, av@.len() as int));
        assert(bv@.subrange(i as int, bv@.len() as int).drop_first() =~= bv@.subrange(i + 1, bv@.len() as int));
        i = i + 1;
    }
    proof {
        assert(av@.subrange(0, av@.len() as int) =~= av@);
        assert(bv@.subrange(0, bv@.len() as int) =~= bv@);
    }
    if i == av.len() {
        i < bv.len()
    } else if i == bv.len() {
        false
    } else {
        av[i] < bv[i]
    }
}

pub open spec fn shard_count(s: Seq<SiblingFile>, n: int) -> nat
    decreases n,
{
    if n <= 0 {
        0
    } else {
        shard_count(s, n - 1) + if is_shard(s[n - 1]) { 1nat } else { 0nat }
    }
}

/// Shards among the first `n` siblings that come before sibling `i` when the
/// shards are sorted stably by name: a smaller name, or the same name at an
/// earlier position.
pub open spec fn rank_count(s: Seq<SiblingFile>, n: int, x: Seq<char>, i: int) -> nat
    decreases n,
{
    if n <= 0 {
        0
    } else {
        rank_count(s, n - 1, x, i) + if is_shard(s[n - 1]) && (lex_lt(s[n - 1].filename@, x) || (
        s[n - 1].filename@ == x && n - 1 < i)) {
            1nat
        } else {
            0nat
        }
    }
}

pub open spec fn is_single_file(f: SiblingFile) -> bool {
    is_shard(f) && f.filename@ == "model.safetensors"@
}

/// The sibling to sample: the first `model.safetensors` when one is present
/// (a single-file checkpoint), otherwise the shard at position `count / 2`
/// of the shards sorted stably by name.
pub open spec fn is_sample_index(s: Seq<SiblingFile>, i: int) -> bool {
    let n = s.len() as int;
    let has_single = exists|j: int| 0 <= j < n && #[trigger] is_single_file(s[j]);
    &&& 0 <= i < n
    &&& is_shard(s[i])
    &&& has_single ==> is_single_file(s[i]) && forall|j: int| 0 <= j < i ==> !#[trigger] is_single_file(s[j])
    &&& !has_single ==> rank_count(s, n, s[i].filename@, i) == shard_count(s, n) / 2
}

/// Counts over a masked subset of the shards.
pub open spec fn masked_count(s: Seq<SiblingFile>, mask: Seq<bool>, n: int) -> nat
    decreases n,
{
    if n <= 0 {
        0
    } else {
        masked_count(s, mask, n - 1) + if is_shard(s[n - 1]) && mask[n - 1] { 1nat } else { 0nat }
    }
}

/// The masked shards are exactly those before sibling `k` in the stable name
/// order, so they number its rank.
proof fn lemma_mask_is_rank(s: Seq<SiblingFile>, mask: Seq<bool>, n: int, k: int)
    requires
        0 <= n <= s.len(),
        mask.len() == s.len(),
        forall|t: int|
            0 <= t < s.len() && is_shard(s[t]) ==> (mask[t] <==> (lex_lt(#[trigger] s[t].filename@, s[k].filename@) || (
            s[t].filename@ == s[k].filename@ && t < k))),
    ensures
        masked_count(s, mask, n) == rank_count(s, n, s[k].filename@, k),
    decreases n,
{
    if n > 0 {
        lemma_mask_is_rank(s, mask, n - 1, k);
    }
}

proof fn lemma_masked_le_shards(s: Seq<SiblingFile>, mask: Seq<bool>, n: int)
    requires
        0 <= n <= s.len(),
        mask.len() == s.len(),
    ensures
        masked_count(s, mask, n) <= shard_count(s, n),
    decreases n,
{
    if n > 0 {
        lemma_masked_le_shards(s, mask, n - 1);
    }
}

proof fn lemma_mask_one(s: Seq<SiblingFile>, mask: Seq<bool>, n: int, k: int)
    requires
        0 <= k < s.len(),
        0 <= n <= s.len(),
        mask.len() == s.len(),
        is_shard(s[k]),
        !mask[k],
    ensures
        masked_count(s, mask.update(k, true), n) == masked_count(s, mask, n) + if k < n { 1nat } else { 0nat },
    decreases n,
{
    if n > 0 {
        lemma_mask_one(s, mask, n - 1, k);
    }
}

/// Picks the shard whose header is sampled for dtypes.
pub fn pick_sample_shard(siblings: &Vec<SiblingFile>) -> (r: Option<&SiblingFile>)
    ensures
        r is None <==> shard_count(siblings@, siblings@.len() as int) == 0,
        r matches Some(c) ==> exists|i: int| is_sample_index(siblings@, i) && siblings@[i] == *c,
{
    let n = siblings.len();
    let mut shards: usize = 0;
    let mut single: Option<usize> = None;
    let mut i: usize = 0;
    while i < n
        invariant
            i <= n == siblings@.len(),
            shards == shard_count(siblings@, i as int),
            shards <= i,
            match single {
                Some(j) => j < i && is_single_file(siblings@[j as int]) && forall|t: int|
                    0 <= t < j ==> !#[trigger] is_single_file(siblings@[t]),
                None => forall|t: int| 0 <= t < i ==> !#[trigger] is_single_file(siblings@[t]),
            },
        decreases n - i,
    {
        if ends_with(siblings[i].filename.as_str(), ".safetensors") {
            shards = shards + 1;
            if single.is_none() && str_eq(siblings[i].filename.as_str(), "model.safetensors") {
                single = Some(i);
            }
        }
        i = i + 1;
    }
    if shards == 0 {
        return None;
    }
    match single {
        Some(j) => {
            assert(is_sample_index(siblings@, j as int));
            return Some(&siblings[j]);
        },
        None => {},
    }
    let k = shards / 2;
    let mut mask: Vec<bool> = Vec::new();
    let mut i: usize = 0;
    while i < n
        invariant
            i <= n == siblings@.len(),
            mask@.len() == i,
            forall|j: int| 0 <= j < i ==> !#[trigger] mask@[j],
        decreases n - i,
    {
        mask.push(false);
        i = i + 1;
    }
    proof {
        assert forall|m: int| 0 <= m <= n implies masked_count(siblings@, mask@, m) == 0 by {
            lemma_zero_mask(siblings@, mask@, m);
        }
    }
    let mut removed: usize = 0;
    // Each round masks the first shard of the stable name order that is not
    // yet masked; after `k` rounds the next one is the median.
    loop
        invariant
            n == siblings@.len(),
            mask@.len() == n,
            removed <= k,
            k == shards / 2,
            shards == shard_count(siblings@, n as int),
            shards > 0,
            masked_count(siblings@, mask@, n as int) == removed,
            forall|a: int, b: int|
                0 <= a < n && 0 <= b < n && is_shard(siblings@[a]) && mask@[a] && is_shard(siblings@[b]) && !mask@[b]
                    ==> lex_lt(#[trigger] siblings@[a].filename@, #[trigger] siblings@[b].filename@) || (
                    siblings@[a].filename@ == siblings@[b].filename@ && a < b),
            forall|j: int| 0 <= j < n ==> !#[trigger] is_single_file(siblings@[j]),
        decreases k - removed + 1,
    {
        proof {
            lemma_masked_le_shards(siblings@, mask@, n as int);
            lemma_unmasked_exists(siblings@, mask@, n as int);
        }
        // The first unmasked shard in the stable name order.
        let mut best: usize = n;
        let mut j: usize = 0;
        while j < n
            invariant
                j <= n == siblings@.len(),
                mask@.len() == n,
                best == n || (best < j && is_shard(siblings@[best as int]) && !mask@[best as int]),
                best < n ==> forall|t: int|
                    0 <= t < j && is_shard(siblings@[t]) && !mask@[t] ==> !lex_lt(#[trigger] siblings@[t].filename@, siblings@[best as int].filename@)
                        && (siblings@[t].filename@ == siblings@[best as int].filename@ ==> best <= t),
                best == n ==> forall|t: int| 0 <= t < j ==> !(is_shard(#[trigger] siblings@[t]) && !mask@[t]),
            decreases n - j,
        {
            if ends_with(siblings[j].filename.as_str(), ".safetensors") && !mask[j] {
                if best == n || lex_lt_exec(siblings[j].filename.as_str(), siblings[best].filename.as_str()) {
                    proof {
                        lemma_lex_total(siblings@[j as int].filename@, siblings@[j as int].filename@);
                        if best < n {
                            assert forall|t: int|
                                0 <= t < j && is_shard(siblings@[t]) && !mask@[t] implies !lex_lt(#[trigger] siblings@[t].filename@, siblings@[j as int].filename@)
                                    && (siblings@[t].filename@ == siblings@[j as int].filename@ ==> j as int <= t) by {
                                lemma_lex_total(siblings@[t].filename@, siblings@[best as int].filename@);
                                if lex_lt(siblings@[t].filename@, siblings@[j as int].filename@) {
                                    lemma_lex_trans(siblings@[t].filename@, siblings@[j as int].filename@, siblings@[best as int].filename@);
                                }
                            }
                        }
                    }
                    best = j;
                }
            }
            j = j + 1;
        }
        assert(best < n);
        let ghost a = siblings@[best as int].filename@;
        if removed == k {
            proof {
                lemma_lex_total(a, a);
                assert forall|t: int| 0 <= t < siblings@.len() && is_shard(siblings@[t]) implies (mask@[t] <==> (lex_lt(
                    #[trigger] siblings@[t].filename@,
                    a,
                ) || (siblings@[t].filename@ == a && t < best))) by {
                    assert(is_shard(siblings@[best as int]) && !mask@[best as int]);
                    lemma_lex_total(siblings@[t].filename@, a);
                }
                lemma_mask_is_rank(siblings@, mask@, n as int, best as int);
                assert(is_sample_index(siblings@, best as int));
            }
            return Some(&siblings[best]);
        }
        proof {
            lemma_mask_one(siblings@, mask@, n as int, best as int);
            let nm = mask@.update(best as int, true);
            assert forall|x: int, y: int|
                0 <= x < n && 0 <= y < n && is_shard(siblings@[x]) && nm[x] && is_shard(siblings@[y]) && !nm[y]
                    implies lex_lt(#[trigger] siblings@[x].filename@, #[trigger] siblings@[y].filename@) || (
                    siblings@[x].filename@ == siblings@[y].filename@ && x < y) by {
                if x == best as int {
                    lemma_lex_total(siblings@[x].filename@, siblings@[y].filename@);
                }
            }
        }
        mask.set(best, true);
        removed = removed + 1;
    }
}

proof fn lemma_zero_mask(s: Seq<SiblingFile>, mask: Seq<bool>, n: int)
    requires
        0 <= n <= s.len(),
        mask.len() == s.len(),
        forall|j: int| 0 <= j < mask.len() ==> !#[trigger] mask[j],
    ensures
        masked_count(s, mask, n) == 0,
    decreases n,
{
    if n > 0 {
        lemma_zero_mask(s, mask, n - 1);
    }
}

proof fn lemma_unmasked_exists(s: Seq<SiblingFile>, mask: Seq<bool>, n: int)
    requires
        0 <= n <= s.len(),
        mask.len() == s.len(),
        masked_count(s, mask, n) < shard_count(s, n),
    ensures
        exists|t: int| 0 <= t < n && is_shard(s[t]) && !mask[t],
    decreases n,
{
    if n > 0 {
        if is_shard(s[n - 1]) && !mask[n - 1] {
        } else {
            lemma_unmasked_exists(s, mask, n - 1);
        }
    }
}

pub proof fn lemma_lex_trans(a: Seq<char>, b: Seq<char>, c: Seq<char>)
    requires
        lex_lt(a, b),
        lex_lt(b, c),
    ensures
        lex_lt(a, c),
    decreases a.len(),
{
    if a.len() > 0 && b.len() > 0 && c.len() > 0 && a[0] == b[0] && b[0] == c[0] {
        lemma_lex_trans(a.drop_first(), b.drop_first(), c.drop_first());
    }
}

/// The little-endian unsigned value of the first eight bytes.
pub open spec fn le_u64(b: Seq<u8>) -> int {
    b[0] + 0x100 * b[1] + 0x1_0000 * b[2] + 0x100_0000 * b[3] + 0x1_0000_0000 * b[4] + 0x100_0000_0000 * b[5]
        + 0x1_0000_0000_0000 * b[6] + 0x100_0000_0000_0000 * b[7]
}

/// Where a shard's JSON header lies: after the eight-byte little-endian
/// length, provided that length is not zero, at most 16 MiB, and within
/// what was read.
pub open spec fn header_range(content: Seq<u8>) -> Option<(int, int)> {
    if content.len() < 8 {
        None
    } else {
        let n = le_u64(content);
        if n == 0 || n > MAX_HEADER_BYTES || content.len() < 8 + n {
            None
        } else {
            Some((8, 8 + n))
        }
    }
}

/// The byte range of the JSON header at the start of a safetensors file.
pub fn header_span(content: &[u8]) -> (r: Option<(usize, usize)>)
    ensures
        match r {
            Some((a, b)) => header_range(content@) == Some((a as int, b as int)),
            None => header_range(content@) is None,
        },
{
    if content.len() < 8 {
        return None;
    }
    let n: u64 = content[0] as u64 + 0x100 * (content[1] as u64) + 0x1_0000 * (content[2] as u64) + 0x100_0000 * (
    content[3] as u64) + 0x1_0000_0000 * (content[4] as u64) + 0x100_0000_0000 * (content[5] as u64)
        + 0x1_0000_0000_0000 * (content[6] as u64) + 0x100_0000_0000_0000 * (content[7] as u64);
    if n == 0 || n > MAX_HEADER_BYTES {
        return None;
    }
    let end: usize = 8 + n as usize;
    if content.len() < end {
        return None;
    }
    Some((8, end))
}

/// The tensors of a parsed header with their dtypes, in order: every
/// member but `__metadata__` whose value is an object with a string
/// `dtype`.
pub open spec fn header_dtypes(members: Seq<(String, JsonValue)>) -> Seq<(Seq<char>, Seq<char>)>
    decreases members.len(),
{
    if members.len() == 0 {
        Seq::empty()
    } else {
        let rest = header_dtypes(members.drop_last());
        let (name, info) = members.last();
        if name@ != "__metadata__"@ && (info matches JsonValue::Object(_)) && str_at(info, "dtype"@) is Some {
            rest.push((name@, str_at(info, "dtype"@)->0))
        } else {
            rest
        }
    }
}

pub open spec fn pairs_view(v: Seq<(String, String)>) -> Seq<(Seq<char>, Seq<char>)> {
    v.map_values(|p: (String, String)| (p.0@, p.1@))
}

/// The tensor dtypes a header lists; none when it is not an object or
/// lists none.
pub open spec fn spec_dtypes_from_header(header: JsonValue) -> Option<Seq<(Seq<char>, Seq<char>)>> {
    match header {
        JsonValue::Object(m) => if header_dtypes(m@).len() > 0 {
            Some(header_dtypes(m@))
        } else {
            None
        },
        _ => None,
    }
}

/// No member of an object is named twice.
pub open spec fn keys_distinct(m: Seq<(String, JsonValue)>) -> bool {
    forall|i: int, j: int| 0 <= i < j < m.len() ==> #[trigger] m[i].0@ != #[trigger] m[j].0@
}

/// Every tensor of a header is one of its members, so distinct member names
/// give distinct tensor names.
proof fn lemma_header_dtypes_names(ms: Seq<(String, JsonValue)>)
    ensures
        forall|k: int|
            0 <= k < header_dtypes(ms).len() ==> exists|t: int|
                0 <= t < ms.len() && #[trigger] ms[t].0@ == #[trigger] header_dtypes(ms)[k].0,
        keys_distinct(ms) ==> forall|i: int, j: int|
            0 <= i < j < header_dtypes(ms).len() ==> #[trigger] header_dtypes(ms)[i].0 != #[trigger] header_dtypes(ms)[j].0,
    decreases ms.len(),
{
    if ms.len() > 0 {
        let init = ms.drop_last();
        lemma_header_dtypes_names(init);
        let rest = header_dtypes(init);
        let hd = header_dtypes(ms);
        assert forall|k: int| 0 <= k < hd.len() implies exists|t: int|
            0 <= t < ms.len() && #[trigger] ms[t].0@ == #[trigger] hd[k].0 by {
            if k < rest.len() {
                let t = choose|t: int| 0 <= t < init.len() && #[trigger] init[t].0@ == rest[k].0;
                assert(ms[t] == init[t]);
            } else {
                assert(ms[ms.len() - 1].0@ == hd[k].0);
            }
        }
        if keys_distinct(ms) {
            assert forall|i: int, j: int| 0 <= i < j < hd.len() implies #[trigger] hd[i].0 != #[trigger] hd[j].0 by {
                if j >= rest.len() {
                    let t = choose|t: int| 0 <= t < init.len() && #[trigger] init[t].0@ == rest[i].0;
                    assert(ms[t] == init[t]);
                    assert(ms[t].0@ != ms[ms.len() - 1].0@);
                } else {
                    assert(keys_distinct(init)) by {
                        assert forall|a: int, b: int| 0 <= a < b < init.len() implies #[trigger] init[a].0@ != #[trigger] init[b].0@ by {
                            assert(init[a] == ms[a] && init[b] == ms[b]);
                        }
                    }
                }
            }
        }
    }
}

pub fn dtypes_from_header(header: &JsonValue) -> (r: Option<Vec<(String, String)>>)
    requires
        header matches JsonValue::Object(m) ==> keys_distinct(m@),
    ensures
        match r {
            Some(v) => spec_dtypes_from_header(*header) == Some(pairs_view(v@)) && tensor_names_distinct(v@),
            None => spec_dtypes_from_header(*header) is None,
        },
{
    match header {
        JsonValue::Object(m) => {
            let mut out: Vec<(String, String)> = Vec::new();
            let mut i: usize = 0;
            while i < m.len()
                invariant
                    i <= m@.len(),
                    pairs_view(out@) == header_dtypes(m@.subrange(0, i as int)),
                decreases m.len() - i,
            {
                assert(m@.subrange(0, i + 1).drop_last() =~= m@.subrange(0, i as int));
                let (name, info) = (&m[i].0, &m[i].1);
                let is_object = match info {
                    JsonValue::Object(_) => true,
                    _ => false,
                };
                if !str_eq(name.as_str(), "__metadata__") && is_object {
                    match get_str(info, "dtype") {
                        Some(d) => {
                            let ghost before = out@;
                            out.push((name.clone(), d.to_string()));
                            assert(pairs_view(out@) =~= pairs_view(before).push((name@, d@)));
                        },
                        None => {},
                    }
                }
                i = i + 1;
            }
            assert(m@.subrange(0, m@.len() as int) =~= m@);
            proof {
                lemma_header_dtypes_names(m@);
                assert forall|a: int, b: int| 0 <= a < b < out@.len() implies #[trigger] out@[a].0@ != #[trigger] out@[b].0@ by {
                    assert(pairs_view(out@)[a].0 == out@[a].0@);
                    assert(pairs_view(out@)[b].0 == out@[b].0@);
                }
            }
            if out.len() > 0 {
                Some(out)
            } else {
                None
            }
        },
        _ => None,
    }
}

/// A request for the first bytes of a shard.
pub struct HeaderRequest {
    pub url: String,
    pub headers: Vec<(String, String)>,
    pub params: Vec<(String, String)>,
}

/// The request's headers: the bearer token when there is one, then the
/// client name, any content type, and the byte range of the header read.
pub open spec fn request_headers(token: Option<Seq<char>>) -> Seq<(Seq<char>, Seq<char>)> {
    (match token {
        Some(t) => if t.len() > 0 {
            seq![("Authorization"@, "Bearer "@ + t)]
        } else {
            Seq::empty()
        },
        None => Seq::empty(),
    }) + seq![
        ("User-Agent"@, "llm-infer-cal/0.1"@),
        ("Accept"@, "*/*"@),
        ("Range"@, "bytes=0-"@ + dec((RANGE_FETCH_BYTES - 1) as nat)),
    ]
}

/// Where a shard's first bytes are read: the `resolve` path on HuggingFace,
/// the repository file endpoint (with the file and revision as query
/// parameters) on ModelScope; other sources have none.
pub open spec fn header_request(
    source: Seq<char>,
    model_id: Seq<char>,
    revision: Seq<char>,
    shard: Seq<char>,
    endpoint: Option<Seq<char>>,
) -> Option<(Seq<char>, Seq<(Seq<char>, Seq<char>)>)> {
    if source == "huggingface"@ {
        let base = trim_end_char(
            match endpoint {
                Some(e) => e,
                None => "https://huggingface.co"@,
            },
            '/',
        );
        Some((base + "/"@ + model_id + "/resolve/"@ + revision + "/"@ + shard, Seq::empty()))
    } else if source == "modelscope"@ {
        let base = trim_end_char(
            match endpoint {
                Some(e) => e,
                None => "https://www.modelscope.cn"@,
            },
            '/',
        );
        Some((base + "/api/v1/models/"@ + model_id + "/repo"@, seq![("FilePath"@, shard), ("Revision"@, revision)]))
    } else {
        None
    }
}

pub open spec fn opt_str(o: Option<&str>) -> Option<Seq<char>> {
    match o {
        Some(s) => Some(s@),
        None => None,
    }
}

fn pair(k: &str, v: &str) -> (p: (String, String))
    ensures
        p.0@ == k@,
        p.1@ == v@,
{
    (k.to_string(), v.to_string())
}

/// Builds the request for a shard's header, with the hub token (if any).
pub fn build_request(
    source: &str,
    model_id: &str,
    revision: &str,
    shard_filename: &str,
    endpoint: Option<&str>,
    token: Option<&str>,
) -> (r: Option<HeaderRequest>)
    ensures
        match r {
            Some(q) => header_request(source@, model_id@, revision@, shard_filename@, opt_str(endpoint)) == Some(
                (q.url@, pairs_view(q.params@)),
            ) && pairs_view(q.headers@) == request_headers(opt_str(token)),
            None => header_request(source@, model_id@, revision@, shard_filename@, opt_str(endpoint)) is None,
        },
{
    let is_hf = str_eq(source, "huggingface");
    let is_ms = str_eq(source, "modelscope");
    if !is_hf && !is_ms {
        return None;
    }
    let mut headers: Vec<(String, String)> = Vec::new();
    match token {
        Some(t) => if t.unicode_len() > 0 {
            let mut bearer = "Bearer ".to_string();
            bearer.append(t);
            headers.push(pair("Authorization", bearer.as_str()));
        },
        None => {},
    }
    headers.push(pair("User-Agent", "llm-infer-cal/0.1"));
    headers.push(pair("Accept", "*/*"));
    let mut range = "bytes=0-".to_string();
    range.append(u64_to_string(RANGE_FETCH_BYTES - 1).as_str());
    headers.push(pair("Range", range.as_str()));
    assert(pairs_view(headers@) =~= request_headers(opt_str(token)));
    let mut params: Vec<(String, String)> = Vec::new();
    let url = if is_hf {
        let mut url = trim_end_matches_char(
            match endpoint {
                Some(e) => e,
                None => "https://huggingface.co",
            },
            '/',
        );
        url.append("/");
        url.append(model_id);
        url.append("/resolve/");
        url.append(revision);
        url.append("/");
        url.append(shard_filename);
        assert(pairs_view(params@) =~= Seq::<(Seq<char>, Seq<char>)>::empty());
        url
    } else {
        let mut url = trim_end_matches_char(
            match endpoint {
                Some(e) => e,
                None => "https://www.modelscope.cn",
            },
            '/',
        );
        url.append("/api/v1/models/");
        url.append(model_id);
        url.append("/repo");
        params.push(pair("FilePath", shard_filename));
        params.push(pair("Revision", revision));
        assert(pairs_view(params@) =~= seq![("FilePath"@, shard_filename@), ("Revision"@, revision@)]);
        url
    };
    Some(HeaderRequest { url, headers, params })
}

} // verus!
