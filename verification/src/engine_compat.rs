//! The engine compatibility matrix and version matching.
use vstd::prelude::*;
use crate::json::{parse_u64, spec_parse_u64};
use crate::text::{
    spec_to_lowercase, to_lowercase, trim, trimmed, str_eq, split_char, split_on, views,
    trim_start_char, trim_start_matches_char, strip_prefix, seq_starts_with, lemma_split_nonempty,
};

verus! {

pub struct EngineFlag {
    pub flag: String,
    pub value: Option<String>,
    pub note_en: Option<String>,
    pub note_zh: Option<String>,
}

impl EngineFlag {
    /// A flag with no value and no notes.
    pub fn default() -> (f: Self)
        ensures
            f.flag@.len() == 0,
            f.value is None,
            f.note_en is None,
            f.note_zh is None,
    {
        EngineFlag { flag: String::new(), value: None, note_en: None, note_zh: None }
    }
}

/// An environment variable an engine launch needs.
pub struct EngineEnv {
    pub name: String,
    pub value: String,
}

pub struct EngineSource {
    pub source_type: String,
    pub url: Option<String>,
    pub captured_date: Option<String>,
    pub note_en: Option<String>,
    pub note_zh: Option<String>,
    pub tester: Option<String>,
    pub date: Option<String>,
    pub hardware: Option<String>,
}

/// Whether an engine version range supports a model type, with the flags it
/// needs and where that is documented.
pub struct EngineCompatEntry {
    pub engine: String,
    pub version_spec: String,
    pub matches_model_type: String,
    pub support: String,
    pub verification_level: String,
    pub required_flags: Vec<EngineFlag>,
    pub optional_flags: Vec<EngineFlag>,
    pub sources: Vec<EngineSource>,
    pub caveats_en: Vec<String>,
    pub caveats_zh: Vec<String>,
    pub env: Vec<EngineEnv>,
}

impl EngineCompatEntry {
    /// An empty entry.
    pub fn default() -> (e: Self)
        ensures
            e.engine@.len() == 0,
            e.version_spec@.len() == 0,
            e.matches_model_type@.len() == 0,
            e.support@.len() == 0,
            e.verification_level@.len() == 0,
            e.required_flags@.len() == 0,
            e.optional_flags@.len() == 0,
            e.sources@.len() == 0,
            e.caveats_en@.len() == 0,
            e.caveats_zh@.len() == 0,
            e.env@.len() == 0,
    {
        EngineCompatEntry {
            engine: String::new(),
            version_spec: String::new(),
            matches_model_type: String::new(),
            support: String::new(),
            verification_level: String::new(),
            required_flags: Vec::new(),
            optional_flags: Vec::new(),
            sources: Vec::new(),
            caveats_en: Vec::new(),
            caveats_zh: Vec::new(),
            env: Vec::new(),
        }
    }
}

pub struct EngineCompatMatrix {
    pub schema_version: u64,
    pub entries: Vec<EngineCompatEntry>,
}

/// A `major.minor.patch` version, ordered field by field.
#[derive(Clone, Copy, Debug, PartialEq, Eq, Structural)]
pub struct Version {
    pub major: u64,
    pub minor: u64,
    pub patch: u64,
}

pub open spec fn version_lt(a: Version, b: Version) -> bool {
    a.major < b.major || (a.major == b.major && (a.minor < b.minor || (a.minor == b.minor
        && a.patch < b.patch)))
}

pub open spec fn version_le(a: Version, b: Version) -> bool {
    a == b || version_lt(a, b)
}

fn lt_exec(a: Version, b: Version) -> (r: bool)
    ensures
        r == version_lt(a, b),
{
    a.major < b.major || (a.major == b.major && (a.minor < b.minor || (a.minor == b.minor
        && a.patch < b.patch)))
}

/// `v1.2.3`, `1.2` or `1` (missing parts are 0; extra parts are ignored).
pub open spec fn parse_version(raw: Seq<char>) -> Option<Version> {
    let r = trim_start_char(trimmed(raw), 'v');
    let parts = split_on(r, '.');
    let major = spec_parse_u64(parts[0]);
    let minor = if parts.len() > 1 { spec_parse_u64(parts[1]) } else { Some(0u64) };
    let patch = if parts.len() > 2 { spec_parse_u64(parts[2]) } else { Some(0u64) };
    match (major, minor, patch) {
        (Some(a), Some(b), Some(c)) => Some(Version { major: a, minor: b, patch: c }),
        _ => None,
    }
}

impl Version {
    pub fn parse(raw: &str) -> (r: Option<Version>)
        ensures
            r == parse_version(raw@),
    {
        let r = trim_start_matches_char(trim(raw), 'v');
        let parts = split_char(r.as_str(), '.');
        proof {
            lemma_split_nonempty(r@, '.');
        }
        assert(parts@[0]@ == views(parts@)[0]);
        let major = parse_u64(parts[0].as_str());
        let minor = if parts.len() > 1 {
            assert(parts@[1]@ == views(parts@)[1]);
            parse_u64(parts[1].as_str())
        } else {
            Some(0u64)
        };
        let patch = if parts.len() > 2 {
            assert(parts@[2]@ == views(parts@)[2]);
            parse_u64(parts[2].as_str())
        } else {
            Some(0u64)
        };
        match (major, minor, patch) {
            (Some(a), Some(b), Some(c)) => Some(Version { major: a, minor: b, patch: c }),
            _ => None,
        }
    }
}

pub open spec fn op_holds(op: int, v: Version, r: Version) -> bool {
    if op == 0 {
        version_le(r, v)
    } else if op == 1 {
        version_le(v, r)
    } else if op == 2 {
        v == r
    } else if op == 3 {
        version_lt(r, v)
    } else {
        version_lt(v, r)
    }
}

pub open spec fn op_text(op: int) -> Seq<char> {
    if op == 0 {
        ">="@
    } else if op == 1 {
        "<="@
    } else if op == 2 {
        "=="@
    } else if op == 3 {
        ">"@
    } else {
        "<"@
    }
}

/// The first of `>=`, `<=`, `==`, `>`, `<` (from `op` on) that `part`
/// starts with.
pub open spec fn first_op(part: Seq<char>, op: int) -> int
    decreases 5 - op,
{
    if op >= 5 {
        5
    } else if seq_starts_with(part, op_text(op)) {
        op
    } else {
        first_op(part, op + 1)
    }
}

/// One comma-separated constraint: empty holds; otherwise its operator and
/// version must parse and hold.
pub open spec fn part_holds(v: Version, part: Seq<char>) -> bool {
    if part.len() == 0 {
        true
    } else {
        let op = first_op(part, 0);
        if op >= 5 {
            false
        } else {
            match parse_version(part.subrange(op_text(op).len() as int, part.len() as int)) {
                Some(r) => op_holds(op, v, r),
                None => false,
            }
        }
    }
}

pub open spec fn spec_version_matches(v: Version, spec: Seq<char>) -> bool {
    let parts = split_on(spec, ',');
    forall|i: int| 0 <= i < parts.len() ==> part_holds(v, trimmed(#[trigger] parts[i]))
}

fn op_str(op: u64) -> (s: &'static str)
    requires
        op < 5,
    ensures
        s@ == op_text(op as int),
{
    if op == 0 {
        ">="
    } else if op == 1 {
        "<="
    } else if op == 2 {
        "=="
    } else if op == 3 {
        ">"
    } else {
        "<"
    }
}

fn part_holds_exec(v: Version, part: &str) -> (b: bool)
    ensures
        b == part_holds(v, part@),
{
    if part.unicode_len() == 0 {
        return true;
    }
    let mut op: u64 = 0;
    while op < 5
        invariant
            op <= 5,
            part@.len() > 0,
            first_op(part@, 0) == first_op(part@, op as int),
        decreases 5 - op,
    {
        match strip_prefix(part, op_str(op)) {
            Some(rest) => {
                let required = Version::parse(rest.as_str());
                assert(first_op(part@, 0) == op);
                proof {
                    if required is Some {
                        let r = required->0;
                        assert(!version_lt(v, r) <==> version_le(r, v));
                        assert(!version_lt(r, v) <==> version_le(v, r));
                    }
                }
                let res = match required {
                    Some(r) => {
                        if op == 0 {
                            !lt_exec(v, r)
                        } else if op == 1 {
                            !lt_exec(r, v)
                        } else if op == 2 {
                            v.major == r.major && v.minor == r.minor && v.patch == r.patch
                        } else if op == 3 {
                            lt_exec(r, v)
                        } else {
                            lt_exec(v, r)
                        }
                    },
                    None => false,
                };
                assert(required == parse_version(part@.subrange(op_text(op as int).len() as int, part@.len() as int)));
                assert(res == match required {
                    Some(r) => op_holds(op as int, v, r),
                    None => false,
                });
                assert(part@.len() != 0);
                assert(op < 5);
                assert(part_holds(v, part@) == res);
                return res;
            },
            None => {},
        }
        op = op + 1;
    }
    false
}

pub fn version_matches(version: Version, spec: &str) -> (b: bool)
    ensures
        b == spec_version_matches(version, spec@),
{
    let parts = split_char(spec, ',');
    let mut i: usize = 0;
    while i < parts.len()
        invariant
            i <= parts@.len(),
            views(parts@) == split_on(spec@, ','),
            forall|j: int| 0 <= j < i ==> part_holds(version, trimmed(#[trigger] split_on(spec@, ',')[j])),
        decreases parts.len() - i,
    {
        assert(parts@[i as int]@ == views(parts@)[i as int]);
        if !part_holds_exec(version, trim(parts[i].as_str())) {
            return false;
        }
        i = i + 1;
    }
    true
}

/// The lower bound a constraint states (`>=`, `==` or `>`, tried in that
/// order), if its version parses.
pub open spec fn part_lower(part: Seq<char>) -> Option<Version> {
    if seq_starts_with(part, ">="@) && parse_version(part.subrange(2, part.len() as int)) is Some {
        parse_version(part.subrange(2, part.len() as int))
    } else if seq_starts_with(part, "=="@) && parse_version(part.subrange(2, part.len() as int))
        is Some {
        parse_version(part.subrange(2, part.len() as int))
    } else if seq_starts_with(part, ">"@) && parse_version(part.subrange(1, part.len() as int))
        is Some {
        parse_version(part.subrange(1, part.len() as int))
    } else {
        None
    }
}

pub open spec fn lower_bound_of(parts: Seq<Seq<char>>) -> Version
    decreases parts.len(),
{
    if parts.len() == 0 {
        Version { major: 0, minor: 0, patch: 0 }
    } else {
        match part_lower(trimmed(parts[0])) {
            Some(v) => v,
            None => lower_bound_of(parts.drop_first()),
        }
    }
}

/// The first lower bound a version spec states; 0.0.0 when none.
pub open spec fn spec_lower_bound(spec: Seq<char>) -> Version {
    lower_bound_of(split_on(spec, ','))
}

fn part_lower_exec(part: &str) -> (r: Option<Version>)
    ensures
        r == part_lower(part@),
{
    proof {
        reveal_strlit(">=");
        reveal_strlit("==");
        reveal_strlit(">");
    }
    match strip_prefix(part, ">=") {
        Some(rest) => {
            let v = Version::parse(rest.as_str());
            if v.is_some() {
                return v;
            }
        },
        None => {},
    }
    match strip_prefix(part, "==") {
        Some(rest) => {
            let v = Version::parse(rest.as_str());
            if v.is_some() {
                return v;
            }
        },
        None => {},
    }
    match strip_prefix(part, ">") {
        Some(rest) => Version::parse(rest.as_str()),
        None => None,
    }
}

pub fn lower_bound_key(spec: &str) -> (v: Version)
    ensures
        v == spec_lower_bound(spec@),
{
    let parts = split_char(spec, ',');
    let mut i: usize = 0;
    assert(split_on(spec@, ',').subrange(0, parts@.len() as int) =~= split_on(spec@, ','));
    while i < parts.len()
        invariant
            i <= parts@.len(),
            views(parts@) == split_on(spec@, ','),
            spec_lower_bound(spec@) == lower_bound_of(views(parts@).subrange(i as int, parts@.len() as int)),
        decreases parts.len() - i,
    {
        assert(parts@[i as int]@ == views(parts@)[i as int]);
        let ghost rest = views(parts@).subrange(i as int, parts@.len() as int);
        assert(rest[0] == views(parts@)[i as int]);
        assert(rest.drop_first() =~= views(parts@).subrange(i + 1, parts@.len() as int));
        match part_lower_exec(trim(parts[i].as_str())) {
            Some(v) => {
                return v;
            },
            None => {},
        }
        i = i + 1;
    }
    Version { major: 0, minor: 0, patch: 0 }
}

/// An entry for this engine and model type (both compared trimmed and
/// lower-cased).
pub open spec fn is_candidate_entry(e: EngineCompatEntry, engine: Seq<char>, model_type: Seq<char>) -> bool {
    e.engine@ == spec_to_lowercase(trimmed(engine)) && e.matches_model_type@ == spec_to_lowercase(
        trimmed(model_type),
    )
}

/// The matrix entry for an engine and model type: without a version, the
/// one with the highest lower bound (the last of equals); with an
/// unparsable version, the first; else the first whose range holds it.
pub fn find_match<'a>(
    engine: &str,
    model_type: &str,
    version: Option<&str>,
    matrix: &'a EngineCompatMatrix,
) -> (res: Option<&'a EngineCompatEntry>)
    ensures
        res is None ==> (forall|i: int|
            0 <= i < matrix.entries@.len() ==> !is_candidate_entry(
                #[trigger] matrix.entries@[i],
                engine@,
                model_type@,
            )) || (match version {
            Some(v) => parse_version(v@) matches Some(pv) && forall|i: int|
                0 <= i < matrix.entries@.len() && is_candidate_entry(
                    #[trigger] matrix.entries@[i],
                    engine@,
                    model_type@,
                ) ==> !spec_version_matches(pv, matrix.entries@[i].version_spec@),
            None => false,
        }),
        res matches Some(e) ==> exists|i: int|
            0 <= i < matrix.entries@.len() && matrix.entries@[i] == *e && is_candidate_entry(
                *e,
                engine@,
                model_type@,
            ) && match version {
                None => forall|j: int|
                    0 <= j < matrix.entries@.len() && is_candidate_entry(
                        #[trigger] matrix.entries@[j],
                        engine@,
                        model_type@,
                    ) ==> version_le(
                        spec_lower_bound(matrix.entries@[j].version_spec@),
                        spec_lower_bound(e.version_spec@),
                    ) && (j > i ==> version_lt(
                        spec_lower_bound(matrix.entries@[j].version_spec@),
                        spec_lower_bound(e.version_spec@),
                    )),
                Some(v) => match parse_version(v@) {
                    None => forall|j: int|
                        0 <= j < i ==> !is_candidate_entry(
                            #[trigger] matrix.entries@[j],
                            engine@,
                            model_type@,
                        ),
                    Some(pv) => spec_version_matches(pv, e.version_spec@) && forall|j: int|
                        0 <= j < i && is_candidate_entry(
                            #[trigger] matrix.entries@[j],
                            engine@,
                            model_type@,
                        ) ==> !spec_version_matches(pv, matrix.entries@[j].version_spec@),
                },
            },
{
    let engine_norm = to_lowercase(trim(engine));
    let model_norm = to_lowercase(trim(model_type));
    let entries = &matrix.entries;
    let parsed: Option<Version> = match version {
        Some(v) => Version::parse(v),
        None => None,
    };
    let mut best: Option<usize> = None;
    let mut best_key = Version { major: 0, minor: 0, patch: 0 };
    let mut i: usize = 0;
    while i < entries.len()
        invariant
            i <= entries@.len(),
            entries == &matrix.entries,
            engine_norm@ == spec_to_lowercase(trimmed(engine@)),
            model_norm@ == spec_to_lowercase(trimmed(model_type@)),
            match version {
                Some(v) => parsed == parse_version(v@),
                None => parsed is None,
            },
            version is Some ==> best is None,
            version is Some && parsed is None ==> forall|j: int|
                0 <= j < i ==> !is_candidate_entry(#[trigger] entries@[j], engine@, model_type@),
            version is Some && parsed is Some ==> forall|j: int|
                0 <= j < i && is_candidate_entry(#[trigger] entries@[j], engine@, model_type@)
                    ==> !spec_version_matches(parsed->0, entries@[j].version_spec@),
            version is None ==> match best {
                None => forall|j: int|
                    0 <= j < i ==> !is_candidate_entry(#[trigger] entries@[j], engine@, model_type@),
                Some(b) => b < i && is_candidate_entry(entries@[b as int], engine@, model_type@)
                    && best_key == spec_lower_bound(entries@[b as int].version_spec@) && forall|j: int|
                    0 <= j < i && is_candidate_entry(#[trigger] entries@[j], engine@, model_type@)
                        ==> version_le(spec_lower_bound(entries@[j].version_spec@), best_key) && (j
                        > b ==> version_lt(spec_lower_bound(entries@[j].version_spec@), best_key)),
            },
        decreases entries.len() - i,
    {
        let e = &entries[i];
        if str_eq(e.engine.as_str(), engine_norm.as_str()) && str_eq(
            e.matches_model_type.as_str(),
            model_norm.as_str(),
        ) {
            match version {
                Some(_) => match parsed {
                    None => {
                        return Some(e);
                    },
                    Some(pv) => {
                        if version_matches(pv, e.version_spec.as_str()) {
                            return Some(e);
                        }
                    },
                },
                None => {
                    let key = lower_bound_key(e.version_spec.as_str());
                    match best {
                        None => {
                            best = Some(i);
                            best_key = key;
                        },
                        Some(_) => {
                            if !lt_exec(key, best_key) {
                                best = Some(i);
                                best_key = key;
                            }
                        },
                    }
                },
            }
        }
        i = i + 1;
    }
    match best {
        Some(b) => Some(&entries[b]),
        None => None,
    }
}

} // verus!
