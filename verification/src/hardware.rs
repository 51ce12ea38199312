//! The GPU catalogue and name lookup.
use vstd::prelude::*;
use crate::text::{
    to_uppercase, spec_to_uppercase, trim, trimmed, owned, str_eq, chars_of, string_of,
};

verus! {

/// One GPU model. Peak FP16 throughput is kept in thousandths of a TFLOPS.
pub struct GPUSpec {
    pub id: String,
    pub aliases: Vec<String>,
    pub memory_gb: u64,
    pub nvlink_bandwidth_gbps: u64,
    pub memory_bandwidth_gbps: Option<u64>,
    pub fp16_tflops_milli: u64,
    pub fp8_support: bool,
    pub fp4_support: bool,
    pub notes_en: Option<String>,
    pub notes_zh: Option<String>,
    pub spec_source: Option<String>,
}

pub struct GPUDatabase {
    pub schema_version: u64,
    pub gpus: Vec<GPUSpec>,
}

/// A GPU name that the catalogue does not know, with a message for the user.
pub struct UnknownGPUError {
    pub message: String,
}

impl UnknownGPUError {
    /// The user-facing message.
    pub fn to_string(&self) -> (res: String)
        ensures
            res@ == self.message@,
    {
        self.message.clone()
    }
}

pub open spec fn opt_view(o: Option<String>) -> Option<Seq<char>> {
    match o {
        Some(s) => Some(s@),
        None => None,
    }
}

pub open spec fn opt_str_view(o: Option<&str>) -> Option<Seq<char>> {
    match o {
        Some(s) => Some(s@),
        None => None,
    }
}

impl GPUSpec {
    /// The notes in the requested language, falling back to the other one.
    pub fn localized_notes(&self, locale: &str) -> (res: Option<&str>)
        ensures
            locale@ == "zh"@ ==> opt_str_view(res) == (if self.notes_zh is Some {
                opt_view(self.notes_zh)
            } else {
                opt_view(self.notes_en)
            }),
            locale@ != "zh"@ ==> opt_str_view(res) == (if self.notes_en is Some {
                opt_view(self.notes_en)
            } else {
                opt_view(self.notes_zh)
            }),
    {
        let (first, second) = if str_eq(locale, "zh") {
            (&self.notes_zh, &self.notes_en)
        } else {
            (&self.notes_en, &self.notes_zh)
        };
        match first {
            Some(s) => Some(s.as_str()),
            None => match second {
                Some(s) => Some(s.as_str()),
                None => None,
            },
        }
    }
}

/// A GPU matches a (trimmed, upper-cased) name by its id or one of its
/// aliases, compared upper-cased.
pub open spec fn gpu_matches(g: GPUSpec, target: Seq<char>) -> bool {
    spec_to_uppercase(g.id@) == target || exists|k: int|
        0 <= k < g.aliases@.len() && spec_to_uppercase(#[trigger] g.aliases@[k]@) == target
}

pub open spec fn lookup_target(gpu: Seq<char>) -> Seq<char> {
    spec_to_uppercase(trimmed(gpu))
}

fn gpu_matches_exec(g: &GPUSpec, target: &str) -> (b: bool)
    ensures
        b == gpu_matches(*g, target@),
{
    let id_up = to_uppercase(g.id.as_str());
    if str_eq(id_up.as_str(), target) {
        return true;
    }
    let mut k: usize = 0;
    while k < g.aliases.len()
        invariant
            k <= g.aliases@.len(),
            spec_to_uppercase(g.id@) != target@,
            forall|j: int| 0 <= j < k ==> spec_to_uppercase(#[trigger] g.aliases@[j]@) != target@,
        decreases g.aliases.len() - k,
    {
        let up = to_uppercase(g.aliases[k].as_str());
        if str_eq(up.as_str(), target) {
            return true;
        }
        k = k + 1;
    }
    false
}

/// Index of the last `X` in `s`, if any.
pub open spec fn last_x(s: Seq<char>) -> Option<int> {
    if exists|i: int| 0 <= i < s.len() && s[i] == 'X' {
        Some(choose|i: int| 0 <= i < s.len() && s[i] == 'X' && forall|j: int| i < j < s.len() ==> s[j] != 'X')
    } else {
        None
    }
}

pub open spec fn is_ascii_digit_char(c: char) -> bool {
    '0' <= c && c <= '9'
}

/// `NAMExCOUNT` (the old combined form, upper-cased): a non-empty name, then
/// `X`, then only digits.
pub open spec fn legacy_split(target: Seq<char>) -> Option<(Seq<char>, Seq<char>)> {
    match last_x(target) {
        Some(i) => {
            let name = target.subrange(0, i);
            let count = target.subrange(i + 1, target.len() as int);
            if name.len() > 0 && forall|j: int| 0 <= j < count.len() ==> is_ascii_digit_char(
                #[trigger] count[j],
            ) {
                Some((name, count))
            } else {
                None
            }
        },
        None => None,
    }
}

pub open spec fn legacy_message(gpu: Seq<char>, name: Seq<char>, count: Seq<char>) -> Seq<char> {
    "'"@ + gpu + "' looks like old 'H800x8' format. Use `--gpu "@ + name + " --gpu-count "@
        + count + "` instead."@
}

pub open spec fn joined_ids(gpus: Seq<GPUSpec>) -> Seq<char>
    decreases gpus.len(),
{
    if gpus.len() == 0 {
        Seq::empty()
    } else if gpus.len() == 1 {
        gpus[0].id@
    } else {
        joined_ids(gpus.drop_last()) + ", "@ + gpus.last().id@
    }
}

pub open spec fn unknown_message(gpu: Seq<char>, gpus: Seq<GPUSpec>) -> Seq<char> {
    "Unknown GPU '"@ + gpu + "'. Known: "@ + joined_ids(gpus)
}

fn last_x_exec(s: &Vec<char>) -> (r: Option<usize>)
    ensures
        r matches Some(i) ==> last_x(s@) == Some(i as int) && i < s@.len(),
        r is None ==> last_x(s@) is None,
{
    let mut i: usize = s.len();
    while i > 0
        invariant
            i <= s.len(),
            forall|j: int| i <= j < s.len() ==> s@[j] != 'X',
        decreases i,
    {
        if s[i - 1] == 'X' {
            let ghost w = (i - 1) as int;
            assert(s@[w] == 'X' && forall|j: int| w < j < s.len() ==> s@[j] != 'X');
            proof {
                let c = choose|c: int| 0 <= c < s@.len() && s@[c] == 'X' && forall|j: int| c < j < s@.len() ==> s@[j] != 'X';
                assert(c == w) by {
                    if c < w {
                        assert(s@[w] != 'X');
                    } else if c > w {
                        assert(s@[c] != 'X');
                    }
                }
            }
            return Some(i - 1);
        }
        i = i - 1;
    }
    None
}

fn ids_joined_exec(gpus: &Vec<GPUSpec>) -> (s: String)
    ensures
        s@ == joined_ids(gpus@),
{
    let mut s = String::new();
    let mut i: usize = 0;
    while i < gpus.len()
        invariant
            i <= gpus.len(),
            s@ == joined_ids(gpus@.subrange(0, i as int)),
        decreases gpus.len() - i,
    {
        if i > 0 {
            s.append(", ");
        }
        s.append(gpus[i].id.as_str());
        proof {
            let sub = gpus@.subrange(0, i + 1);
            assert(sub.drop_last() =~= gpus@.subrange(0, i as int));
            if i == 0 {
                assert(joined_ids(gpus@.subrange(0, 0)) =~= Seq::<char>::empty());
            }
        }
        i = i + 1;
        assert(s@ =~= joined_ids(gpus@.subrange(0, i as int)));
    }
    assert(gpus@.subrange(0, gpus.len() as int) =~= gpus@);
    s
}

/// The first GPU of the catalogue that the name matches; else an error that
/// points old `NAMExCOUNT` names to `--gpu-count`, or lists the known ids.
pub fn lookup_in<'a>(database: &'a GPUDatabase, gpu: &str) -> (res: Result<&'a GPUSpec, UnknownGPUError>)
    ensures
        res matches Ok(g) ==> exists|i: int|
            0 <= i < database.gpus@.len() && database.gpus@[i] == *g && gpu_matches(
                database.gpus@[i],
                lookup_target(gpu@),
            ) && forall|j: int|
                0 <= j < i ==> !gpu_matches(#[trigger] database.gpus@[j], lookup_target(gpu@)),
        res is Err <==> forall|j: int|
            0 <= j < database.gpus@.len() ==> !gpu_matches(
                #[trigger] database.gpus@[j],
                lookup_target(gpu@),
            ),
        res matches Err(e) ==> e.message@ == match legacy_split(lookup_target(gpu@)) {
            Some((name, count)) => legacy_message(gpu@, name, count),
            None => unknown_message(gpu@, database.gpus@),
        },
{
    let target = to_uppercase(trim(gpu));
    let mut i: usize = 0;
    while i < database.gpus.len()
        invariant
            i <= database.gpus@.len(),
            target@ == lookup_target(gpu@),
            forall|j: int| 0 <= j < i ==> !gpu_matches(#[trigger] database.gpus@[j], target@),
        decreases database.gpus.len() - i,
    {
        if gpu_matches_exec(&database.gpus[i], target.as_str()) {
            return Ok(&database.gpus[i]);
        }
        i = i + 1;
    }
    let chars = chars_of(target.as_str());
    match last_x_exec(&chars) {
        Some(x) => {
            let mut name_v: Vec<char> = Vec::new();
            let mut k: usize = 0;
            while k < x
                invariant
                    k <= x < chars@.len(),
                    name_v@ == chars@.subrange(0, k as int),
                decreases x - k,
            {
                name_v.push(chars[k]);
                k = k + 1;
            }
            let mut count_v: Vec<char> = Vec::new();
            let mut all_digits = true;
            let n = chars.len();
            assert(x < n);
            let mut k: usize = x + 1;
            while k < chars.len()
                invariant
                    x + 1 <= k <= chars@.len(),
                    count_v@ == chars@.subrange(x + 1, k as int),
                    all_digits == forall|j: int| 0 <= j < count_v@.len() ==> is_ascii_digit_char(#[trigger] count_v@[j]),
                decreases chars.len() - k,
            {
                let c = chars[k];
                let ghost before = count_v@;
                count_v.push(c);
                if !('0' <= c && c <= '9') {
                    all_digits = false;
                }
                proof {
                    assert(count_v@ =~= before.push(c));
                    assert(count_v@[count_v@.len() - 1] == c);
                    assert forall|j: int| 0 <= j < before.len() implies count_v@[j] == before[j] by {}
                }
                assert(chars@.subrange(x + 1, k + 1) =~= chars@.subrange(x + 1, k as int).push(c));
                k = k + 1;
            }
            if x > 0 && all_digits {
                let mut m = String::new();
                m.append("'");
                m.append(gpu);
                m.append("' looks like old 'H800x8' format. Use `--gpu ");
                m.append(string_of(&name_v).as_str());
                m.append(" --gpu-count ");
                m.append(string_of(&count_v).as_str());
                m.append("` instead.");
                return Err(UnknownGPUError { message: m });
            }
        },
        None => {},
    }
    let mut m = String::new();
    m.append("Unknown GPU '");
    m.append(gpu);
    m.append("'. Known: ");
    m.append(ids_joined_exec(&database.gpus).as_str());
    Err(UnknownGPUError { message: m })
}

} // verus!
