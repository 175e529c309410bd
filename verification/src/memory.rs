//! Memory telemetry read from `/proc/self/status` and cgroup v2 files: the
//! texts are read elsewhere; this module turns them into a snapshot, and
//! reports what was missing or unreadable instead of failing.

use vstd::prelude::*;

use crate::cli::decimal_value;
use crate::config::{join_path, path_joined};
use crate::mw_api::{parse_u64_text, unsigned_value};
use crate::text::{chars_of, is_whitespace, is_ws, push_str, string_of, trim_chars, trim, trim_start, trim_start_chars};
use crate::titles::{first_index_of, lines_chars, lines_of};

verus! {

/// Memory use of this process.
#[derive(Clone, Debug, Default, PartialEq, Eq)]
pub struct ProcessMemorySnapshot {
    pub vm_rss_bytes: Option<u64>,
    pub vm_hwm_bytes: Option<u64>,
    pub error: Option<String>,
}

/// The counters of a cgroup's `memory.events`.
#[derive(Clone, Copy, Debug, Default, PartialEq, Eq)]
pub struct CgroupMemoryEvents {
    pub low: u64,
    pub high: u64,
    pub max: u64,
    pub oom: u64,
    pub oom_kill: u64,
    pub oom_group_kill: u64,
}

/// Memory use and limits of the cgroup the daemon runs in.
#[derive(Clone, Debug, Default, PartialEq, Eq)]
pub struct CgroupMemorySnapshot {
    pub current_bytes: Option<u64>,
    pub peak_bytes: Option<u64>,
    pub max_bytes: Option<u64>,
    pub max_is_unlimited: bool,
    pub events: Option<CgroupMemoryEvents>,
    pub error: Option<String>,
}

/// One sample of memory telemetry.
#[derive(Clone, Debug, Default, PartialEq, Eq)]
pub struct MemorySnapshot {
    pub sampled_at: Option<i64>,
    pub process: ProcessMemorySnapshot,
    pub cgroup: CgroupMemorySnapshot,
}

/// The characters of `s` up to its first whitespace.
pub open spec fn word_prefix(s: Seq<char>) -> Seq<char>
    decreases s.len(),
{
    if s.len() == 0 || is_ws(s[0]) {
        Seq::empty()
    } else {
        seq![s[0]] + word_prefix(s.drop_first())
    }
}

/// The first whitespace-separated word of `s`, as `split_whitespace`
/// yields it.
pub open spec fn first_word(s: Seq<char>) -> Option<Seq<char>> {
    let t = trim_start(s);
    if t.len() == 0 {
        None
    } else {
        Some(word_prefix(t))
    }
}

/// The `u64` a text writes, as `u64::from_str` reads it.
pub open spec fn u64_value(t: Seq<char>) -> Option<u64> {
    match unsigned_value(t) {
        Some(n) => if n <= u64::MAX {
            Some(n as u64)
        } else {
            None
        },
        None => None,
    }
}

fn word_prefix_chars(v: &Vec<char>) -> (r: Vec<char>)
    ensures
        r@ == word_prefix(v@),
{
    let mut i: usize = 0;
    while i < v.len() && !is_whitespace(v[i])
        invariant
            i <= v.len(),
            forall|j: int| 0 <= j < i ==> !is_ws(#[trigger] v@[j]),
        decreases v.len() - i,
    {
        i = i + 1;
    }
    proof {
        lemma_word_prefix(v@, i as int);
    }
    crate::text::copy_range(v, 0, i)
}

proof fn lemma_word_prefix(s: Seq<char>, i: int)
    requires
        0 <= i <= s.len(),
        forall|j: int| 0 <= j < i ==> !is_ws(#[trigger] s[j]),
        i == s.len() || is_ws(s[i]),
    ensures
        word_prefix(s) == s.subrange(0, i),
    decreases s.len(),
{
    if i == 0 {
        assert(s.subrange(0, 0) =~= Seq::<char>::empty());
    } else {
        lemma_word_prefix(s.drop_first(), i - 1);
        assert(seq![s[0]] + s.drop_first().subrange(0, i - 1) =~= s.subrange(0, i));
    }
}

/// The value of a `name:` line of a status file, in its unit.
pub open spec fn field_value(line: Seq<char>, name: Seq<char>) -> Option<u64> {
    if name.is_prefix_of(line) && line.len() > name.len() && line[name.len() as int] == ':' {
        match first_word(line.skip(name.len() + 1int)) {
            Some(w) => u64_value(w),
            None => None,
        }
    } else {
        None
    }
}

/// The value of the first `name:` line whose value reads.
pub open spec fn first_field_value(lines: Seq<Seq<char>>, name: Seq<char>) -> Option<u64>
    decreases lines.len(),
{
    if lines.len() == 0 {
        None
    } else {
        match field_value(lines[0], name) {
            Some(n) => Some(n),
            None => first_field_value(lines.drop_first(), name),
        }
    }
}

fn field_value_of(line: &Vec<char>, name: &Vec<char>) -> (r: Option<u64>)
    ensures
        r == field_value(line@, name@),
{
    if line.len() <= name.len() {
        return None;
    }
    if !crate::text::starts_with_chars(line, name) {
        return None;
    }
    if line[name.len()] != ':' {
        return None;
    }
    let rest = crate::text::copy_range(line, name.len() + 1, line.len());
    assert(rest@ =~= line@.skip(name@.len() + 1int));
    let t = trim_start_chars(&rest);
    if t.len() == 0 {
        return None;
    }
    let w = word_prefix_chars(&t);
    parse_u64_text(&w)
}

/// The value, in kibibytes, of the first `name:` line of a
/// `/proc/<pid>/status` text whose value reads.
pub fn proc_status_kibibytes(raw: &str, name: &str) -> (r: Option<u64>)
    ensures
        r == first_field_value(lines_of(raw@), name@),
{
    let v = chars_of(raw);
    let n = chars_of(name);
    let ls = lines_chars(&v);
    let ghost views = ls@.map_values(|l: Vec<char>| l@);
    assert(views == lines_of(raw@));
    assert(views.skip(0) =~= views);
    let mut i: usize = 0;
    while i < ls.len()
        invariant
            i <= ls@.len(),
            views == ls@.map_values(|l: Vec<char>| l@),
            views == lines_of(raw@),
            n@ == name@,
            first_field_value(views, n@) == first_field_value(views.skip(i as int), n@),
        decreases ls@.len() - i,
    {
        let value = field_value_of(&ls[i], &n);
        proof {
            assert(views.skip(i as int)[0] == ls@[i as int]@);
            assert(views.skip(i as int).drop_first() =~= views.skip(i as int + 1));
        }
        if value.is_some() {
            assert(views.skip(i as int).len() > 0);
            assert(first_field_value(views.skip(i as int), n@) == value);
            return value;
        }
        i = i + 1;
    }
    None
}

/// The message a failed read of `path` leaves.
pub open spec fn read_failure_text(path: Seq<char>, error: Seq<char>) -> Seq<char> {
    "failed to read "@ + path + ": "@ + error
}

/// The message a failed read of `path` with `error` leaves.
pub fn read_failure(path: &str, error: &str) -> (r: String)
    ensures
        r@ == read_failure_text(path@, error@),
{
    let mut out: Vec<char> = Vec::new();
    push_str(&mut out, "failed to read ");
    push_str(&mut out, path);
    push_str(&mut out, ": ");
    push_str(&mut out, error);
    string_of(&out)
}

/// The byte count of a kibibyte value, when it fits.
pub open spec fn bytes_of(kib: Option<u64>) -> Option<u64> {
    match kib {
        Some(k) => Some((k * 1024) as u64),
        None => None,
    }
}

/// What a process status text, or the failure to read it at `path`, says of
/// the process's memory: resident and peak sizes, and which are missing.
pub open spec fn process_memory_view(read: Result<String, String>, path: Seq<char>) -> (Option<u64>, Option<u64>, Option<Seq<char>>) {
    match read {
        Err(e) => (None, None, Some(read_failure_text(path, e@))),
        Ok(raw) => {
            let rss = bytes_of(first_field_value(lines_of(raw@), "VmRSS"@));
            let hwm = bytes_of(first_field_value(lines_of(raw@), "VmHWM"@));
            let error = if rss is None && hwm is None {
                Some("missing VmRSS, VmHWM"@)
            } else if rss is None {
                Some("missing VmRSS"@)
            } else if hwm is None {
                Some("missing VmHWM"@)
            } else {
                None
            };
            (rss, hwm, error)
        },
    }
}

/// The process memory sizes fit in bytes.
pub open spec fn process_sizes_fit(read: Result<String, String>) -> bool {
    read matches Ok(raw) ==> {
        &&& first_field_value(lines_of(raw@), "VmRSS"@) matches Some(k) ==> k * 1024 <= u64::MAX
        &&& first_field_value(lines_of(raw@), "VmHWM"@) matches Some(k) ==> k * 1024 <= u64::MAX
    }
}

/// The process memory a status text read from `path` (or its read error)
/// shows.
pub fn sample_process_memory(read: Result<String, String>, path: &str) -> (r: ProcessMemorySnapshot)
    requires
        process_sizes_fit(read),
    ensures
        (r.vm_rss_bytes, r.vm_hwm_bytes, crate::cli::opt_text(r.error)) == process_memory_view(read, path@),
{
    match read {
        Err(e) => ProcessMemorySnapshot {
            vm_rss_bytes: None,
            vm_hwm_bytes: None,
            error: Some(read_failure(path, e.as_str())),
        },
        Ok(raw) => {
            let rss = match proc_status_kibibytes(raw.as_str(), "VmRSS") {
                Some(k) => Some(k * 1024),
                None => None,
            };
            let hwm = match proc_status_kibibytes(raw.as_str(), "VmHWM") {
                Some(k) => Some(k * 1024),
                None => None,
            };
            let error = if rss.is_none() && hwm.is_none() {
                Some(String::from_str("missing VmRSS, VmHWM"))
            } else if rss.is_none() {
                Some(String::from_str("missing VmRSS"))
            } else if hwm.is_none() {
                Some(String::from_str("missing VmHWM"))
            } else {
                None
            };
            ProcessMemorySnapshot { vm_rss_bytes: rss, vm_hwm_bytes: hwm, error }
        },
    }
}

/// How `u64::from_str` describes why `text` is not a `u64`.
pub uninterp spec fn u64_parse_error_text(text: Seq<char>) -> Seq<char>;

/// The reason `u64::from_str` gives for refusing `text`, as its error
/// displays it.
#[verifier::external_body]
fn u64_parse_error(text: &str) -> (r: String)
    requires
        u64_value(text@) is None,
    ensures
        r@ == u64_parse_error_text(text@),
{
    match text.parse::<u64>() {
        Ok(_) => String::new(),
        Err(e) => e.to_string(),
    }
}

/// The name and value of one `memory.events` line (`<name> <value>`), when
/// its value reads.
pub open spec fn event_entry(line: Seq<char>) -> Option<(Seq<char>, u64)> {
    match first_index_of(line, ' ') {
        Some(i) => match u64_value(line.skip(i + 1)) {
            Some(v) => Some((line.take(i), v)),
            None => None,
        },
        None => None,
    }
}

/// The value `memory.events` gives `key`: its last line for `key` whose
/// value reads.
pub open spec fn event_value(lines: Seq<Seq<char>>, key: Seq<char>) -> Option<u64>
    decreases lines.len(),
{
    if lines.len() == 0 {
        None
    } else {
        match event_entry(lines.last()) {
            Some((name, v)) => if name == key {
                Some(v)
            } else {
                event_value(lines.drop_last(), key)
            },
            None => event_value(lines.drop_last(), key),
        }
    }
}

/// The counters `memory.events` must give.
pub open spec fn event_keys() -> Seq<Seq<char>> {
    seq!["low"@, "high"@, "max"@, "oom"@, "oom_kill"@, "oom_group_kill"@]
}

/// The counters a `memory.events` text gives, or the keys it misses.
pub open spec fn events_view(raw: Seq<char>) -> Result<CgroupMemoryEvents, Seq<Seq<char>>> {
    let ls = lines_of(raw);
    let missing = event_keys().filter(|k: Seq<char>| event_value(ls, k) is None);
    if missing.len() > 0 {
        Err(missing)
    } else {
        Ok(CgroupMemoryEvents {
            low: event_value(ls, "low"@)->0,
            high: event_value(ls, "high"@)->0,
            max: event_value(ls, "max"@)->0,
            oom: event_value(ls, "oom"@)->0,
            oom_kill: event_value(ls, "oom_kill"@)->0,
            oom_group_kill: event_value(ls, "oom_group_kill"@)->0,
        })
    }
}

fn event_entry_of(line: &Vec<char>) -> (r: Option<(Vec<char>, u64)>)
    ensures
        match r {
            Some((n, v)) => event_entry(line@) == Some((n@, v)),
            None => event_entry(line@) is None,
        },
{
    let sp = vec![' '];
    assert(sp@ == seq![' ']);
    match crate::text::find_chars(line, &sp) {
        None => {
            assert(first_index_of(line@, ' ') is None);
            None
        },
        Some(i) => {
            assert(first_index_of(line@, ' ') == Some(i as int));
            assert(crate::text::occurs_at(line@, sp@, i as int));
            assert(i < line.len());
            let value = crate::text::copy_range(line, i + 1, line.len());
            assert(value@ =~= line@.skip(i as int + 1));
            match parse_u64_text(&value) {
                Some(v) => {
                    let name = crate::text::copy_range(line, 0, i);
                    assert(name@ =~= line@.take(i as int));
                    Some((name, v))
                },
                None => None,
            }
        },
    }
}

fn note_event(slot: &mut Option<u64>, entry: &Option<(Vec<char>, u64)>, key: &str)
    ensures
        *final(slot) == match *entry {
            Some((n, v)) => if n@ == key@ {
                Some(v)
            } else {
                *old(slot)
            },
            None => *old(slot),
        },
{
    if let Some((n, v)) = entry {
        let k = chars_of(key);
        if crate::text::chars_eq(n, &k) {
            *slot = Some(*v);
        }
    }
}

/// Reads the counters of a `memory.events` text, or the keys it misses.
pub fn parse_cgroup_events(raw: &str) -> (r: Result<CgroupMemoryEvents, Vec<String>>)
    ensures
        match r {
            Ok(e) => events_view(raw@) == Ok::<CgroupMemoryEvents, Seq<Seq<char>>>(e),
            Err(m) => events_view(raw@) == Err::<CgroupMemoryEvents, Seq<Seq<char>>>(crate::titles::views(m@)),
        },
{
    let v = chars_of(raw);
    let ls = lines_chars(&v);
    let ghost lv = ls@.map_values(|l: Vec<char>| l@);
    let mut low: Option<u64> = None;
    let mut high: Option<u64> = None;
    let mut max: Option<u64> = None;
    let mut oom: Option<u64> = None;
    let mut oom_kill: Option<u64> = None;
    let mut oom_group_kill: Option<u64> = None;
    let mut i: usize = 0;
    while i < ls.len()
        invariant
            i <= ls@.len(),
            lv == ls@.map_values(|l: Vec<char>| l@),
            low == event_value(lv.take(i as int), "low"@),
            high == event_value(lv.take(i as int), "high"@),
            max == event_value(lv.take(i as int), "max"@),
            oom == event_value(lv.take(i as int), "oom"@),
            oom_kill == event_value(lv.take(i as int), "oom_kill"@),
            oom_group_kill == event_value(lv.take(i as int), "oom_group_kill"@),
        decreases ls@.len() - i,
    {
        let entry = event_entry_of(&ls[i]);
        proof {
            let t = lv.take(i as int + 1);
            assert(t.drop_last() =~= lv.take(i as int));
            assert(t.last() == ls@[i as int]@);
        }
        note_event(&mut low, &entry, "low");
        note_event(&mut high, &entry, "high");
        note_event(&mut max, &entry, "max");
        note_event(&mut oom, &entry, "oom");
        note_event(&mut oom_kill, &entry, "oom_kill");
        note_event(&mut oom_group_kill, &entry, "oom_group_kill");
        i = i + 1;
    }
    assert(lv.take(ls@.len() as int) =~= lv);
    assert(lines_of(raw@) == lv);
    let mut missing: Vec<String> = Vec::new();
    let ghost keys = event_keys();
    let ghost pred = |k: Seq<char>| event_value(lv, k) is None;
    if low.is_none() {
        missing.push(String::from_str("low"));
    }
    if high.is_none() {
        missing.push(String::from_str("high"));
    }
    if max.is_none() {
        missing.push(String::from_str("max"));
    }
    if oom.is_none() {
        missing.push(String::from_str("oom"));
    }
    if oom_kill.is_none() {
        missing.push(String::from_str("oom_kill"));
    }
    if oom_group_kill.is_none() {
        missing.push(String::from_str("oom_group_kill"));
    }
    proof {
        reveal_with_fuel(Seq::filter, 7);
        assert(keys.filter(pred) =~= crate::titles::views(missing@));
    }
    if missing.len() > 0 {
        return Err(missing);
    }
    Ok(CgroupMemoryEvents {
        low: low.unwrap(),
        high: high.unwrap(),
        max: max.unwrap(),
        oom: oom.unwrap(),
        oom_kill: oom_kill.unwrap(),
        oom_group_kill: oom_group_kill.unwrap(),
    })
}

/// The trimmed text of a cgroup file `name` under `dir`, or the message of
/// the failure to read it.
pub open spec fn cgroup_text(dir: Seq<char>, name: Seq<char>, read: Result<String, String>) -> Result<
    Seq<char>,
    Seq<char>,
> {
    match read {
        Ok(raw) => Ok(trim(raw@)),
        Err(e) => Err(read_failure_text(path_joined(dir, name), e@)),
    }
}

/// A cgroup counter and the errors reading it left.
pub open spec fn cgroup_counter(dir: Seq<char>, name: Seq<char>, read: Result<String, String>) -> (Option<u64>, Seq<Seq<char>>) {
    match cgroup_text(dir, name, read) {
        Ok(t) => match u64_value(t) {
            Some(v) => (Some(v), Seq::empty()),
            None => (None, seq!["invalid "@ + name + ": "@ + u64_parse_error_text(t)]),
        },
        Err(m) => (None, seq![m]),
    }
}

/// The memory limit (`None` with the flag when unlimited) and the errors
/// reading it left.
pub open spec fn cgroup_limit(dir: Seq<char>, read: Result<String, String>) -> (Option<u64>, bool, Seq<Seq<char>>) {
    match cgroup_text(dir, "memory.max"@, read) {
        Ok(t) => if t == "max"@ {
            (None, true, Seq::empty())
        } else {
            match u64_value(t) {
                Some(v) => (Some(v), false, Seq::empty()),
                None => (None, false, seq!["invalid memory.max: "@ + u64_parse_error_text(t)]),
            }
        },
        Err(m) => (None, false, seq![m]),
    }
}

/// The event counters and the errors reading them left.
pub open spec fn cgroup_events(dir: Seq<char>, read: Result<String, String>) -> (Option<CgroupMemoryEvents>, Seq<Seq<char>>) {
    match cgroup_text(dir, "memory.events"@, read) {
        Ok(t) => match events_view(t) {
            Ok(e) => (Some(e), Seq::empty()),
            Err(missing) => (None, seq!["memory.events missing "@ + crate::catchup::joined(missing, ", "@)]),
        },
        Err(m) => (None, seq![m]),
    }
}

/// The texts a cgroup's memory files, read under `dir`, gave.
pub struct CgroupReads {
    pub current: Result<String, String>,
    pub peak: Result<String, String>,
    pub max: Result<String, String>,
    pub events: Result<String, String>,
}

/// The cgroup memory snapshot the reads under `dir` give: each counter,
/// the limit, the events, and every error joined by `; `.
pub open spec fn cgroup_view(dir: Seq<char>, reads: CgroupReads) -> (
    Option<u64>,
    Option<u64>,
    Option<u64>,
    bool,
    Option<CgroupMemoryEvents>,
    Option<Seq<char>>,
) {
    let (current, e1) = cgroup_counter(dir, "memory.current"@, reads.current);
    let (peak, e2) = cgroup_counter(dir, "memory.peak"@, reads.peak);
    let (max, unlimited, e3) = cgroup_limit(dir, reads.max);
    let (events, e4) = cgroup_events(dir, reads.events);
    let errors = e1 + e2 + e3 + e4;
    (current, peak, max, unlimited, events, if errors.len() == 0 {
        None
    } else {
        Some(crate::catchup::joined(errors, "; "@))
    })
}

fn read_cgroup_text(dir: &str, name: &str, read: &Result<String, String>, errors: &mut Vec<String>) -> (r: Option<Vec<char>>)
    ensures
        match cgroup_text(dir@, name@, *read) {
            Ok(t) => r matches Some(v) && v@ == t && final(errors)@ == old(errors)@,
            Err(m) => r is None && crate::titles::views(final(errors)@) == crate::titles::views(old(errors)@).push(m),
        },
{
    match read {
        Ok(raw) => {
            let v = chars_of(raw.as_str());
            Some(trim_chars(&v))
        },
        Err(e) => {
            let path = join_path(dir, name);
            let ghost before = errors@;
            errors.push(read_failure(path.as_str(), e.as_str()));
            assert(crate::titles::views(errors@) =~= crate::titles::views(before).push(
                read_failure_text(path_joined(dir@, name@), e@)));
            None
        },
    }
}

fn push_error(errors: &mut Vec<String>, text: Vec<char>)
    ensures
        crate::titles::views(final(errors)@) == crate::titles::views(old(errors)@).push(text@),
{
    let ghost before = errors@;
    errors.push(string_of(&text));
    assert(crate::titles::views(errors@) =~= crate::titles::views(before).push(text@));
}

fn read_cgroup_u64(dir: &str, name: &str, read: &Result<String, String>, errors: &mut Vec<String>) -> (r: Option<u64>)
    ensures
        r == cgroup_counter(dir@, name@, *read).0,
        crate::titles::views(final(errors)@) == crate::titles::views(old(errors)@) + cgroup_counter(dir@,
            name@, *read).1,
{
    let ghost before = crate::titles::views(errors@);
    match read_cgroup_text(dir, name, read, errors) {
        Some(t) => match parse_u64_text(&t) {
            Some(v) => {
                assert(before + Seq::<Seq<char>>::empty() =~= before);
                Some(v)
            },
            None => {
                let text = string_of(&t);
                let reason = u64_parse_error(text.as_str());
                let mut m: Vec<char> = Vec::new();
                push_str(&mut m, "invalid ");
                push_str(&mut m, name);
                push_str(&mut m, ": ");
                push_str(&mut m, reason.as_str());
                push_error(errors, m);
                assert(before.push(m@) =~= before + seq![m@]);
                None
            },
        },
        None => {
            assert(before.push(cgroup_counter(dir@, name@, *read).1[0]) =~= before + cgroup_counter(dir@, name@, *read).1);
            None
        },
    }
}

/// The cgroup memory snapshot the reads of its files under `dir` give.
#[verifier::rlimit(60)]
pub fn sample_cgroup_memory(dir: &str, reads: &CgroupReads) -> (r: CgroupMemorySnapshot)
    ensures
        (r.current_bytes, r.peak_bytes, r.max_bytes, r.max_is_unlimited, r.events, crate::cli::opt_text(r.error))
            == cgroup_view(dir@, *reads),
{
    let mut errors: Vec<String> = Vec::new();
    let current_bytes = read_cgroup_u64(dir, "memory.current", &reads.current, &mut errors);
    let peak_bytes = read_cgroup_u64(dir, "memory.peak", &reads.peak, &mut errors);
    let ghost e12 = crate::titles::views(errors@);
    let (max_bytes, max_is_unlimited) = match read_cgroup_text(dir, "memory.max", &reads.max, &mut errors) {
        Some(t) => {
            let mx = chars_of("max");
            if crate::text::chars_eq(&t, &mx) {
                assert(e12 + Seq::<Seq<char>>::empty() =~= e12);
                (None, true)
            } else {
                match parse_u64_text(&t) {
                    Some(v) => {
                        assert(e12 + Seq::<Seq<char>>::empty() =~= e12);
                        (Some(v), false)
                    },
                    None => {
                        let text = string_of(&t);
                        let reason = u64_parse_error(text.as_str());
                        let mut m: Vec<char> = Vec::new();
                        push_str(&mut m, "invalid memory.max: ");
                        push_str(&mut m, reason.as_str());
                        push_error(&mut errors, m);
                        assert(e12.push(m@) =~= e12 + seq![m@]);
                        (None, false)
                    },
                }
            }
        },
        None => {
            assert(e12.push(cgroup_limit(dir@, reads.max).2[0]) =~= e12 + cgroup_limit(dir@, reads.max).2);
            (None, false)
        },
    };
    let ghost e123 = crate::titles::views(errors@);
    let events = match read_cgroup_text(dir, "memory.events", &reads.events, &mut errors) {
        Some(t) => {
            let text = string_of(&t);
            match parse_cgroup_events(text.as_str()) {
                Ok(e) => {
                    assert(e123 + Seq::<Seq<char>>::empty() =~= e123);
                    Some(e)
                },
                Err(missing) => {
                    let mut m: Vec<char> = Vec::new();
                    push_str(&mut m, "memory.events missing ");
                    crate::catchup::push_joined(&mut m, &missing, ", ");
                    push_error(&mut errors, m);
                    assert(e123.push(m@) =~= e123 + seq![m@]);
                    None
                },
            }
        },
        None => {
            assert(e123.push(cgroup_events(dir@, reads.events).1[0]) =~= e123 + cgroup_events(dir@, reads.events).1);
            None
        },
    };
    let error = if errors.len() == 0 {
        None
    } else {
        let mut out: Vec<char> = Vec::new();
        crate::catchup::push_joined(&mut out, &errors, "; ");
        Some(string_of(&out))
    };
    CgroupMemorySnapshot { current_bytes, peak_bytes, max_bytes, max_is_unlimited, events, error }
}

} // verus!
