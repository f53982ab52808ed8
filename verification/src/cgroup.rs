//! Per-service cgroup accounting computed from the contents of cgroup v2
//! files.
//!
//! Seven `ServiceStats` fields describe a service's cgroup, and each one is a
//! plain cgroup v2 file the kernel exposes: `cpu.stat` (`usage_usec`, turned
//! into nanoseconds), `memory.current`, `pids.current`, `io.stat` (`rbytes`
//! and `rios` summed over devices), the `cgroup.procs` files of the subtree
//! (the process count, with the main and control PIDs folded in), and
//! `memory.max` / `memory.high` / `memory.current` of every ancestor slice
//! for `memory_available`.
//!
//! `memory_available` follows systemd's `unit_get_memory_available()`: at
//! every level from the unit up to the mount root that sets a limit, take
//! `min(memory.max, memory.high) - memory.current` (saturating), keep the
//! minimum, and bound it by the host root level (`MemTotal` minus the host
//! used bytes, i.e. `MemAvailable`).
//!
//! Reading the files is left to the caller; this module turns their
//! contents into numbers. Every field is an `Option`: `None` means the file
//! was absent or did not parse, and callers map it to `u64::MAX`, the
//! `[not set]` sentinel D-Bus uses. `processes` is a plain count.
use vstd::prelude::*;

use crate::text::{
    find_char, has_prefix, lemma_find_first, next_word, parse_u32_range, parse_u32_spec, line_ranges, lines, parse_u64_range, parse_u64_spec, range_eq_str,
    push_str, range_has_prefix, split_once, str_chars, str_eq, string_of, trim, trim_range, word_ranges, words,
};

verus! {

/// Accounting values for one service's cgroup.
#[derive(Clone, Debug, PartialEq, Eq)]
pub struct CgroupStats {
    /// `cpu.stat` `usage_usec` times 1000.
    pub cpu_usage_nsec: Option<u64>,
    /// `memory.current` verbatim.
    pub memory_current: Option<u64>,
    /// The minimum over the unit's ancestor slices and the host root level.
    pub memory_available: Option<u64>,
    /// `pids.current` verbatim.
    pub tasks_current: Option<u64>,
    /// Distinct PIDs of the subtree plus the main and control PIDs.
    pub processes: u32,
    /// `io.stat` `rbytes` summed over all devices.
    pub io_read_bytes: Option<u64>,
    /// `io.stat` `rios` summed over all devices.
    pub io_read_operations: Option<u64>,
}

impl Default for CgroupStats {
    fn default() -> (r: Self)
        ensures
            r.cpu_usage_nsec is None,
            r.memory_current is None,
            r.memory_available is None,
            r.tasks_current is None,
            r.processes == 0,
            r.io_read_bytes is None,
            r.io_read_operations is None,
    {
        CgroupStats {
            cpu_usage_nsec: None,
            memory_current: None,
            memory_available: None,
            tasks_current: None,
            processes: 0,
            io_read_bytes: None,
            io_read_operations: None,
        }
    }
}

/// Host-wide memory numbers: `(MemTotal, host used bytes)` in bytes.
pub type HostMemory = (u64, u64);

/// One level of the `memory_available` walk: the level's limit
/// (`min(memory.max, memory.high)`, `None` when both are unlimited) and its
/// `memory.current` (`None` when unreadable).
#[derive(Clone, Copy, Debug, PartialEq, Eq)]
pub struct MemoryLevel {
    pub limit: Option<u64>,
    pub current: Option<u64>,
}

pub open spec fn sat_sub(a: u64, b: u64) -> u64 {
    if a >= b {
        (a - b) as u64
    } else {
        0
    }
}

pub open spec fn sat_add(a: u64, b: u64) -> u64 {
    if a + b <= u64::MAX {
        (a + b) as u64
    } else {
        u64::MAX
    }
}

pub open spec fn min_u64(a: u64, b: u64) -> u64 {
    if a <= b {
        a
    } else {
        b
    }
}

/// A plain `u64` attribute file: the trimmed contents parsed as a `u64`.
pub open spec fn spec_parse_u64_file(c: Seq<char>) -> Option<u64> {
    parse_u64_spec(trim(c))
}

/// A memory limit file: `"max"` (unlimited) and unparsable contents are
/// `None`.
pub open spec fn spec_parse_memory_limit(c: Seq<char>) -> Option<u64> {
    if trim(c) == "max"@ {
        None
    } else {
        parse_u64_spec(trim(c))
    }
}

/// The value of the first line that starts with `prefix`, trimmed and parsed.
pub open spec fn keyed_in_lines(ls: Seq<Seq<char>>, prefix: Seq<char>) -> Option<u64>
    decreases ls.len(),
{
    if ls.len() == 0 {
        None
    } else if has_prefix(ls[0], prefix) {
        parse_u64_spec(trim(ls[0].skip(prefix.len() as int)))
    } else {
        keyed_in_lines(ls.drop_first(), prefix)
    }
}

/// A `key value` field of a space separated keyed file.
pub open spec fn spec_keyed_u64(c: Seq<char>, key: Seq<char>) -> Option<u64> {
    keyed_in_lines(lines(c), key.push(' '))
}

/// `cpu.stat` `usage_usec` in nanoseconds; `None` when it would overflow.
pub open spec fn spec_parse_cpu_stat(c: Seq<char>) -> Option<u64> {
    match spec_keyed_u64(c, "usage_usec"@) {
        Some(us) => if us * 1000 <= u64::MAX {
            Some((us * 1000) as u64)
        } else {
            None
        },
        None => None,
    }
}

/// One `key=value` token of an `io.stat` line added into `(rbytes, rios)`.
pub open spec fn io_token(acc: (u64, u64), w: Seq<char>) -> (u64, u64) {
    match split_once(w, '=') {
        None => acc,
        Some((k, val)) => match parse_u64_spec(val) {
            None => acc,
            Some(n) => if k == "rbytes"@ {
                (sat_add(acc.0, n), acc.1)
            } else if k == "rios"@ {
                (acc.0, sat_add(acc.1, n))
            } else {
                acc
            },
        },
    }
}

pub open spec fn io_tokens(acc: (u64, u64), ws: Seq<Seq<char>>) -> (u64, u64)
    decreases ws.len(),
{
    if ws.len() == 0 {
        acc
    } else {
        io_tokens(io_token(acc, ws[0]), ws.drop_first())
    }
}

/// The tokens of an `io.stat` line after the leading `major:minor`.
pub open spec fn io_line_tokens(l: Seq<char>) -> Seq<Seq<char>> {
    let ws = words(l);
    if ws.len() == 0 {
        ws
    } else {
        ws.drop_first()
    }
}

pub open spec fn io_lines(acc: (u64, u64), ls: Seq<Seq<char>>) -> (u64, u64)
    decreases ls.len(),
{
    if ls.len() == 0 {
        acc
    } else {
        io_lines(io_tokens(acc, io_line_tokens(ls[0])), ls.drop_first())
    }
}

/// `io.stat`: `rbytes` and `rios` summed (saturating) over every device line.
pub open spec fn spec_parse_io_stat(c: Seq<char>) -> (u64, u64) {
    io_lines((0, 0), lines(c))
}

/// The `memory.current` that level `i` of the walk reads: level 0 prefers the
/// unit's own fresh read.
pub open spec fn level_current(levels: Seq<MemoryLevel>, i: int, unit_current: Option<u64>) -> Option<
    u64,
> {
    if i == 0 {
        match unit_current {
            Some(c) => Some(c),
            None => levels[0].current,
        }
    } else {
        levels[i].current
    }
}

/// The current that binds at level `i`: the nearest readable one at or
/// below it (systemd propagates a deeper current as a lower bound).
pub open spec fn effective_current(levels: Seq<MemoryLevel>, i: int, unit_current: Option<u64>) -> Option<
    u64,
>
    decreases i + 1,
{
    if i < 0 {
        None
    } else {
        match level_current(levels, i, unit_current) {
            Some(c) => Some(c),
            None => effective_current(levels, i - 1, unit_current),
        }
    }
}

/// What level `i` allows: its limit less the binding current, or no bound.
pub open spec fn level_bound(levels: Seq<MemoryLevel>, i: int, unit_current: Option<u64>) -> u64 {
    match levels[i].limit {
        None => u64::MAX,
        Some(limit) => match effective_current(levels, i, unit_current) {
            Some(c) => sat_sub(limit, c),
            None => limit,
        },
    }
}

/// The minimum bound over the first `n` levels.
pub open spec fn levels_bound(levels: Seq<MemoryLevel>, n: int, unit_current: Option<u64>) -> u64
    decreases n,
{
    if n <= 0 {
        u64::MAX
    } else {
        min_u64(levels_bound(levels, n - 1, unit_current), level_bound(levels, n - 1, unit_current))
    }
}

/// `memory_available`: the minimum over the levels and the root level,
/// `None` only when nothing bounded it at all.
pub open spec fn spec_fold_memory_available(
    levels: Seq<MemoryLevel>,
    root: (u64, u64),
    unit_current: Option<u64>,
) -> Option<u64> {
    let a = min_u64(levels_bound(levels, levels.len() as int, unit_current), sat_sub(root.0, root.1));
    if a == u64::MAX {
        None
    } else {
        Some(a)
    }
}


pub open spec fn times_1024(v: u64) -> Option<u64> {
    if v * 1024 <= u64::MAX {
        Some((v * 1024) as u64)
    } else {
        None
    }
}

/// The first whitespace separated word of `s`, or the empty string.
pub open spec fn first_word(s: Seq<char>) -> Seq<char> {
    let ws = words(s);
    if ws.len() > 0 {
        ws[0]
    } else {
        Seq::empty()
    }
}

/// One `/proc/meminfo` line applied to `(MemTotal, MemAvailable)` in bytes.
pub open spec fn meminfo_line(l: Seq<char>, st: (Option<u64>, Option<u64>)) -> (
    Option<u64>,
    Option<u64>,
) {
    match split_once(l, ':') {
        None => st,
        Some((k, rest)) => match parse_u64_spec(first_word(rest)) {
            None => st,
            Some(value) => if k == "MemTotal"@ {
                (times_1024(value), st.1)
            } else if k == "MemAvailable"@ {
                (st.0, times_1024(value))
            } else {
                st
            },
        },
    }
}

/// The lines are read until both numbers are known.
pub open spec fn meminfo_lines(ls: Seq<Seq<char>>, st: (Option<u64>, Option<u64>)) -> (
    Option<u64>,
    Option<u64>,
)
    decreases ls.len(),
{
    if ls.len() == 0 || (st.0 is Some && st.1 is Some) {
        st
    } else {
        meminfo_lines(ls.drop_first(), meminfo_line(ls[0], st))
    }
}

/// `/proc/meminfo` as `(MemTotal, MemTotal - MemAvailable)` in bytes.
pub open spec fn spec_parse_meminfo(c: Seq<char>) -> Option<HostMemory> {
    match meminfo_lines(lines(c), (None, None)) {
        (Some(total), Some(available)) => Some((total, sat_sub(total, available))),
        _ => None,
    }
}

/// `min(memory.max, memory.high)` where an unlimited or unreadable file
/// counts as infinity.
pub open spec fn combine_limits(max: Option<u64>, high: Option<u64>) -> Option<u64> {
    match (max, high) {
        (Some(m), Some(h)) => Some(min_u64(m, h)),
        (Some(m), None) => Some(m),
        (None, Some(h)) => Some(h),
        (None, None) => None,
    }
}

pub open spec fn opt_limit(c: Option<String>) -> Option<u64> {
    match c {
        Some(s) => spec_parse_memory_limit(s@),
        None => None,
    }
}

pub open spec fn opt_u64_file(c: Option<String>) -> Option<u64> {
    match c {
        Some(s) => spec_parse_u64_file(s@),
        None => None,
    }
}

/// The PIDs listed in one `cgroup.procs` file: its lines that parse as `u32`.
pub open spec fn file_pids(c: Seq<char>) -> Set<u32> {
    Set::new(|p: u32| exists|i: int| 0 <= i < lines(c).len() && parse_u32_spec(#[trigger] lines(c)[i]) == Some(p))
}

/// The PIDs listed in the first `n` files.
pub open spec fn files_pids(files: Seq<String>, n: int) -> Set<u32>
    decreases n,
{
    if n <= 0 {
        Set::empty()
    } else {
        files_pids(files, n - 1).union(file_pids(files[n - 1]@))
    }
}

/// Every distinct PID of the subtree's `cgroup.procs` files and the extra
/// (main and control) PIDs.
pub open spec fn all_pids(files: Seq<String>, extra: Seq<u32>) -> Set<u32> {
    files_pids(files, files.len() as int).union(extra.to_set())
}

proof fn lemma_levels_bound_decreasing(
    levels: Seq<MemoryLevel>,
    m: int,
    n: int,
    unit_current: Option<u64>,
)
    requires
        0 <= m <= n,
    ensures
        levels_bound(levels, n, unit_current) <= levels_bound(levels, m, unit_current),
    decreases n - m,
{
    if m < n {
        lemma_levels_bound_decreasing(levels, m, n - 1, unit_current);
    }
}

/// Parse a plain `u64` attribute file (`memory.current`, `pids.current`).
pub fn parse_u64(contents: &str) -> (r: Option<u64>)
    ensures
        r == spec_parse_u64_file(contents@),
{
    let v = str_chars(contents);
    let (a, b) = trim_range(&v, 0, v.len());
    proof {
        assert(v@.subrange(0, v@.len() as int) =~= v@);
    }
    parse_u64_range(&v, a, b)
}

/// Parse a memory limit file (`memory.max`, `memory.high`): `None` for
/// `max` (unlimited) and for unparsable contents.
pub fn parse_memory_limit(contents: &str) -> (r: Option<u64>)
    ensures
        r == spec_parse_memory_limit(contents@),
{
    let v = str_chars(contents);
    let (a, b) = trim_range(&v, 0, v.len());
    proof {
        assert(v@.subrange(0, v@.len() as int) =~= v@);
    }
    if range_eq_str(&v, a, b, "max") {
        return None;
    }
    parse_u64_range(&v, a, b)
}

/// Extract a `key value` field from a space separated keyed file such as
/// `cpu.stat`: the first line that starts with `key` and a space.
pub fn keyed_u64(contents: &str, key: &str) -> (r: Option<u64>)
    ensures
        r == spec_keyed_u64(contents@, key@),
{
    let v = str_chars(contents);
    let mut p = str_chars(key);
    p.push(' ');
    let ranges = line_ranges(&v);
    let ghost ls = lines(v@);
    let mut i: usize = 0;
    proof {
        assert(ls.skip(0) =~= ls);
    }
    while i < ranges.len()
        invariant
            0 <= i <= ranges@.len(),
            ls == lines(v@),
            v@ == contents@,
            p@ == key@.push(' '),
            ranges@.len() == ls.len(),
            forall|k: int| #![trigger ranges@[k]]
                0 <= k < ranges@.len() ==> ranges@[k].0 <= ranges@[k].1 <= v.len()
                    && v@.subrange(ranges@[k].0 as int, ranges@[k].1 as int) == ls[k],
            keyed_in_lines(ls, p@) == keyed_in_lines(ls.skip(i as int), p@),
        decreases ranges@.len() - i,
    {
        let (a, b) = ranges[i];
        proof {
            assert(ls.skip(i as int)[0] == ls[i as int]);
            assert(ls.skip(i as int).drop_first() =~= ls.skip(i + 1));
        }
        if range_has_prefix(&v, a, b, &p) {
            let (x, y) = trim_range(&v, a + p.len(), b);
            proof {
                assert(ls[i as int] == v@.subrange(a as int, b as int));
                assert(ls[i as int].skip(p@.len() as int) =~= v@.subrange(a + p@.len(), b as int));
                assert(keyed_in_lines(ls.skip(i as int), p@) == parse_u64_spec(
                    trim(ls[i as int].skip(p@.len() as int)),
                ));
            }
            let r = parse_u64_range(&v, x, y);
            proof {
                assert(v@ == contents@);
                assert(lines(contents@) == ls);
                assert(keyed_in_lines(ls, p@) == parse_u64_spec(trim(ls[i as int].skip(p@.len() as int))));
                assert(r == parse_u64_spec(trim(ls[i as int].skip(p@.len() as int))));
            }
            return r;
        }
        i += 1;
    }
    None
}

/// `cpu.stat` `usage_usec`, converted to nanoseconds; `None` when the key
/// is missing, unparsable, or the product overflows.
pub fn parse_cpu_stat(contents: &str) -> (r: Option<u64>)
    ensures
        r == spec_parse_cpu_stat(contents@),
{
    proof {
        reveal_strlit("usage_usec");
    }
    match keyed_u64(contents, "usage_usec") {
        Some(us) => us.checked_mul(1000),
        None => None,
    }
}

/// Add the `rbytes=` / `rios=` tokens of one `io.stat` line `v[a..b]`
/// (after its leading `major:minor` token) into `acc`.
fn io_line_add(v: &Vec<char>, a: usize, b: usize, acc: (u64, u64)) -> (r: (u64, u64))
    requires
        a <= b <= v.len(),
    ensures
        r == io_tokens(acc, io_line_tokens(v@.subrange(a as int, b as int))),
{
    let ws = word_ranges(v, a, b);
    let ghost all = words(v@.subrange(a as int, b as int));
    let ghost toks = io_line_tokens(v@.subrange(a as int, b as int));
    let (mut bytes, mut operations) = acc;
    if ws.len() == 0 {
        return acc;
    }
    proof {
        assert(toks =~= all.skip(1));
        reveal_strlit("rbytes");
        reveal_strlit("rios");
    }
    let mut j: usize = 1;
    while j < ws.len()
        invariant
            1 <= j <= ws@.len(),
            a <= b <= v.len(),
            all == words(v@.subrange(a as int, b as int)),
            toks == all.skip(1),
            ws@.len() == all.len(),
            forall|k: int| #![trigger ws@[k]]
                0 <= k < ws@.len() ==> a <= ws@[k].0 <= ws@[k].1 <= b && v@.subrange(
                    ws@[k].0 as int,
                    ws@[k].1 as int,
                ) == all[k],
            io_tokens(acc, toks) == io_tokens((bytes, operations), all.skip(j as int)),
            "rbytes"@ == seq!['r', 'b', 'y', 't', 'e', 's'],
            "rios"@ == seq!['r', 'i', 'o', 's'],
        decreases ws@.len() - j,
    {
        let (x, y) = ws[j];
        let ghost w = v@.subrange(x as int, y as int);
        let ghost before = (bytes, operations);
        proof {
            assert(all.skip(j as int)[0] == all[j as int]);
            assert(all.skip(j as int).drop_first() =~= all.skip(j + 1));
            assert(w == all[j as int]);
        }
        match find_char(v, x, y, '=') {
            None => {
                assert(split_once(w, '=') is None);
            },
            Some(e) => {
                proof {
                    lemma_find_first(w, '=');
                    assert(w.take(e - x) =~= v@.subrange(x as int, e as int));
                    assert(w.skip(e - x + 1) =~= v@.subrange(e + 1, y as int));
                    assert(split_once(w, '=') == Some((v@.subrange(x as int, e as int), v@.subrange(e + 1, y as int))));
                }
                match parse_u64_range(v, e + 1, y) {
                    None => {},
                    Some(n) => {
                        if range_eq_str(v, x, e, "rbytes") {
                            bytes = bytes.saturating_add(n);
                            assert(bytes == sat_add(before.0, n));
                        } else if range_eq_str(v, x, e, "rios") {
                            operations = operations.saturating_add(n);
                            assert(operations == sat_add(before.1, n));
                        }
                    },
                }
            },
        }
        proof {
            assert((bytes, operations) == io_token(before, w));
        }
        j += 1;
    }
    proof {
        assert(all.skip(ws@.len() as int) =~= Seq::<Seq<char>>::empty());
    }
    (bytes, operations)
}

/// Sum `rbytes=` and `rios=` over every device line of `io.stat`; the
/// leading `major:minor` token of each line is skipped and malformed tokens
/// are ignored.
pub fn parse_io_stat(contents: &str) -> (r: (u64, u64))
    ensures
        r == spec_parse_io_stat(contents@),
{
    let v = str_chars(contents);
    let ranges = line_ranges(&v);
    let ghost ls = lines(v@);
    let mut acc: (u64, u64) = (0, 0);
    let mut i: usize = 0;
    proof {
        assert(ls.skip(0) =~= ls);
    }
    while i < ranges.len()
        invariant
            0 <= i <= ranges@.len(),
            ls == lines(v@),
            ranges@.len() == ls.len(),
            forall|k: int| #![trigger ranges@[k]]
                0 <= k < ranges@.len() ==> ranges@[k].0 <= ranges@[k].1 <= v.len()
                    && v@.subrange(ranges@[k].0 as int, ranges@[k].1 as int) == ls[k],
            io_lines((0, 0), ls) == io_lines(acc, ls.skip(i as int)),
        decreases ranges@.len() - i,
    {
        let (a, b) = ranges[i];
        proof {
            assert(ls.skip(i as int)[0] == ls[i as int]);
            assert(ls.skip(i as int).drop_first() =~= ls.skip(i + 1));
        }
        acc = io_line_add(&v, a, b, acc);
        i += 1;
    }
    proof {
        assert(ls.skip(ranges@.len() as int) =~= Seq::<Seq<char>>::empty());
    }
    acc
}


/// Parse `/proc/meminfo` into `(MemTotal, host used bytes)` in bytes, the
/// used bytes being `MemTotal - MemAvailable` (saturating). Lines that do not
/// parse are skipped; reading stops once both numbers are known.
pub fn parse_meminfo(contents: &str) -> (r: Option<HostMemory>)
    ensures
        r == spec_parse_meminfo(contents@),
{
    let v = str_chars(contents);
    let ranges = line_ranges(&v);
    let ghost ls = lines(v@);
    let mut total: Option<u64> = None;
    let mut available: Option<u64> = None;
    let mut i: usize = 0;
    proof {
        assert(ls.skip(0) =~= ls);
        reveal_strlit("MemTotal");
        reveal_strlit("MemAvailable");
    }
    while i < ranges.len() && !(total.is_some() && available.is_some())
        invariant
            0 <= i <= ranges@.len(),
            ls == lines(v@),
            v@ == contents@,
            ranges@.len() == ls.len(),
            forall|k: int| #![trigger ranges@[k]]
                0 <= k < ranges@.len() ==> ranges@[k].0 <= ranges@[k].1 <= v.len()
                    && v@.subrange(ranges@[k].0 as int, ranges@[k].1 as int) == ls[k],
            meminfo_lines(ls, (None, None)) == meminfo_lines(ls.skip(i as int), (total, available)),
        decreases ranges@.len() - i,
    {
        let (a, b) = ranges[i];
        let ghost l = v@.subrange(a as int, b as int);
        let ghost before = (total, available);
        proof {
            assert(ls.skip(i as int)[0] == ls[i as int]);
            assert(ls.skip(i as int).drop_first() =~= ls.skip(i + 1));
        }
        match find_char(&v, a, b, ':') {
            None => {},
            Some(e) => {
                proof {
                    lemma_find_first(l, ':');
                    assert(l.take(e - a) =~= v@.subrange(a as int, e as int));
                    assert(l.skip(e - a + 1) =~= v@.subrange(e + 1, b as int));
                }
                let value = match next_word(&v, e + 1, b) {
                    Some((x, y)) => parse_u64_range(&v, x, y),
                    None => {
                        proof {
                            assert(v@.subrange(0, 0) =~= Seq::<char>::empty());
                        }
                        parse_u64_range(&v, 0, 0)
                    },
                };
                match value {
                    None => {},
                    Some(value) => {
                        if range_eq_str(&v, a, e, "MemTotal") {
                            total = value.checked_mul(1024);
                        } else if range_eq_str(&v, a, e, "MemAvailable") {
                            available = value.checked_mul(1024);
                        }
                    },
                }
            },
        }
        proof {
            assert((total, available) == meminfo_line(l, before));
        }
        i += 1;
    }
    proof {
        if i == ranges@.len() {
            assert(ls.skip(i as int) =~= Seq::<Seq<char>>::empty());
        }
    }
    match (total, available) {
        (Some(total), Some(available)) => Some((total, total.saturating_sub(available))),
        _ => None,
    }
}

/// One level of the `memory_available` walk from the contents of its
/// `memory.max`, `memory.high` and `memory.current` files (`None` for a file
/// that could not be read).
pub fn memory_level(max: &Option<String>, high: &Option<String>, current: &Option<String>) -> (r:
    MemoryLevel)
    ensures
        r.limit == combine_limits(opt_limit(*max), opt_limit(*high)),
        r.current == opt_u64_file(*current),
{
    let max_limit = match max {
        Some(s) => parse_memory_limit(s.as_str()),
        None => None,
    };
    let high_limit = match high {
        Some(s) => parse_memory_limit(s.as_str()),
        None => None,
    };
    let limit = match (max_limit, high_limit) {
        (Some(m), Some(h)) => Some(if m <= h { m } else { h }),
        (Some(m), None) => Some(m),
        (None, Some(h)) => Some(h),
        (None, None) => None,
    };
    let current = match current {
        Some(s) => parse_u64(s.as_str()),
        None => None,
    };
    MemoryLevel { limit, current }
}

/// The number of distinct processes of a cgroup subtree: every line of its
/// `cgroup.procs` files that parses as a PID, plus the main and control
/// PIDs, which can sit outside the cgroup.
pub fn count_processes(procs_files: &Vec<String>, extra_pids: &Vec<u32>) -> (r: u32)
    ensures
        r == all_pids(procs_files@, extra_pids@).len() as u32,
{
    broadcast use vstd::std_specs::hash::group_hash_axioms;
    let mut pids: std::collections::HashSet<u32> = std::collections::HashSet::new();
    let mut f: usize = 0;
    while f < procs_files.len()
        invariant
            0 <= f <= procs_files@.len(),
            pids@ == files_pids(procs_files@, f as int),
        decreases procs_files@.len() - f,
    {
        let v = str_chars(procs_files[f].as_str());
        let ranges = line_ranges(&v);
        let ghost ls = lines(v@);
        let ghost base = pids@;
        let mut i: usize = 0;
        while i < ranges.len()
            invariant
                0 <= i <= ranges@.len(),
                ls == lines(v@),
                ranges@.len() == ls.len(),
                forall|k: int| #![trigger ranges@[k]]
                    0 <= k < ranges@.len() ==> ranges@[k].0 <= ranges@[k].1 <= v.len()
                        && v@.subrange(ranges@[k].0 as int, ranges@[k].1 as int) == ls[k],
                pids@ == base.union(
                    Set::new(
                        |p: u32|
                            exists|k: int| 0 <= k < i && parse_u32_spec(#[trigger] ls[k]) == Some(p),
                    ),
                ),
            decreases ranges@.len() - i,
        {
            let (a, b) = ranges[i];
            let ghost old_pids = pids@;
            match parse_u32_range(&v, a, b) {
                Some(p) => {
                    pids.insert(p);
                },
                None => {},
            }
            proof {
                assert(pids@ =~= base.union(
                    Set::new(
                        |p: u32|
                            exists|k: int| 0 <= k < i + 1 && parse_u32_spec(#[trigger] ls[k]) == Some(p),
                    ),
                )) by {
                    assert forall|p: u32| old_pids.contains(p) || (parse_u32_spec(ls[i as int]) == Some(p)) <==> base.contains(p) || exists|k: int| 0 <= k < i + 1 && parse_u32_spec(#[trigger] ls[k]) == Some(p) by {
                        if exists|k: int| 0 <= k < i + 1 && parse_u32_spec(#[trigger] ls[k]) == Some(p) {
                            let k = choose|k: int| 0 <= k < i + 1 && parse_u32_spec(#[trigger] ls[k]) == Some(p);
                            if k < i {
                                assert(old_pids.contains(p));
                            }
                        }
                    }
                }
            }
            i += 1;
        }
        proof {
            assert(v@ == procs_files@[f as int]@);
            assert(pids@ =~= files_pids(procs_files@, f + 1));
        }
        f += 1;
    }
    let mut e: usize = 0;
    let ghost base = pids@;
    while e < extra_pids.len()
        invariant
            0 <= e <= extra_pids@.len(),
            base == files_pids(procs_files@, procs_files@.len() as int),
            pids@ == base.union(extra_pids@.take(e as int).to_set()),
        decreases extra_pids@.len() - e,
    {
        pids.insert(extra_pids[e]);
        proof {
            assert(extra_pids@.take(e + 1) =~= extra_pids@.take(e as int).push(extra_pids@[e as int]));
            vstd::seq_lib::lemma_seq_contains_after_push(extra_pids@.take(e as int), extra_pids@[e as int], extra_pids@[e as int]);
            assert(pids@ =~= base.union(extra_pids@.take(e + 1).to_set()));
        }
        e += 1;
    }
    proof {
        assert(extra_pids@.take(extra_pids@.len() as int) =~= extra_pids@);
    }
    pids.len() as u32
}

/// The `memory_available` fold over the ancestor levels (the unit's own
/// level first) and the always-constrained host root level `(MemTotal,
/// host used bytes)`. `unit_current` is the unit's own fresh
/// `memory.current`, which takes precedence over level 0's stored one.
pub fn fold_memory_available(levels: &Vec<MemoryLevel>, root: (u64, u64), unit_current: Option<
    u64,
>) -> (r: Option<u64>)
    ensures
        r == spec_fold_memory_available(levels@, root, unit_current),
{
    let mut available: u64 = u64::MAX;
    let mut current_fallback: Option<u64> = None;
    let mut index: usize = 0;
    while index < levels.len() && available != 0
        invariant
            0 <= index <= levels@.len(),
            available == levels_bound(levels@, index as int, unit_current),
            current_fallback == effective_current(levels@, index - 1, unit_current),
        decreases levels@.len() - index,
    {
        let level = levels[index];
        let current = if index == 0 {
            match unit_current {
                Some(c) => Some(c),
                None => level.current,
            }
        } else {
            level.current
        };
        if let Some(c) = current {
            current_fallback = Some(c);
        }
        match level.limit {
            None => {},
            Some(limit) => {
                let bound = match current_fallback {
                    Some(c) => limit.saturating_sub(c),
                    None => limit,
                };
                if bound < available {
                    available = bound;
                }
            },
        }
        index += 1;
    }
    proof {
        lemma_levels_bound_decreasing(levels@, index as int, levels@.len() as int, unit_current);
    }
    let (root_limit, root_current) = root;
    let root_bound = root_limit.saturating_sub(root_current);
    if root_bound < available {
        available = root_bound;
    }
    if available != u64::MAX {
        Some(available)
    } else {
        None
    }
}

/// The contents of one service's cgroup files, as read by the caller:
/// `None` for a file that is absent or unreadable.
#[derive(Clone, Debug)]
pub struct CgroupFiles {
    pub cpu_stat: Option<String>,
    pub memory_current: Option<String>,
    pub pids_current: Option<String>,
    pub io_stat: Option<String>,
    /// The process count of the subtree (see `count_processes`).
    pub processes: u32,
    /// The `memory_available` walk from the unit's own level upwards.
    pub levels: Vec<MemoryLevel>,
}

pub open spec fn opt_cpu_stat(c: Option<String>) -> Option<u64> {
    match c {
        Some(s) => spec_parse_cpu_stat(s@),
        None => None,
    }
}

/// The cgroup accounting of one service from its files, with `memory_available`
/// only bound when the unit's own level has a readable `memory.current`
/// and the host memory is known.
pub open spec fn spec_service_cgroup_stats(files: CgroupFiles, host_memory: Option<HostMemory>) -> CgroupStats {
    let memory_current = opt_u64_file(files.memory_current);
    let io = match files.io_stat {
        Some(c) => Some(spec_parse_io_stat(c@)),
        None => None,
    };
    CgroupStats {
        cpu_usage_nsec: opt_cpu_stat(files.cpu_stat),
        memory_current,
        memory_available: if files.levels.len() > 0 && files.levels@[0].current is Some
            && host_memory is Some {
            spec_fold_memory_available(files.levels@, host_memory.unwrap(), memory_current)
        } else {
            None
        },
        tasks_current: opt_u64_file(files.pids_current),
        processes: files.processes,
        io_read_bytes: match io {
            Some(p) => Some(p.0),
            None => None,
        },
        io_read_operations: match io {
            Some(p) => Some(p.1),
            None => None,
        },
    }
}

/// The cgroup directory of a unit below `fs_root`, or `None` for an empty or
/// root `cgroup_path` (an inactive unit has no cgroup, and walking the mount
/// root would count every process on the host).
pub fn cgroup_dir(fs_root: &str, cgroup_path: &str) -> (r: Option<String>)
    ensures
        (cgroup_path@.len() == 0 || cgroup_path@ == "/"@) ==> r is None,
        !(cgroup_path@.len() == 0 || cgroup_path@ == "/"@) ==> (r matches Some(d) && d@ == fs_root@
            + "/sys/fs/cgroup"@ + cgroup_path@),
{
    if cgroup_path.is_empty() || str_eq(cgroup_path, "/") {
        return None;
    }
    let mut dir = string_of(fs_root);
    push_str(&mut dir, "/sys/fs/cgroup");
    push_str(&mut dir, cgroup_path);
    Some(dir)
}

/// Accounting for one service from the contents of its cgroup files.
pub fn service_cgroup_stats(files: &CgroupFiles, host_memory: Option<HostMemory>) -> (r: CgroupStats)
    ensures
        r == spec_service_cgroup_stats(*files, host_memory),
{
    let cpu_usage_nsec = match &files.cpu_stat {
        Some(c) => parse_cpu_stat(c.as_str()),
        None => None,
    };
    let memory_current = match &files.memory_current {
        Some(c) => parse_u64(c.as_str()),
        None => None,
    };
    let tasks_current = match &files.pids_current {
        Some(c) => parse_u64(c.as_str()),
        None => None,
    };
    let (io_read_bytes, io_read_operations) = match &files.io_stat {
        Some(c) => {
            let (bytes, ops) = parse_io_stat(c.as_str());
            (Some(bytes), Some(ops))
        },
        None => (None, None),
    };
    let memory_available = if files.levels.len() > 0 && files.levels[0].current.is_some() {
        match host_memory {
            Some(root) => fold_memory_available(&files.levels, root, memory_current),
            None => None,
        }
    } else {
        None
    };
    CgroupStats {
        cpu_usage_nsec,
        memory_current,
        memory_available,
        tasks_current,
        processes: files.processes,
        io_read_bytes,
        io_read_operations,
    }
}

} // verus!
