//! Host resource readings from `/proc`: memory and CPU counters.
use vstd::prelude::*;
use crate::text::{
    all_digits, cat3, chars_of, digits_value, lines, lines_of, owned, parse_u64, parse_u64_spec,
    parse_unsigned, starts_with, string_from, sub_vec, vec_eq_str, vec_starts_with, views, words,
    words_of, first_where, lemma_first_where_at, lemma_first_where_none,
};

verus! {

/// Memory figures from `/proc/meminfo`, in kB.
#[derive(Clone, Copy, Debug, PartialEq, Eq, Structural)]
pub struct MemInfo {
    pub mem_total_kb: u64,
    pub mem_available_kb: u64,
    pub mem_free_kb: u64,
    pub swap_total_kb: u64,
    pub swap_free_kb: u64,
}

/// Aggregate CPU time counters from `/proc/stat`.
#[derive(Clone, Copy, Debug, PartialEq, Eq, Structural)]
pub struct CpuCounters {
    pub idle: u64,
    pub total: u64,
}

/// `s` without trailing `:` characters.
pub open spec fn trim_colons(s: Seq<char>) -> Seq<char>
    decreases s.len(),
{
    if s.len() > 0 && s.last() == ':' {
        trim_colons(s.drop_last())
    } else {
        s
    }
}

/// The key and value a `/proc/meminfo` line gives: its first word without
/// trailing colons and its second word as a number.
pub open spec fn meminfo_entry(line: Seq<char>) -> Option<(Seq<char>, u64)> {
    let ws = words(line);
    if ws.len() >= 2 {
        match parse_u64_spec(ws[1]) {
            Some(v) => Some((trim_colons(ws[0]), v)),
            None => None,
        }
    } else {
        None
    }
}

/// The value of `key`: the last line that gives it.
pub open spec fn meminfo_value(ls: Seq<Seq<char>>, key: Seq<char>) -> Option<u64>
    decreases ls.len(),
{
    if ls.len() == 0 {
        None
    } else {
        match meminfo_entry(ls.last()) {
            Some((k, v)) => if k == key {
                Some(v)
            } else {
                meminfo_value(ls.drop_last(), key)
            },
            None => meminfo_value(ls.drop_last(), key),
        }
    }
}

fn trim_colons_vec(v: &Vec<char>) -> (res: Vec<char>)
    ensures
        res@ == trim_colons(v@),
{
    let mut b = v.len();
    assert(v@.take(b as int) =~= v@);
    while b > 0 && v[b - 1] == ':'
        invariant
            0 <= b <= v@.len(),
            trim_colons(v@) == trim_colons(v@.take(b as int)),
        decreases b,
    {
        assert(v@.take(b as int).drop_last() =~= v@.take(b - 1));
        b = b - 1;
    }
    let r = sub_vec(v, 0, b);
    assert(r@ =~= v@.take(b as int));
    r
}

fn meminfo_entry_of(line: &Vec<char>) -> (res: Option<(Vec<char>, u64)>)
    ensures
        match res {
            Some((k, v)) => meminfo_entry(line@) == Some((k@, v)),
            None => meminfo_entry(line@) is None,
        },
{
    let ws = words_of(line);
    if ws.len() < 2 {
        return None;
    }
    assert(views(ws@)[1] == ws@[1]@);
    assert(views(ws@)[0] == ws@[0]@);
    let w1 = &ws[1];
    match parse_u64(w1, 0, w1.len()) {
        Some(v) => {
            assert(w1@.subrange(0, w1@.len() as int) =~= w1@);
            Some((trim_colons_vec(&ws[0]), v))
        },
        None => {
            assert(w1@.subrange(0, w1@.len() as int) =~= w1@);
            None
        },
    }
}

fn meminfo_lookup(ls: &Vec<Vec<char>>, key: &str) -> (res: Option<u64>)
    ensures
        res == meminfo_value(views(ls@), key@),
{
    let mut i: usize = ls.len();
    assert(views(ls@).take(i as int) =~= views(ls@));
    while i > 0
        invariant
            0 <= i <= ls@.len(),
            meminfo_value(views(ls@), key@) == meminfo_value(views(ls@).take(i as int), key@),
        decreases i,
    {
        let ghost pre = views(ls@).take(i as int);
        assert(pre.drop_last() =~= views(ls@).take(i - 1));
        assert(pre.last() == ls@[i - 1]@);
        match meminfo_entry_of(&ls[i - 1]) {
            Some((k, v)) => {
                if vec_eq_str(&k, key) {
                    return Some(v);
                }
            },
            None => {},
        }
        i = i - 1;
    }
    None
}

/// The reading of `/proc/meminfo` text, or why it is unusable: total and
/// free memory are required, available memory falls back to free memory,
/// swap figures to zero.
pub open spec fn meminfo_spec(input: Seq<char>) -> Result<MemInfo, Seq<char>> {
    let ls = lines(input);
    match meminfo_value(ls, "MemTotal"@) {
        None => Err("missing MemTotal in /proc/meminfo"@),
        Some(total) => match meminfo_value(ls, "MemFree"@) {
            None => Err("missing MemFree in /proc/meminfo"@),
            Some(free) => Ok(MemInfo {
                mem_total_kb: total,
                mem_available_kb: match meminfo_value(ls, "MemAvailable"@) {
                    Some(a) => a,
                    None => free,
                },
                mem_free_kb: free,
                swap_total_kb: match meminfo_value(ls, "SwapTotal"@) {
                    Some(a) => a,
                    None => 0,
                },
                swap_free_kb: match meminfo_value(ls, "SwapFree"@) {
                    Some(a) => a,
                    None => 0,
                },
            }),
        },
    }
}

/// The memory and swap figures of `/proc/meminfo`.
pub fn parse_meminfo(input: &str) -> (res: Result<MemInfo, String>)
    ensures
        match meminfo_spec(input@) {
            Ok(m) => res == Ok::<MemInfo, String>(m),
            Err(e) => res matches Err(x) && x@ == e,
        },
{
    let v = chars_of(input);
    let ls = lines_of(&v);
    let total = match meminfo_lookup(&ls, "MemTotal") {
        Some(t) => t,
        None => return Err(owned("missing MemTotal in /proc/meminfo")),
    };
    let free = match meminfo_lookup(&ls, "MemFree") {
        Some(f) => f,
        None => return Err(owned("missing MemFree in /proc/meminfo")),
    };
    let available = match meminfo_lookup(&ls, "MemAvailable") {
        Some(a) => a,
        None => free,
    };
    let swap_total = match meminfo_lookup(&ls, "SwapTotal") {
        Some(a) => a,
        None => 0,
    };
    let swap_free = match meminfo_lookup(&ls, "SwapFree") {
        Some(a) => a,
        None => 0,
    };
    Ok(MemInfo {
        mem_total_kb: total,
        mem_available_kb: available,
        mem_free_kb: free,
        swap_total_kb: swap_total,
        swap_free_kb: swap_free,
    })
}

/// The text of the error `str::parse::<u64>` reports for a word it
/// rejects: too large when it is a number, else an invalid digit.
pub open spec fn parse_error_text(w: Seq<char>) -> Seq<char> {
    if parse_unsigned(w) is Some {
        "number too large to fit in target type"@
    } else {
        "invalid digit found in string"@
    }
}

/// The numbers of `ws`, or the error text for the first word that is not one.
pub open spec fn parse_all(ws: Seq<Seq<char>>) -> Result<Seq<u64>, Seq<char>>
    decreases ws.len(),
{
    if ws.len() == 0 {
        Ok(Seq::empty())
    } else {
        match parse_u64_spec(ws[0]) {
            None => Err(parse_error_text(ws[0])),
            Some(v) => match parse_all(ws.drop_first()) {
                Ok(r) => Ok(seq![v] + r),
                Err(e) => Err(e),
            },
        }
    }
}

pub open spec fn sum_of(s: Seq<u64>) -> int
    decreases s.len(),
{
    if s.len() == 0 {
        0
    } else {
        sum_of(s.drop_last()) + s.last()
    }
}

/// The aggregate `cpu ` line of `/proc/stat`.
pub open spec fn cpu_line(input: Seq<char>) -> Option<Seq<char>> {
    match first_where(lines(input), |l: Seq<char>| starts_with(l, "cpu "@)) {
        Some(i) => Some(lines(input)[i]),
        None => None,
    }
}

/// The words after the first one.
pub open spec fn rest_words(ws: Seq<Seq<char>>) -> Seq<Seq<char>> {
    if ws.len() == 0 {
        ws
    } else {
        ws.skip(1)
    }
}

/// The counters of the aggregate line, or the error.
pub open spec fn cpu_values(input: Seq<char>) -> Result<Seq<u64>, Seq<char>> {
    match cpu_line(input) {
        None => Err("missing aggregate cpu line in /proc/stat"@),
        Some(l) => match parse_all(rest_words(words(l))) {
            Err(e) => Err("invalid cpu counter: "@ + e),
            Ok(v) => if v.len() < 4 {
                Err("cpu line has too few counters"@)
            } else {
                Ok(v)
            },
        },
    }
}

/// Idle time (idle plus iowait) and the total of all counters.
pub open spec fn cpu_idle(v: Seq<u64>) -> int {
    v[3] + if v.len() > 4 {
        v[4] as int
    } else {
        0
    }
}

/// The counters add up without overflowing a `u64`.
pub open spec fn cpu_counters_fit_spec(input: Seq<char>) -> bool {
    match cpu_values(input) {
        Ok(v) => cpu_idle(v) <= u64::MAX && sum_of(v) <= u64::MAX,
        Err(_) => true,
    }
}

fn cpu_line_of(input: &str) -> (res: Option<Vec<char>>)
    ensures
        match cpu_line(input@) {
            Some(l) => res matches Some(v) && v@ == l,
            None => res is None,
        },
{
    let v = chars_of(input);
    let ls = lines_of(&v);
    let ghost p = |l: Seq<char>| starts_with(l, "cpu "@);
    let mut i: usize = 0;
    while i < ls.len()
        invariant
            0 <= i <= ls@.len(),
            views(ls@) == lines(input@),
            p == (|l: Seq<char>| starts_with(l, "cpu "@)),
            forall|j: int| 0 <= j < i ==> !p(#[trigger] views(ls@)[j]),
        decreases ls@.len() - i,
    {
        assert(views(ls@)[i as int] == ls@[i as int]@);
        if vec_starts_with(&ls[i], "cpu ") {
            proof {
                lemma_first_where_at(views(ls@), p, i as int);
            }
            return Some(ls[i].clone());
        }
        i = i + 1;
    }
    proof {
        lemma_first_where_none(views(ls@), p);
    }
    None
}

fn parse_all_of(ws: &Vec<Vec<char>>, from: usize) -> (res: Result<Vec<u64>, String>)
    requires
        from <= ws@.len(),
    ensures
        match parse_all(views(ws@).skip(from as int)) {
            Ok(v) => res matches Ok(r) && r@ == v,
            Err(e) => res matches Err(x) && x@ == e,
        },
{
    let mut out: Vec<u64> = Vec::new();
    let mut i = from;
    while i < ws.len()
        invariant
            from <= i <= ws@.len(),
            parse_all(views(ws@).skip(from as int)) == match parse_all(views(ws@).skip(i as int)) {
                Ok(r) => Ok(out@ + r),
                Err(e) => Err::<Seq<u64>, Seq<char>>(e),
            },
        decreases ws@.len() - i,
    {
        let ghost rest = views(ws@).skip(i as int);
        assert(rest.drop_first() =~= views(ws@).skip(i + 1));
        assert(rest[0] == ws@[i as int]@);
        let w = &ws[i];
        assert(w@.subrange(0, w@.len() as int) =~= w@);
        match parse_u64(w, 0, w.len()) {
            Some(n) => {
                let ghost before = out@;
                out.push(n);
                proof {
                    match parse_all(views(ws@).skip(i + 1)) {
                        Ok(r) => {
                            assert(before + (seq![n] + r) =~= out@ + r);
                        },
                        Err(_) => {},
                    }
                }
            },
            None => {
                let msg = if crate::text::all_digits_of_word(w) {
                    owned("number too large to fit in target type")
                } else {
                    owned("invalid digit found in string")
                };
                return Err(msg);
            },
        }
        i = i + 1;
    }
    assert(views(ws@).skip(ws@.len() as int) =~= Seq::<Seq<char>>::empty());
    assert(out@ + Seq::<u64>::empty() =~= out@);
    Ok(out)
}

/// Whether the counters in `/proc/stat` text add up within a `u64`.
pub fn cpu_counters_fit(input: &str) -> (res: bool)
    ensures
        res == cpu_counters_fit_spec(input@),
{
    match counter_values(input) {
        Ok(v) => {
            let mut total: u128 = 0;
            let mut i: usize = 0;
            while i < v.len()
                invariant
                    0 <= i <= v@.len(),
                    cpu_values(input@) == Ok::<Seq<u64>, Seq<char>>(v@),
                    total == sum_of(v@.take(i as int)),
                    total <= i * 0xffff_ffff_ffff_ffffu128,
                decreases v@.len() - i,
            {
                assert(v@.take(i + 1).drop_last() =~= v@.take(i as int));
                if total > 0xffff_ffff_ffff_ffff {
                    proof {
                        lemma_sum_prefix_monotone(v@, i as int);
                    }
                    return false;
                }
                total = total + v[i] as u128;
                i = i + 1;
            }
            assert(v@.take(v@.len() as int) =~= v@);
            let idle: u128 = v[3] as u128 + if v.len() > 4 {
                v[4] as u128
            } else {
                0
            };
            idle <= 0xffff_ffff_ffff_ffff && total <= 0xffff_ffff_ffff_ffff
        },
        Err(_) => true,
    }
}

proof fn lemma_sum_prefix_monotone(v: Seq<u64>, i: int)
    requires
        0 <= i <= v.len(),
    ensures
        sum_of(v.take(i)) <= sum_of(v),
    decreases v.len() - i,
{
    if i < v.len() {
        lemma_sum_prefix_monotone(v.drop_last(), i);
        assert(v.drop_last().take(i) =~= v.take(i));
    } else {
        assert(v.take(i) =~= v);
    }
}

fn counter_values(input: &str) -> (res: Result<Vec<u64>, String>)
    ensures
        match cpu_values(input@) {
            Ok(v) => res matches Ok(r) && r@ == v,
            Err(e) => res matches Err(x) && x@ == e,
        },
{
    let line = match cpu_line_of(input) {
        Some(l) => l,
        None => return Err(owned("missing aggregate cpu line in /proc/stat")),
    };
    let ws = words_of(&line);
    if ws.len() == 0 {
        return Err(owned("cpu line has too few counters"));
    }
    let values = match parse_all_of(&ws, 1) {
        Ok(v) => v,
        Err(e) => return Err(crate::text::cat2("invalid cpu counter: ", e.as_str())),
    };
    if values.len() < 4 {
        return Err(owned("cpu line has too few counters"));
    }
    Ok(values)
}

/// Reads the aggregate CPU counters of `/proc/stat` text: idle is the
/// idle plus iowait time, total the sum of all counters.
pub fn parse_cpu_counters(input: &str) -> (res: Result<CpuCounters, String>)
    requires
        cpu_counters_fit_spec(input@),
    ensures
        match cpu_values(input@) {
            Ok(v) => res == Ok::<CpuCounters, String>(CpuCounters { idle: cpu_idle(v) as u64, total: sum_of(v) as u64 }),
            Err(e) => res matches Err(x) && x@ == e,
        },
{
    let v = match counter_values(input) {
        Ok(v) => v,
        Err(e) => return Err(e),
    };
    let idle = v[3] + if v.len() > 4 {
        v[4]
    } else {
        0
    };
    let mut total: u64 = 0;
    let mut i: usize = 0;
    while i < v.len()
        invariant
            0 <= i <= v@.len(),
            total == sum_of(v@.take(i as int)),
            sum_of(v@) <= u64::MAX,
        decreases v@.len() - i,
    {
        assert(v@.take(i + 1).drop_last() =~= v@.take(i as int));
        proof {
            lemma_sum_prefix_monotone(v@, i + 1);
        }
        total = total + v[i];
        i = i + 1;
    }
    assert(v@.take(v@.len() as int) =~= v@);
    Ok(CpuCounters { idle, total })
}

/// The CPU busy share between two readings, in percent rounded to the
/// nearest whole number (halves up); 0 when no time passed.
pub open spec fn cpu_pct(before: CpuCounters, after: CpuCounters) -> int {
    let td = if after.total >= before.total { after.total - before.total } else { 0 };
    let id = if after.idle >= before.idle { after.idle - before.idle } else { 0 };
    let busy = if td >= id { td - id } else { 0 };
    if td == 0 {
        0
    } else {
        (200 * busy + td) / (2 * td)
    }
}

/// The busy share of CPU time between two readings, in percent, rounded.
pub fn cpu_usage_pct(before: CpuCounters, after: CpuCounters) -> (res: u32)
    ensures
        res == cpu_pct(before, after),
        res <= 100,
{
    let total_delta = after.total.saturating_sub(before.total);
    if total_delta == 0 {
        return 0;
    }
    let idle_delta = after.idle.saturating_sub(before.idle);
    let busy = total_delta.saturating_sub(idle_delta);
    let num: u128 = 200 * (busy as u128) + total_delta as u128;
    let den: u128 = 2 * (total_delta as u128);
    let q = num / den;
    assert(q <= 100) by (nonlinear_arith)
        requires
            num == 200 * busy + total_delta,
            den == 2 * total_delta,
            busy <= total_delta,
            total_delta > 0,
            q == num / den,
    ;
    q as u32
}

// ---------------------------------------------------------------------------
// Memory of the ARK server processes
// ---------------------------------------------------------------------------

/// The resident set size a `/proc/<pid>/status` line gives: the first word
/// after a leading `VmRSS:` as a number.
pub open spec fn vmrss_entry(line: Seq<char>) -> Option<u64> {
    if starts_with(line, "VmRSS:"@) {
        let ws = words(line.skip(6));
        if ws.len() > 0 { parse_u64_spec(ws[0]) } else { None }
    } else {
        None
    }
}

/// The first line of the status text that gives a resident set size.
pub open spec fn vmrss_of_lines(ls: Seq<Seq<char>>) -> Option<u64>
    decreases ls.len(),
{
    if ls.len() == 0 {
        None
    } else {
        match vmrss_entry(ls[0]) {
            Some(v) => Some(v),
            None => vmrss_of_lines(ls.drop_first()),
        }
    }
}

fn vmrss_entry_of(line: &Vec<char>) -> (res: Option<u64>)
    ensures
        res == vmrss_entry(line@),
{
    if !vec_starts_with(line, "VmRSS:") {
        return None;
    }
    proof {
        reveal_strlit("VmRSS:");
    }
    let rest = sub_vec(line, 6, line.len());
    assert(rest@ =~= line@.skip(6));
    let ws = words_of(&rest);
    if ws.len() == 0 {
        return None;
    }
    assert(views(ws@)[0] == ws@[0]@);
    let w = &ws[0];
    let r = parse_u64(w, 0, w.len());
    assert(w@.subrange(0, w@.len() as int) =~= w@);
    r
}

/// The resident set size in kB from `/proc/<pid>/status` text.
pub fn read_vmrss_kb(status: &str) -> (res: Option<u64>)
    ensures
        res == vmrss_of_lines(lines(status@)),
{
    let v = chars_of(status);
    let ls = lines_of(&v);
    let ghost all = views(ls@);
    assert(all.skip(0) =~= all);
    let mut i: usize = 0;
    while i < ls.len()
        invariant
            0 <= i <= ls@.len(),
            all == views(ls@),
            all == lines(status@),
            vmrss_of_lines(all) == vmrss_of_lines(all.skip(i as int)),
        decreases ls@.len() - i,
    {
        let ghost rest = all.skip(i as int);
        assert(rest[0] == ls@[i as int]@);
        assert(rest.drop_first() =~= all.skip(i + 1));
        match vmrss_entry_of(&ls[i]) {
            Some(n) => {
                return Some(n);
            },
            None => {},
        }
        i = i + 1;
    }
    assert(all.skip(ls@.len() as int) =~= Seq::<Seq<char>>::empty());
    None
}

/// A process is an ARK server when its command name or command line
/// mentions `ShooterGame` or `ArkAscended`.
pub open spec fn ark_process(comm: Seq<char>, cmdline: Seq<char>) -> bool {
    crate::text::contains(comm, "ShooterGame"@) || crate::text::contains(comm, "ArkAscended"@)
        || crate::text::contains(cmdline, "ShooterGame"@) || crate::text::contains(cmdline, "ArkAscended"@)
}

/// Whether a process is an ARK server, by its name or command line.
pub fn looks_like_ark_process(comm: &str, cmdline: &str) -> (res: bool)
    ensures
        res == ark_process(comm@, cmdline@),
{
    crate::text::str_contains(comm, "ShooterGame") || crate::text::str_contains(comm, "ArkAscended")
        || crate::text::str_contains(cmdline, "ShooterGame") || crate::text::str_contains(cmdline, "ArkAscended")
}

/// Whether a `/proc` entry names a process (ASCII digits only).
pub fn is_pid_dir(name: &str) -> (res: bool)
    ensures
        res == (forall|i: int| 0 <= i < name@.len() ==> crate::text::is_digit(#[trigger] name@[i])),
{
    let v = chars_of(name);
    let mut i: usize = 0;
    while i < v.len()
        invariant
            0 <= i <= v@.len(),
            v@ == name@,
            forall|j: int| 0 <= j < i ==> crate::text::is_digit(#[trigger] v@[j]),
        decreases v@.len() - i,
    {
        if !crate::text::char_is_digit(v[i]) {
            return false;
        }
        i = i + 1;
    }
    true
}

/// Adds one process's resident set size to a running total, saturating.
pub fn add_rss(total_kb: u64, rss_kb: Option<u64>) -> (res: u64)
    ensures
        res == match rss_kb {
            Some(r) => if total_kb + r > u64::MAX { u64::MAX as int } else { total_kb + r },
            None => total_kb as int,
        },
{
    match rss_kb {
        Some(r) => total_kb.saturating_add(r),
        None => total_kb,
    }
}

} // verus!
