//! Character-level text utilities with their specifications.
//!
//! Text is read as a sequence of `char`s (the view of `&str` and `String`).
//! The spec functions here state what the std string helpers that the
//! library relies on compute (trimming, line splitting, ASCII case folding,
//! decimal numbers), and the executable functions are proved against them.
use vstd::prelude::*;

verus! {

// ---------------------------------------------------------------------------
// Characters
// ---------------------------------------------------------------------------

/// ASCII decimal digit.
pub open spec fn is_digit(c: char) -> bool {
    '0' <= c && c <= '9'
}

/// ASCII upper-case letter.
pub open spec fn is_upper(c: char) -> bool {
    'A' <= c && c <= 'Z'
}

/// ASCII lower-case letter.
pub open spec fn is_lower(c: char) -> bool {
    'a' <= c && c <= 'z'
}

/// ASCII letter or digit.
pub open spec fn is_alnum(c: char) -> bool {
    is_digit(c) || is_upper(c) || is_lower(c)
}

/// Unicode `White_Space`, the set that `char::is_whitespace` and `str::trim` use.
pub open spec fn is_ws(c: char) -> bool {
    ||| c == ' '
    ||| ('\t' <= c && c <= '\r')
    ||| c == '\u{85}'
    ||| c == '\u{a0}'
    ||| c == '\u{1680}'
    ||| ('\u{2000}' <= c && c <= '\u{200a}')
    ||| c == '\u{2028}'
    ||| c == '\u{2029}'
    ||| c == '\u{202f}'
    ||| c == '\u{205f}'
    ||| c == '\u{3000}'
}

/// ASCII lower-casing of one character; other characters are unchanged.
pub open spec fn lower(c: char) -> char {
    if is_upper(c) {
        ((c as u32) + 32) as char
    } else {
        c
    }
}

/// ASCII lower-casing of a whole sequence.
pub open spec fn lower_seq(s: Seq<char>) -> Seq<char> {
    Seq::new(s.len(), |i: int| lower(s[i]))
}

/// Whether `c` is an ASCII digit.
pub fn char_is_digit(c: char) -> (res: bool)
    ensures
        res == is_digit(c),
{
    '0' <= c && c <= '9'
}

/// Whether `c` is an ASCII letter or digit.
pub fn char_is_alnum(c: char) -> (res: bool)
    ensures
        res == is_alnum(c),
{
    ('0' <= c && c <= '9') || ('A' <= c && c <= 'Z') || ('a' <= c && c <= 'z')
}

/// Whether `c` is whitespace.
pub fn char_is_ws(c: char) -> (res: bool)
    ensures
        res == is_ws(c),
{
    c == ' ' || ('\t' <= c && c <= '\r') || c == '\u{85}' || c == '\u{a0}' || c == '\u{1680}'
        || ('\u{2000}' <= c && c <= '\u{200a}') || c == '\u{2028}' || c == '\u{2029}' || c
        == '\u{202f}' || c == '\u{205f}' || c == '\u{3000}'
}

/// `c` in ASCII lowercase.
pub fn char_lower(c: char) -> (res: char)
    ensures
        res == lower(c),
{
    if 'A' <= c && c <= 'Z' {
        let u: u32 = c as u32;
        let l: u32 = u + 32;
        assert(0x61 <= l <= 0x7a);
        let r = l as u8 as char;
        assert(r == ((c as u32) + 32) as char);
        r
    } else {
        c
    }
}


// ---------------------------------------------------------------------------
// Conversions between strings and character vectors
// ---------------------------------------------------------------------------

/// The characters of `s`, in order.
pub fn chars_of(s: &str) -> (v: Vec<char>)
    ensures
        v@ == s@,
{
    let n = s.unicode_len();
    let mut v: Vec<char> = Vec::new();
    let mut i: usize = 0;
    while i < n
        invariant
            n == s@.len(),
            0 <= i <= n,
            v@ == s@.take(i as int),
        decreases n - i,
    {
        let c = s.get_char(i);
        v.push(c);
        assert(s@.take(i + 1) =~= s@.take(i as int).push(c));
        i = i + 1;
    }
    assert(s@.take(n as int) =~= s@);
    v
}

/// Appends one character to a string (std `String::push`).
#[verifier::external_body]
pub(crate) fn push_char(s: &mut String, c: char)
    ensures
        final(s)@ == old(s)@.push(c),
{
    s.push(c);
}

/// A string holding the characters of `v@.subrange(from, to)`.
pub fn string_from_range(v: &Vec<char>, from: usize, to: usize) -> (s: String)
    requires
        from <= to <= v@.len(),
    ensures
        s@ == v@.subrange(from as int, to as int),
{
    let mut s = String::new();
    let mut i = from;
    while i < to
        invariant
            from <= i <= to,
            to <= v@.len(),
            s@ == v@.subrange(from as int, i as int),
        decreases to - i,
    {
        push_char(&mut s, v[i]);
        assert(v@.subrange(from as int, i + 1) =~= v@.subrange(from as int, i as int).push(v@[i as int]));
        i = i + 1;
    }
    s
}

/// A string holding the characters of `v`.
pub fn string_from(v: &Vec<char>) -> (s: String)
    ensures
        s@ == v@,
{
    let s = string_from_range(v, 0, v.len());
    assert(v@.subrange(0, v@.len() as int) =~= v@);
    s
}


// ---------------------------------------------------------------------------
// Trimming
// ---------------------------------------------------------------------------

/// `s` without its leading whitespace (`str::trim_start`).
pub open spec fn trim_start(s: Seq<char>) -> Seq<char>
    decreases s.len(),
{
    if s.len() > 0 && is_ws(s[0]) {
        trim_start(s.drop_first())
    } else {
        s
    }
}

/// `s` without its trailing whitespace (`str::trim_end`).
pub open spec fn trim_end(s: Seq<char>) -> Seq<char>
    decreases s.len(),
{
    if s.len() > 0 && is_ws(s.last()) {
        trim_end(s.drop_last())
    } else {
        s
    }
}

/// `s` without leading and trailing whitespace (`str::trim`).
pub open spec fn trim(s: Seq<char>) -> Seq<char> {
    trim_end(trim_start(s))
}

pub proof fn lemma_trim_start_at(s: Seq<char>, a: int)
    requires
        0 <= a <= s.len(),
        forall|j: int| 0 <= j < a ==> is_ws(s[j]),
        a == s.len() || !is_ws(s[a]),
    ensures
        trim_start(s) == s.subrange(a, s.len() as int),
    decreases a,
{
    if a == 0 {
        assert(s.subrange(0, s.len() as int) =~= s);
    } else {
        let t = s.drop_first();
        assert forall|j: int| 0 <= j < a - 1 implies is_ws(t[j]) by {
            assert(t[j] == s[j + 1]);
        }
        lemma_trim_start_at(t, a - 1);
        assert(t.subrange(a - 1, t.len() as int) =~= s.subrange(a, s.len() as int));
    }
}

pub proof fn lemma_trim_end_at(s: Seq<char>, b: int)
    requires
        0 <= b <= s.len(),
        forall|j: int| b <= j < s.len() ==> is_ws(s[j]),
        b == 0 || !is_ws(s[b - 1]),
    ensures
        trim_end(s) == s.subrange(0, b),
    decreases s.len() - b,
{
    if b == s.len() {
        assert(s.subrange(0, b) =~= s);
    } else {
        let t = s.drop_last();
        lemma_trim_end_at(t, b);
        assert(t.subrange(0, b) =~= s.subrange(0, b));
    }
}

/// Bounds `(a, b)` such that `trim(v@) == v@.subrange(a, b)`.
pub fn trim_bounds(v: &Vec<char>, from: usize, to: usize) -> (res: (usize, usize))
    requires
        from <= to <= v@.len(),
    ensures
        from <= res.0 <= res.1 <= to,
        trim(v@.subrange(from as int, to as int)) == v@.subrange(res.0 as int, res.1 as int),
{
    let ghost s = v@.subrange(from as int, to as int);
    let mut a = from;
    while a < to && char_is_ws(v[a])
        invariant
            from <= a <= to,
            to <= v@.len(),
            s == v@.subrange(from as int, to as int),
            forall|j: int| from <= j < a ==> is_ws(v@[j]),
        decreases to - a,
    {
        a = a + 1;
    }
    proof {
        lemma_trim_start_at(s, a - from);
    }
    let ghost t = v@.subrange(a as int, to as int);
    assert(trim_start(s) =~= t);
    let mut b = to;
    while b > a && char_is_ws(v[b - 1])
        invariant
            from <= a <= b <= to,
            to <= v@.len(),
            t == v@.subrange(a as int, to as int),
            forall|j: int| b <= j < to ==> is_ws(v@[j]),
        decreases b - a,
    {
        b = b - 1;
    }
    proof {
        lemma_trim_end_at(t, b - a);
        assert(t.subrange(0, b - a) =~= v@.subrange(a as int, b as int));
    }
    (a, b)
}

/// `str::trim`, as a new string.
pub fn trim_string(s: &str) -> (res: String)
    ensures
        res@ == trim(s@),
{
    let v = chars_of(s);
    let (a, b) = trim_bounds(&v, 0, v.len());
    assert(v@.subrange(0, v@.len() as int) =~= v@);
    string_from_range(&v, a, b)
}


// ---------------------------------------------------------------------------
// Searching
// ---------------------------------------------------------------------------

/// Index of the first occurrence of `pat` in `s` at or after `i`.
pub open spec fn find_from(s: Seq<char>, pat: Seq<char>, i: int) -> Option<int>
    decreases s.len() + 1 - i,
{
    if i < 0 || i + pat.len() > s.len() {
        None
    } else if s.subrange(i, i + pat.len()) == pat {
        Some(i)
    } else {
        find_from(s, pat, i + 1)
    }
}

/// Index of the first occurrence of `pat` in `s` (`str::find`, in characters).
pub open spec fn find(s: Seq<char>, pat: Seq<char>) -> Option<int> {
    find_from(s, pat, 0)
}

/// Index of the first `c` in `s` at or after `i`.
pub open spec fn index_of_from(s: Seq<char>, c: char, i: int) -> Option<int>
    decreases s.len() - i,
{
    if i < 0 || i >= s.len() {
        None
    } else if s[i] == c {
        Some(i)
    } else {
        index_of_from(s, c, i + 1)
    }
}

/// Index of the first `c` in `s`.
pub open spec fn index_of(s: Seq<char>, c: char) -> Option<int> {
    index_of_from(s, c, 0)
}

/// Index of the last `c` in `s`.
pub open spec fn last_index_of(s: Seq<char>, c: char) -> Option<int>
    decreases s.len(),
{
    if s.len() == 0 {
        None
    } else if s.last() == c {
        Some(s.len() - 1)
    } else {
        last_index_of(s.drop_last(), c)
    }
}

pub open spec fn opt_usize_is(r: Option<usize>, o: Option<int>) -> bool {
    match r {
        Some(k) => o == Some(k as int),
        None => o is None,
    }
}

/// Whether `pat` occurs in `v` at index `i`.
pub fn matches_at(v: &Vec<char>, pat: &Vec<char>, i: usize) -> (res: bool)
    requires
        i + pat@.len() <= v@.len(),
    ensures
        res == (v@.subrange(i as int, i + pat@.len()) == pat@),
{
    let n = v.len();
    let mut j: usize = 0;
    while j < pat.len()
        invariant
            n == v@.len(),
            i + pat@.len() <= v@.len(),
            0 <= j <= pat@.len(),
            forall|k: int| 0 <= k < j ==> v@[i + k] == pat@[k],
        decreases pat@.len() - j,
    {
        if v[i + j] != pat[j] {
            assert(v@.subrange(i as int, i + pat@.len())[j as int] != pat@[j as int]);
            return false;
        }
        j = j + 1;
    }
    assert(v@.subrange(i as int, i + pat@.len()) =~= pat@);
    true
}

/// First occurrence of `pat` in `v`.
pub fn find_seq(v: &Vec<char>, pat: &Vec<char>) -> (res: Option<usize>)
    ensures
        opt_usize_is(res, find(v@, pat@)),
        res matches Some(k) ==> k + pat@.len() <= v@.len(),
{
    if pat.len() > v.len() {
        return None;
    }
    let last = v.len() - pat.len();
    let mut i: usize = 0;
    loop
        invariant
            pat@.len() <= v@.len(),
            last == v@.len() - pat@.len(),
            0 <= i <= last,
            find(v@, pat@) == find_from(v@, pat@, i as int),
        decreases last - i,
    {
        if matches_at(v, pat, i) {
            return Some(i);
        }
        if i == last {
            assert(find_from(v@, pat@, i + 1) is None);
            return None;
        }
        i = i + 1;
    }
}

/// First `c` in `v`.
pub fn index_of_char(v: &Vec<char>, c: char) -> (res: Option<usize>)
    ensures
        opt_usize_is(res, index_of(v@, c)),
        res matches Some(k) ==> k < v@.len() && v@[k as int] == c,
{
    let mut i: usize = 0;
    while i < v.len()
        invariant
            0 <= i <= v@.len(),
            index_of(v@, c) == index_of_from(v@, c, i as int),
        decreases v@.len() - i,
    {
        if v[i] == c {
            return Some(i);
        }
        i = i + 1;
    }
    None
}

pub proof fn lemma_last_index_of_prefix(s: Seq<char>, c: char, i: int)
    requires
        0 <= i <= s.len(),
        forall|j: int| i <= j < s.len() ==> s[j] != c,
    ensures
        last_index_of(s, c) == last_index_of(s.take(i), c),
    decreases s.len() - i,
{
    if i < s.len() {
        lemma_last_index_of_prefix(s.drop_last(), c, i);
        assert(s.drop_last().take(i) =~= s.take(i));
    } else {
        assert(s.take(i) =~= s);
    }
}

/// Last `c` in `v`.
pub fn last_index_of_char(v: &Vec<char>, c: char) -> (res: Option<usize>)
    ensures
        opt_usize_is(res, last_index_of(v@, c)),
        res matches Some(k) ==> k < v@.len() && v@[k as int] == c,
{
    let mut i: usize = v.len();
    while i > 0
        invariant
            0 <= i <= v@.len(),
            forall|j: int| i <= j < v@.len() ==> v@[j] != c,
        decreases i,
    {
        if v[i - 1] == c {
            proof {
                lemma_last_index_of_prefix(v@, c, i as int);
                assert(v@.take(i as int).last() == c);
            }
            return Some(i - 1);
        }
        i = i - 1;
    }
    proof {
        lemma_last_index_of_prefix(v@, c, 0);
    }
    None
}


// ---------------------------------------------------------------------------
// Splitting into lines and words
// ---------------------------------------------------------------------------

/// A list of `(start, end)` index pairs read as the subranges of `v`.
pub open spec fn ranges_view(v: Seq<char>, r: Seq<(usize, usize)>) -> Seq<Seq<char>> {
    Seq::new(r.len(), |k: int| v.subrange(r[k].0 as int, r[k].1 as int))
}

pub open spec fn ranges_within(r: Seq<(usize, usize)>, n: int) -> bool {
    forall|k: int| 0 <= k < r.len() ==> #[trigger] r[k].0 <= r[k].1 <= n
}

/// A line without the `'\r'` of a `"\r\n"` terminator.
pub open spec fn strip_cr(l: Seq<char>) -> Seq<char> {
    if l.len() > 0 && l.last() == '\r' {
        l.drop_last()
    } else {
        l
    }
}

/// Completed lines and the pending line after reading `s`.
pub open spec fn lines_state(s: Seq<char>) -> (Seq<Seq<char>>, Seq<char>)
    decreases s.len(),
{
    if s.len() == 0 {
        (Seq::empty(), Seq::empty())
    } else {
        let st = lines_state(s.drop_last());
        if s.last() == '\n' {
            (st.0.push(strip_cr(st.1)), Seq::empty())
        } else {
            (st.0, st.1.push(s.last()))
        }
    }
}

/// The lines of `s` as `str::lines` yields them: split at `'\n'`, a `'\r'`
/// before the `'\n'` removed, and no empty line after a final `'\n'`.
pub open spec fn lines(s: Seq<char>) -> Seq<Seq<char>> {
    let st = lines_state(s);
    if st.1.len() > 0 {
        st.0.push(st.1)
    } else {
        st.0
    }
}

/// Index ranges of the lines of `v@`.
pub fn line_ranges(v: &Vec<char>) -> (res: Vec<(usize, usize)>)
    ensures
        ranges_within(res@, v@.len() as int),
        ranges_view(v@, res@) == lines(v@),
{
    let n = v.len();
    let mut res: Vec<(usize, usize)> = Vec::new();
    let mut start: usize = 0;
    let mut i: usize = 0;
    while i < n
        invariant
            n == v@.len(),
            0 <= start <= i <= n,
            ranges_within(res@, n as int),
            lines_state(v@.take(i as int)) == (ranges_view(v@, res@), v@.subrange(start as int, i as int)),
        decreases n - i,
    {
        let ghost old_res = res@;
        assert(v@.take(i + 1).drop_last() =~= v@.take(i as int));
        if v[i] == '\n' {
            let end = if i > start && v[i - 1] == '\r' { i - 1 } else { i };
            res.push((start, end));
            proof {
                let cur = v@.subrange(start as int, i as int);
                assert(strip_cr(cur) =~= v@.subrange(start as int, end as int));
                assert(ranges_view(v@, res@) =~= ranges_view(v@, old_res).push(strip_cr(cur)));
                assert(v@.subrange((i + 1) as int, (i + 1) as int) =~= Seq::<char>::empty());
            }
            start = i + 1;
        } else {
            assert(v@.subrange(start as int, i + 1) =~= v@.subrange(start as int, i as int).push(v@[i as int]));
        }
        i = i + 1;
    }
    assert(v@.take(n as int) =~= v@);
    if start < n {
        let ghost old_res = res@;
        res.push((start, n));
        assert(ranges_view(v@, res@) =~= ranges_view(v@, old_res).push(v@.subrange(start as int, n as int)));
    }
    res
}

/// Completed words and the pending word after reading `s`.
pub open spec fn words_state(s: Seq<char>) -> (Seq<Seq<char>>, Seq<char>)
    decreases s.len(),
{
    if s.len() == 0 {
        (Seq::empty(), Seq::empty())
    } else {
        let st = words_state(s.drop_last());
        if is_ws(s.last()) {
            if st.1.len() > 0 {
                (st.0.push(st.1), Seq::empty())
            } else {
                st
            }
        } else {
            (st.0, st.1.push(s.last()))
        }
    }
}

/// The maximal runs of non-whitespace characters of `s` (`str::split_whitespace`).
pub open spec fn words(s: Seq<char>) -> Seq<Seq<char>> {
    let st = words_state(s);
    if st.1.len() > 0 {
        st.0.push(st.1)
    } else {
        st.0
    }
}

/// Index ranges of the words of `v@.subrange(from, to)`, as indices into `v`.
pub fn word_ranges(v: &Vec<char>, from: usize, to: usize) -> (res: Vec<(usize, usize)>)
    requires
        from <= to <= v@.len(),
    ensures
        ranges_within(res@, to as int),
        forall|k: int| 0 <= k < res@.len() ==> from <= #[trigger] res@[k].0 < res@[k].1,
        ranges_view(v@, res@) == words(v@.subrange(from as int, to as int)),
{
    let ghost s = v@.subrange(from as int, to as int);
    let mut res: Vec<(usize, usize)> = Vec::new();
    let mut start: usize = from;
    let mut i: usize = from;
    while i < to
        invariant
            from <= start <= i <= to,
            to <= v@.len(),
            s == v@.subrange(from as int, to as int),
            ranges_within(res@, to as int),
            forall|k: int| 0 <= k < res@.len() ==> from <= #[trigger] res@[k].0 < res@[k].1,
            words_state(s.take(i - from)) == (ranges_view(v@, res@), v@.subrange(start as int, i as int)),
        decreases to - i,
    {
        let ghost old_res = res@;
        assert(s.take(i + 1 - from).drop_last() =~= s.take(i - from));
        assert(s.take(i + 1 - from).last() == v@[i as int]);
        if char_is_ws(v[i]) {
            if start < i {
                res.push((start, i));
                assert(ranges_view(v@, res@) =~= ranges_view(v@, old_res).push(v@.subrange(start as int, i as int)));
            }
            assert(v@.subrange((i + 1) as int, (i + 1) as int) =~= Seq::<char>::empty());
            assert(v@.subrange(i as int, i as int) =~= Seq::<char>::empty());
            start = i + 1;
        } else {
            assert(v@.subrange(start as int, i + 1) =~= v@.subrange(start as int, i as int).push(v@[i as int]));
        }
        i = i + 1;
    }
    assert(s.take(to - from) =~= s);
    if start < to {
        let ghost old_res = res@;
        res.push((start, to));
        assert(ranges_view(v@, res@) =~= ranges_view(v@, old_res).push(v@.subrange(start as int, to as int)));
    }
    res
}


// ---------------------------------------------------------------------------
// ASCII case folding
// ---------------------------------------------------------------------------

/// `v@.subrange(from, to)` lower-cased (`str::to_ascii_lowercase`).
pub fn lower_range(v: &Vec<char>, from: usize, to: usize) -> (res: Vec<char>)
    requires
        from <= to <= v@.len(),
    ensures
        res@ == lower_seq(v@.subrange(from as int, to as int)),
{
    let mut res: Vec<char> = Vec::new();
    let mut i = from;
    while i < to
        invariant
            from <= i <= to,
            to <= v@.len(),
            res@ == lower_seq(v@.subrange(from as int, i as int)),
        decreases to - i,
    {
        let c = char_lower(v[i]);
        res.push(c);
        assert(res@ =~= lower_seq(v@.subrange(from as int, i + 1)));
        i = i + 1;
    }
    res
}

/// `v@` lower-cased.
pub fn lower_vec(v: &Vec<char>) -> (res: Vec<char>)
    ensures
        res@ == lower_seq(v@),
{
    let r = lower_range(v, 0, v.len());
    assert(v@.subrange(0, v@.len() as int) =~= v@);
    r
}

/// `str::eq_ignore_ascii_case`.
pub open spec fn eq_ignore_case(a: Seq<char>, b: Seq<char>) -> bool {
    a.len() == b.len() && lower_seq(a) == lower_seq(b)
}

/// Whether `v@.subrange(from, to)` equals `pat@` ignoring ASCII case.
pub fn range_eq_ignore_case(v: &Vec<char>, from: usize, to: usize, pat: &Vec<char>) -> (res: bool)
    requires
        from <= to <= v@.len(),
    ensures
        res == eq_ignore_case(v@.subrange(from as int, to as int), pat@),
{
    if to - from != pat.len() {
        return false;
    }
    let a = lower_range(v, from, to);
    let b = lower_vec(pat);
    let mut i: usize = 0;
    while i < a.len()
        invariant
            a@.len() == b@.len(),
            0 <= i <= a@.len(),
            forall|k: int| 0 <= k < i ==> a@[k] == b@[k],
            a@ == lower_seq(v@.subrange(from as int, to as int)),
            b@ == lower_seq(pat@),
            from <= to <= v@.len(),
            to - from == pat@.len(),
        decreases a@.len() - i,
    {
        if a[i] != b[i] {
            assert(a@[i as int] != b@[i as int]);
            return false;
        }
        i = i + 1;
    }
    assert(a@ =~= b@);
    true
}

/// Whether `a@ == b@`.
pub fn vec_eq(a: &Vec<char>, b: &Vec<char>) -> (res: bool)
    ensures
        res == (a@ == b@),
{
    if a.len() != b.len() {
        return false;
    }
    let mut i: usize = 0;
    while i < a.len()
        invariant
            a@.len() == b@.len(),
            0 <= i <= a@.len(),
            forall|k: int| 0 <= k < i ==> a@[k] == b@[k],
        decreases a@.len() - i,
    {
        if a[i] != b[i] {
            assert(a@[i as int] != b@[i as int]);
            return false;
        }
        i = i + 1;
    }
    assert(a@ =~= b@);
    true
}

/// Whether two strings are equal.
pub fn str_eq(a: &str, b: &str) -> (res: bool)
    ensures
        res == (a@ == b@),
{
    let va = chars_of(a);
    let vb = chars_of(b);
    vec_eq(&va, &vb)
}

// ---------------------------------------------------------------------------
// Decimal numbers
// ---------------------------------------------------------------------------

/// The character of decimal digit `d`.
pub open spec fn digit_char(d: int) -> char {
    (d + 48) as char
}

/// The value of decimal digit character `c`.
pub open spec fn digit_value(c: char) -> int {
    (c as int) - 48
}

/// Decimal rendering of `n`, as `u64::to_string` writes it.
pub open spec fn decimal(n: nat) -> Seq<char>
    decreases n,
{
    if n < 10 {
        seq![digit_char(n as int)]
    } else {
        decimal(n / 10).push(digit_char((n % 10) as int))
    }
}

/// Decimal rendering of `n`.
pub fn u64_to_string(n: u64) -> (s: String)
    ensures
        s@ == decimal(n as nat),
    decreases n,
{
    let d: u8 = (n % 10) as u8;
    let c = (d + 48) as char;
    assert(c == digit_char((n % 10) as int));
    if n < 10 {
        let mut s = String::new();
        push_char(&mut s, c);
        assert(s@ =~= decimal(n as nat));
        s
    } else {
        let mut s = u64_to_string(n / 10);
        push_char(&mut s, c);
        s
    }
}

/// The value of a sequence of decimal digits.
pub open spec fn digits_value(s: Seq<char>) -> nat
    decreases s.len(),
{
    if s.len() == 0 {
        0
    } else {
        (digits_value(s.drop_last()) * 10 + digit_value(s.last())) as nat
    }
}

pub open spec fn all_digits(s: Seq<char>) -> bool {
    forall|i: int| 0 <= i < s.len() ==> is_digit(#[trigger] s[i])
}

/// What `str::parse` for an unsigned integer reads: an optional `'+'`,
/// then one or more decimal digits; `None` when the text is not of that form.
pub open spec fn parse_unsigned(s: Seq<char>) -> Option<nat> {
    let d = if s.len() > 0 && s[0] == '+' {
        s.drop_first()
    } else {
        s
    };
    if d.len() > 0 && all_digits(d) {
        Some(digits_value(d))
    } else {
        None
    }
}

/// `str::parse::<u64>`: the value when it is well formed and fits in a `u64`.
pub open spec fn parse_u64_spec(s: Seq<char>) -> Option<u64> {
    match parse_unsigned(s) {
        Some(n) => if n <= u64::MAX {
            Some(n as u64)
        } else {
            None
        },
        None => None,
    }
}

pub proof fn lemma_digits_value_monotone(s: Seq<char>, j: int)
    requires
        0 <= j <= s.len(),
        all_digits(s),
    ensures
        digits_value(s.take(j)) <= digits_value(s),
    decreases s.len() - j,
{
    if j < s.len() {
        let t = s.drop_last();
        assert(all_digits(t)) by {
            assert forall|i: int| 0 <= i < t.len() implies is_digit(#[trigger] t[i]) by {
                assert(t[i] == s[i]);
            }
        }
        lemma_digits_value_monotone(t, j);
        assert(t.take(j) =~= s.take(j));
        assert(is_digit(s[s.len() - 1]));
    } else {
        assert(s.take(j) =~= s);
    }
}

/// Parses `v@.subrange(from, to)` as `str::parse::<u64>` does.
pub fn parse_u64(v: &Vec<char>, from: usize, to: usize) -> (res: Option<u64>)
    requires
        from <= to <= v@.len(),
    ensures
        res == parse_u64_spec(v@.subrange(from as int, to as int)),
{
    let ghost s = v@.subrange(from as int, to as int);
    let mut start = from;
    if start < to && v[start] == '+' {
        start = start + 1;
    }
    let ghost d = v@.subrange(start as int, to as int);
    assert(d == (if s.len() > 0 && s[0] == '+' { s.drop_first() } else { s }));
    if start == to {
        assert(d.len() == 0);
        assert(parse_unsigned(s) is None);
        return None;
    }
    let mut acc: u64 = 0;
    let mut i = start;
    while i < to
        invariant
            start <= i <= to,
            to <= v@.len(),
            start < to,
            from <= start,
            s == v@.subrange(from as int, to as int),
            d == v@.subrange(start as int, to as int),
            d == (if s.len() > 0 && s[0] == '+' { s.drop_first() } else { s }),
            all_digits(d.take(i - start)),
            acc as nat == digits_value(d.take(i - start)),
        decreases to - i,
    {
        let c = v[i];
        assert(d.take(i + 1 - start).drop_last() =~= d.take(i - start));
        if !char_is_digit(c) {
            assert(d[i - start] == c);
            assert(!all_digits(d));
            return None;
        }
        let dv: u64 = (c as u32 - 48) as u64;
        if acc > 1844674407370955161 || (acc == 1844674407370955161 && dv > 5) {
            proof {
                assert(digits_value(d.take(i + 1 - start)) > u64::MAX);
                if all_digits(d) {
                    lemma_digits_value_monotone(d, i + 1 - start);
                }
            }
            return None;
        }
        acc = acc * 10 + dv;
        assert(all_digits(d.take(i + 1 - start)));
        i = i + 1;
    }
    assert(d.take(to - start) =~= d);
    Some(acc)
}

} // verus!

verus! {

// ---------------------------------------------------------------------------
// Building strings and character vectors
// ---------------------------------------------------------------------------

/// An owned copy of `t`.
pub fn owned(t: &str) -> (s: String)
    ensures
        s@ == t@,
{
    t.to_string()
}

/// Appends the characters of `v` to `s`.
pub fn append_vec(s: &mut String, v: &Vec<char>)
    ensures
        final(s)@ == old(s)@ + v@,
{
    let mut i: usize = 0;
    while i < v.len()
        invariant
            0 <= i <= v@.len(),
            s@ == old(s)@ + v@.take(i as int),
        decreases v@.len() - i,
    {
        push_char(s, v[i]);
        assert(v@.take(i + 1) =~= v@.take(i as int).push(v@[i as int]));
        assert(old(s)@ + v@.take(i + 1) =~= (old(s)@ + v@.take(i as int)).push(v@[i as int]));
        i = i + 1;
    }
    assert(v@.take(v@.len() as int) =~= v@);
}

/// Appends the characters of `t` to `s` (`String::push_str`).
pub fn append(s: &mut String, t: &str)
    ensures
        final(s)@ == old(s)@ + t@,
{
    let v = chars_of(t);
    append_vec(s, &v);
}

/// The characters of `v@.subrange(from, to)` as a new vector.
pub fn sub_vec(v: &Vec<char>, from: usize, to: usize) -> (res: Vec<char>)
    requires
        from <= to <= v@.len(),
    ensures
        res@ == v@.subrange(from as int, to as int),
{
    let mut res: Vec<char> = Vec::new();
    let mut i = from;
    while i < to
        invariant
            from <= i <= to,
            to <= v@.len(),
            res@ == v@.subrange(from as int, i as int),
        decreases to - i,
    {
        res.push(v[i]);
        assert(v@.subrange(from as int, i + 1) =~= v@.subrange(from as int, i as int).push(v@[i as int]));
        i = i + 1;
    }
    res
}

/// The views of a sequence of character vectors.
pub open spec fn views(v: Seq<Vec<char>>) -> Seq<Seq<char>> {
    Seq::new(v.len(), |i: int| v[i]@)
}

/// The views of a sequence of strings.
pub open spec fn str_views(v: Seq<String>) -> Seq<Seq<char>> {
    Seq::new(v.len(), |i: int| v[i]@)
}

/// The lines of `s` (`str::lines`), each as a character vector.
pub fn lines_of(s: &Vec<char>) -> (res: Vec<Vec<char>>)
    ensures
        views(res@) == lines(s@),
{
    let r = line_ranges(s);
    let mut res: Vec<Vec<char>> = Vec::new();
    let mut k: usize = 0;
    while k < r.len()
        invariant
            0 <= k <= r@.len(),
            ranges_within(r@, s@.len() as int),
            views(res@) == ranges_view(s@, r@).take(k as int),
        decreases r@.len() - k,
    {
        let (a, b) = r[k];
        assert(r@[k as int].0 <= r@[k as int].1 <= s@.len());
        let l = sub_vec(s, a, b);
        let ghost old_res = res@;
        let ghost lv = l@;
        res.push(l);
        assert(views(res@) =~= views(old_res).push(lv));
        assert(ranges_view(s@, r@).take(k + 1) =~= ranges_view(s@, r@).take(k as int).push(
            ranges_view(s@, r@)[k as int],
        ));
        k = k + 1;
    }
    assert(ranges_view(s@, r@).take(r@.len() as int) =~= ranges_view(s@, r@));
    res
}

/// The words of `s` (`str::split_whitespace`), each as a character vector.
pub fn words_of(s: &Vec<char>) -> (res: Vec<Vec<char>>)
    ensures
        views(res@) == words(s@),
{
    let r = word_ranges(s, 0, s.len());
    assert(s@.subrange(0, s@.len() as int) =~= s@);
    let mut res: Vec<Vec<char>> = Vec::new();
    let mut k: usize = 0;
    while k < r.len()
        invariant
            0 <= k <= r@.len(),
            ranges_within(r@, s@.len() as int),
            views(res@) == ranges_view(s@, r@).take(k as int),
        decreases r@.len() - k,
    {
        let (a, b) = r[k];
        assert(r@[k as int].0 <= r@[k as int].1 <= s@.len());
        let l = sub_vec(s, a, b);
        let ghost old_res = res@;
        let ghost lv = l@;
        res.push(l);
        assert(views(res@) =~= views(old_res).push(lv));
        assert(ranges_view(s@, r@).take(k + 1) =~= ranges_view(s@, r@).take(k as int).push(
            ranges_view(s@, r@)[k as int],
        ));
        k = k + 1;
    }
    assert(ranges_view(s@, r@).take(r@.len() as int) =~= ranges_view(s@, r@));
    res
}

/// `v@` without leading and trailing whitespace, as a new vector.
pub fn trim_vec(v: &Vec<char>) -> (res: Vec<char>)
    ensures
        res@ == trim(v@),
{
    let (a, b) = trim_bounds(v, 0, v.len());
    assert(v@.subrange(0, v@.len() as int) =~= v@);
    sub_vec(v, a, b)
}

/// `str::split_once` at the first `c`: the text before it and after it.
pub open spec fn split_once(s: Seq<char>, c: char) -> Option<(Seq<char>, Seq<char>)> {
    match index_of(s, c) {
        Some(i) => Some((s.take(i), s.skip(i + 1))),
        None => None,
    }
}

pub proof fn lemma_index_of_from_bounds(s: Seq<char>, c: char, i: int)
    requires
        0 <= i,
    ensures
        index_of_from(s, c, i) matches Some(k) ==> i <= k < s.len() && s[k] == c
            && forall|j: int| i <= j < k ==> s[j] != c,
        index_of_from(s, c, i) is None ==> forall|j: int| i <= j < s.len() ==> s[j] != c,
    decreases s.len() - i,
{
    if i < s.len() && s[i] != c {
        lemma_index_of_from_bounds(s, c, i + 1);
    }
}

/// `v@` split at its first `c`.
pub fn split_once_vec(v: &Vec<char>, c: char) -> (res: Option<(Vec<char>, Vec<char>)>)
    ensures
        match res {
            Some((a, b)) => split_once(v@, c) == Some((a@, b@)),
            None => split_once(v@, c) is None,
        },
{
    match index_of_char(v, c) {
        Some(i) => {
            let n = v.len();
            assert(i < n);
            let a = sub_vec(v, 0, i);
            let b = sub_vec(v, i + 1, n);
            assert(a@ =~= v@.take(i as int));
            assert(b@ =~= v@.skip(i + 1));
            Some((a, b))
        },
        None => None,
    }
}

/// Whether `v@ == t@`.
pub fn vec_eq_str(v: &Vec<char>, t: &str) -> (res: bool)
    ensures
        res == (v@ == t@),
{
    let w = chars_of(t);
    vec_eq(v, &w)
}

/// Whether `pat` occurs in `s`.
pub open spec fn contains(s: Seq<char>, pat: Seq<char>) -> bool {
    find(s, pat) is Some
}

/// Whether `t@` occurs in `v@` (`str::contains`).
pub fn vec_contains_str(v: &Vec<char>, t: &str) -> (res: bool)
    ensures
        res == contains(v@, t@),
{
    let w = chars_of(t);
    find_seq(v, &w).is_some()
}

/// Whether `s` begins with `p` (`str::starts_with`).
pub open spec fn starts_with(s: Seq<char>, p: Seq<char>) -> bool {
    p.len() <= s.len() && s.take(p.len() as int) == p
}

/// Whether `s` ends with `p` (`str::ends_with`).
pub open spec fn ends_with(s: Seq<char>, p: Seq<char>) -> bool {
    p.len() <= s.len() && s.skip(s.len() - p.len()) == p
}

/// Whether `v` starts with the characters of `t`.
pub fn vec_starts_with(v: &Vec<char>, t: &str) -> (res: bool)
    ensures
        res == starts_with(v@, t@),
{
    let w = chars_of(t);
    if w.len() > v.len() {
        return false;
    }
    let r = matches_at(v, &w, 0);
    assert(v@.subrange(0, w@.len() as int) =~= v@.take(w@.len() as int));
    r
}

/// Whether `v` ends with the characters of `t`.
pub fn vec_ends_with(v: &Vec<char>, t: &str) -> (res: bool)
    ensures
        res == ends_with(v@, t@),
{
    let w = chars_of(t);
    if w.len() > v.len() {
        return false;
    }
    let i = v.len() - w.len();
    let r = matches_at(v, &w, i);
    assert(v@.subrange(i as int, i + w@.len()) =~= v@.skip(v@.len() - w@.len()));
    r
}

pub proof fn lemma_trim_start_len(s: Seq<char>)
    ensures
        trim_start(s).len() <= s.len(),
    decreases s.len(),
{
    if s.len() > 0 {
        lemma_trim_start_len(s.drop_first());
    }
}

pub proof fn lemma_trim_end_len(s: Seq<char>)
    ensures
        trim_end(s).len() <= s.len(),
    decreases s.len(),
{
    if s.len() > 0 {
        lemma_trim_end_len(s.drop_last());
    }
}

/// Trimming never lengthens a sequence.
pub proof fn lemma_trim_len(s: Seq<char>)
    ensures
        trim(s).len() <= s.len(),
{
    lemma_trim_start_len(s);
    lemma_trim_end_len(trim_start(s));
}

/// The sequences `ws` joined with `sep` between neighbours (`slice::join`).
pub open spec fn join(ws: Seq<Seq<char>>, sep: Seq<char>) -> Seq<char>
    decreases ws.len(),
{
    if ws.len() == 0 {
        Seq::empty()
    } else if ws.len() == 1 {
        ws[0]
    } else {
        join(ws.drop_last(), sep) + sep + ws.last()
    }
}

/// The vectors `ws` joined with `sep`.
pub fn join_vecs(ws: &Vec<Vec<char>>, sep: &str) -> (res: Vec<char>)
    ensures
        res@ == join(views(ws@), sep@),
{
    let sv = chars_of(sep);
    let mut res: Vec<char> = Vec::new();
    let mut k: usize = 0;
    while k < ws.len()
        invariant
            0 <= k <= ws@.len(),
            sv@ == sep@,
            res@ == join(views(ws@).take(k as int), sep@),
        decreases ws@.len() - k,
    {
        let ghost pre = views(ws@).take(k + 1);
        assert(pre.drop_last() =~= views(ws@).take(k as int));
        if k > 0 {
            let mut j: usize = 0;
            let ghost base = res@;
            while j < sv.len()
                invariant
                    0 <= j <= sv@.len(),
                    res@ == base + sv@.take(j as int),
                decreases sv@.len() - j,
            {
                res.push(sv[j]);
                assert(sv@.take(j + 1) =~= sv@.take(j as int).push(sv@[j as int]));
                assert(base + sv@.take(j + 1) =~= (base + sv@.take(j as int)).push(sv@[j as int]));
                j = j + 1;
            }
            assert(sv@.take(sv@.len() as int) =~= sv@);
        }
        let w = &ws[k];
        let mut j: usize = 0;
        let ghost base2 = res@;
        while j < w.len()
            invariant
                0 <= j <= w@.len(),
                res@ == base2 + w@.take(j as int),
            decreases w@.len() - j,
        {
            res.push(w[j]);
            assert(w@.take(j + 1) =~= w@.take(j as int).push(w@[j as int]));
            assert(base2 + w@.take(j + 1) =~= (base2 + w@.take(j as int)).push(w@[j as int]));
            j = j + 1;
        }
        assert(w@.take(w@.len() as int) =~= w@);
        assert(pre.last() == w@);
        if k == 0 {
            assert(res@ =~= join(pre, sep@));
        }
        k = k + 1;
    }
    assert(views(ws@).take(ws@.len() as int) =~= views(ws@));
    res
}

/// `str::split_once` at the first occurrence of `pat`.
pub open spec fn split_once_seq(s: Seq<char>, pat: Seq<char>) -> Option<(Seq<char>, Seq<char>)> {
    match find(s, pat) {
        Some(i) => Some((s.take(i), s.skip(i + pat.len()))),
        None => None,
    }
}

/// `v` split at the first occurrence of `pat`, without it.
pub fn split_once_str(v: &Vec<char>, pat: &str) -> (res: Option<(Vec<char>, Vec<char>)>)
    ensures
        match res {
            Some((a, b)) => split_once_seq(v@, pat@) == Some((a@, b@)),
            None => split_once_seq(v@, pat@) is None,
        },
{
    let pv = chars_of(pat);
    match find_seq(v, &pv) {
        Some(i) => {
            let n = v.len();
            let a = sub_vec(v, 0, i);
            let b = sub_vec(v, i + pv.len(), n);
            assert(a@ =~= v@.take(i as int));
            assert(b@ =~= v@.skip(i + pv@.len()));
            Some((a, b))
        },
        None => None,
    }
}

/// The first `n` characters of `v@` (`chars().take(n)`).
pub fn take_vec(v: &Vec<char>, n: usize) -> (res: Vec<char>)
    ensures
        res@ == (if v@.len() <= n {
            v@
        } else {
            v@.take(n as int)
        }),
{
    if v.len() <= n {
        let r = sub_vec(v, 0, v.len());
        assert(r@ =~= v@);
        r
    } else {
        let r = sub_vec(v, 0, n);
        assert(r@ =~= v@.take(n as int));
        r
    }
}

/// `a` followed by `b`.
pub fn cat2(a: &str, b: &str) -> (res: String)
    ensures
        res@ == a@ + b@,
{
    let mut s = owned(a);
    append(&mut s, b);
    s
}

/// `a`, `b` and `c` in order.
pub fn cat3(a: &str, b: &str, c: &str) -> (res: String)
    ensures
        res@ == a@ + b@ + c@,
{
    let mut s = owned(a);
    append(&mut s, b);
    append(&mut s, c);
    s
}

/// `a` to `e` in order.
pub fn cat5(a: &str, b: &str, c: &str, d: &str, e: &str) -> (res: String)
    ensures
        res@ == a@ + b@ + c@ + d@ + e@,
{
    let mut s = owned(a);
    append(&mut s, b);
    append(&mut s, c);
    append(&mut s, d);
    append(&mut s, e);
    s
}

/// Whether `v@` is empty or all whitespace (`str::trim().is_empty()`).
pub fn is_blank(s: &str) -> (res: bool)
    ensures
        res == (trim(s@).len() == 0),
{
    let v = chars_of(s);
    let t = trim_vec(&v);
    t.len() == 0
}

/// Whether `s@ == t@`.
pub fn eq_str(s: &str, t: &str) -> (res: bool)
    ensures
        res == (s@ == t@),
{
    str_eq(s, t)
}

/// Whether `s` equals `t` ignoring ASCII case (`str::eq_ignore_ascii_case`).
pub fn eq_ignore_case_str(s: &str, t: &str) -> (res: bool)
    ensures
        res == eq_ignore_case(s@, t@),
{
    let a = chars_of(s);
    let b = chars_of(t);
    let r = range_eq_ignore_case(&a, 0, a.len(), &b);
    assert(a@.subrange(0, a@.len() as int) =~= a@);
    r
}

/// The ASCII lower-case form of `s` (`str::to_ascii_lowercase`).
pub fn to_lower(s: &str) -> (res: String)
    ensures
        res@ == lower_seq(s@),
{
    let v = chars_of(s);
    let l = lower_vec(&v);
    string_from(&l)
}

/// Whether `s` contains `t` (`str::contains`).
pub fn str_contains(s: &str, t: &str) -> (res: bool)
    ensures
        res == contains(s@, t@),
{
    let v = chars_of(s);
    vec_contains_str(&v, t)
}

/// Whether `s` begins with `t` (`str::starts_with`).
pub fn str_starts_with(s: &str, t: &str) -> (res: bool)
    ensures
        res == starts_with(s@, t@),
{
    let v = chars_of(s);
    vec_starts_with(&v, t)
}

/// Whether `s` ends with `t` (`str::ends_with`).
pub fn str_ends_with(s: &str, t: &str) -> (res: bool)
    ensures
        res == ends_with(s@, t@),
{
    let v = chars_of(s);
    vec_ends_with(&v, t)
}

/// Whether `v@` begins with `w@`.
pub fn vec_starts_with_vec(v: &Vec<char>, w: &Vec<char>) -> (res: bool)
    ensures
        res == starts_with(v@, w@),
{
    if w.len() > v.len() {
        return false;
    }
    let r = matches_at(v, w, 0);
    assert(v@.subrange(0, w@.len() as int) =~= v@.take(w@.len() as int));
    r
}

// ---------------------------------------------------------------------------
// First element satisfying a predicate
// ---------------------------------------------------------------------------

/// The index of the first element of `s` for which `p` holds (`Iterator::find`).
pub open spec fn first_where<A>(s: Seq<A>, p: spec_fn(A) -> bool) -> Option<int>
    decreases s.len(),
{
    if s.len() == 0 {
        None
    } else if p(s[0]) {
        Some(0)
    } else {
        match first_where(s.drop_first(), p) {
            Some(i) => Some(i + 1),
            None => None,
        }
    }
}

/// `first_where` is `i` when `p` fails before `i` and holds at `i`.
pub proof fn lemma_first_where_at<A>(s: Seq<A>, p: spec_fn(A) -> bool, i: int)
    requires
        0 <= i < s.len(),
        p(s[i]),
        forall|j: int| 0 <= j < i ==> !p(#[trigger] s[j]),
    ensures
        first_where(s, p) == Some(i),
    decreases i,
{
    if i > 0 {
        let t = s.drop_first();
        assert forall|j: int| 0 <= j < i - 1 implies !p(#[trigger] t[j]) by {
            assert(t[j] == s[j + 1]);
        }
        assert(t[i - 1] == s[i]);
        lemma_first_where_at(t, p, i - 1);
    }
}

/// `first_where` is `None` when `p` holds nowhere.
pub proof fn lemma_first_where_none<A>(s: Seq<A>, p: spec_fn(A) -> bool)
    requires
        forall|j: int| 0 <= j < s.len() ==> !p(#[trigger] s[j]),
    ensures
        first_where(s, p) is None,
    decreases s.len(),
{
    if s.len() > 0 {
        let t = s.drop_first();
        assert forall|j: int| 0 <= j < t.len() implies !p(#[trigger] t[j]) by {
            assert(t[j] == s[j + 1]);
        }
        lemma_first_where_none(t, p);
    }
}

/// The index that `first_where` gives satisfies `p`, and no earlier one does.
pub proof fn lemma_first_where_some<A>(s: Seq<A>, p: spec_fn(A) -> bool)
    ensures
        first_where(s, p) matches Some(i) ==> 0 <= i < s.len() && p(s[i]) && forall|j: int|
            0 <= j < i ==> !p(#[trigger] s[j]),
    decreases s.len(),
{
    if s.len() > 0 && !p(s[0]) {
        let t = s.drop_first();
        lemma_first_where_some(t, p);
        if let Some(k) = first_where(t, p) {
            assert forall|j: int| 0 <= j < k + 1 implies !p(#[trigger] s[j]) by {
                if j > 0 {
                    assert(s[j] == t[j - 1]);
                }
            }
        }
    }
}

/// The number of elements of `s` for which `p` holds.
pub open spec fn count_where<A>(s: Seq<A>, p: spec_fn(A) -> bool) -> nat
    decreases s.len(),
{
    if s.len() == 0 {
        0
    } else {
        count_where(s.drop_last(), p) + if p(s.last()) {
            1nat
        } else {
            0nat
        }
    }
}

/// `s` with every `a` replaced by `b` (`str::replace` of one character).
pub open spec fn replace_char(s: Seq<char>, a: char, b: char) -> Seq<char> {
    Seq::new(s.len(), |i: int| if s[i] == a { b } else { s[i] })
}

/// `s` with every `a` replaced by `b`.
pub fn replace_char_str(s: &str, a: char, b: char) -> (res: Vec<char>)
    ensures
        res@ == replace_char(s@, a, b),
{
    let v = chars_of(s);
    let mut res: Vec<char> = Vec::new();
    let mut i: usize = 0;
    while i < v.len()
        invariant
            0 <= i <= v@.len(),
            v@ == s@,
            res@ == replace_char(s@, a, b).take(i as int),
        decreases v@.len() - i,
    {
        res.push(if v[i] == a { b } else { v[i] });
        assert(res@ =~= replace_char(s@, a, b).take(i + 1));
        i = i + 1;
    }
    assert(replace_char(s@, a, b).take(v@.len() as int) =~= replace_char(s@, a, b));
    res
}

proof fn lemma_trim_start_idem(s: Seq<char>)
    ensures
        trim_start(trim_start(s)) == trim_start(s),
        trim_start(s).len() > 0 ==> !is_ws(trim_start(s)[0]),
    decreases s.len(),
{
    if s.len() > 0 && is_ws(s[0]) {
        lemma_trim_start_idem(s.drop_first());
    }
}

proof fn lemma_trim_end_idem(s: Seq<char>)
    ensures
        trim_end(trim_end(s)) == trim_end(s),
        trim_end(s).len() > 0 ==> !is_ws(trim_end(s).last()),
    decreases s.len(),
{
    if s.len() > 0 && is_ws(s.last()) {
        lemma_trim_end_idem(s.drop_last());
    }
}

proof fn lemma_trim_end_keeps_start(s: Seq<char>)
    requires
        s.len() > 0 ==> !is_ws(s[0]),
    ensures
        trim_end(s).len() > 0 ==> !is_ws(trim_end(s)[0]),
        trim_start(trim_end(s)) == trim_end(s),
    decreases s.len(),
{
    if s.len() > 0 && is_ws(s.last()) {
        if s.len() > 1 {
            assert(s.drop_last()[0] == s[0]);
        }
        lemma_trim_end_keeps_start(s.drop_last());
    }
}

/// Trimming twice is trimming once.
pub proof fn lemma_trim_idempotent(s: Seq<char>)
    ensures
        trim(trim(s)) == trim(s),
{
    lemma_trim_start_idem(s);
    let a = trim_start(s);
    lemma_trim_end_keeps_start(a);
    let b = trim_end(a);
    lemma_trim_end_idem(a);
    assert(trim(b) == trim_end(trim_start(b)));
}

/// Appends `w@` to `v`.
pub fn append_vec_vec(v: &mut Vec<char>, w: &Vec<char>)
    ensures
        final(v)@ == old(v)@ + w@,
{
    let mut i: usize = 0;
    while i < w.len()
        invariant
            0 <= i <= w@.len(),
            v@ == old(v)@ + w@.take(i as int),
        decreases w@.len() - i,
    {
        v.push(w[i]);
        assert(w@.take(i + 1) =~= w@.take(i as int).push(w@[i as int]));
        assert(old(v)@ + w@.take(i + 1) =~= (old(v)@ + w@.take(i as int)).push(w@[i as int]));
        i = i + 1;
    }
    assert(w@.take(w@.len() as int) =~= w@);
}

/// Whether a word is what `parse_unsigned` accepts (an optional `+`, then digits).
pub fn all_digits_of_word(w: &Vec<char>) -> (res: bool)
    ensures
        res == (parse_unsigned(w@) is Some),
{
    let n = w.len();
    let start: usize = if n > 0 && w[0] == '+' { 1 } else { 0 };
    let ghost d = if w@.len() > 0 && w@[0] == '+' { w@.drop_first() } else { w@ };
    assert(d =~= w@.subrange(start as int, n as int));
    if start == n {
        return false;
    }
    let mut i = start;
    while i < n
        invariant
            start <= i <= n,
            n == w@.len(),
            d == w@.subrange(start as int, n as int),
            d == (if w@.len() > 0 && w@[0] == '+' { w@.drop_first() } else { w@ }),
            forall|j: int| start <= j < i ==> is_digit(#[trigger] w@[j]),
        decreases n - i,
    {
        if !char_is_digit(w[i]) {
            assert(d[i - start] == w@[i as int]);
            return false;
        }
        i = i + 1;
    }
    assert forall|j: int| 0 <= j < d.len() implies is_digit(#[trigger] d[j]) by {
        assert(d[j] == w@[start + j]);
    }
    true
}


/// A text that neither starts nor ends with whitespace is its own trim.
pub proof fn lemma_trim_unchanged(s: Seq<char>)
    requires
        s.len() > 0,
        !is_ws(s[0]),
        !is_ws(s.last()),
    ensures
        trim(s) == s,
{
    lemma_trim_start_at(s, 0);
    assert(s.subrange(0, s.len() as int) =~= s);
    lemma_trim_end_at(s, s.len() as int);
}

/// `find_from` answers the first occurrence of `pat` at or after `i`.
pub proof fn lemma_find_from_at(s: Seq<char>, pat: Seq<char>, i: int, k: int)
    requires
        0 <= i <= k,
        k + pat.len() <= s.len(),
        s.subrange(k, k + pat.len()) == pat,
        forall|j: int| i <= j < k ==> #[trigger] s.subrange(j, j + pat.len()) != pat,
    ensures
        find_from(s, pat, i) == Some(k),
    decreases k - i,
{
    if i < k {
        lemma_find_from_at(s, pat, i + 1, k);
    }
}

/// `index_of_from` answers the first `c` at or after `i`.
pub proof fn lemma_index_of_from_at(s: Seq<char>, c: char, i: int, k: int)
    requires
        0 <= i <= k < s.len(),
        s[k] == c,
        forall|j: int| i <= j < k ==> s[j] != c,
    ensures
        index_of_from(s, c, i) == Some(k),
    decreases k - i,
{
    if i < k {
        lemma_index_of_from_at(s, c, i + 1, k);
    }
}

/// The decimal rendering of `n` is a non-empty run of digits whose value
/// is `n`.
pub proof fn lemma_decimal_value(n: nat)
    ensures
        decimal(n).len() > 0,
        all_digits(decimal(n)),
        digits_value(decimal(n)) == n,
    decreases n,
{
    let r = (n % 10) as int;
    assert(digit_value(digit_char(r)) == r);
    if n < 10 {
        assert(decimal(n).drop_last() =~= Seq::<char>::empty());
        assert(decimal(n).last() == digit_char(r));
        assert(r == n);
        assert(digits_value(Seq::<char>::empty()) == 0);
        assert(digits_value(decimal(n)) == digits_value(decimal(n).drop_last()) * 10 + digit_value(decimal(n).last()));
    } else {
        lemma_decimal_value(n / 10);
        let p = decimal(n / 10);
        let d = decimal(n);
        assert(d.drop_last() =~= p);
        assert(d.last() == digit_char(r));
        assert(digits_value(d) == digits_value(p) * 10 + digit_value(d.last()));
        assert((n / 10) * 10 + r == n);
        assert(digits_value(d) == n);
        assert forall|i: int| 0 <= i < d.len() implies is_digit(#[trigger] d[i]) by {
            if i < p.len() {
                assert(d[i] == p[i]);
            }
        }
    }
}

} // verus!
