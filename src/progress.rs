//! Progress markers inside a workload's log (`ALF_PROGRESS <n>%`) and the
//! linear estimate of the time that remains.

use vstd::prelude::*;

verus! {

/// Unicode white space, as `char::is_whitespace` decides it.
pub open spec fn is_space(c: char) -> bool {
    let u = c as u32;
    (0x09 <= u && u <= 0x0d) || u == 0x20 || u == 0x85 || u == 0xa0 || u == 0x1680 || (0x2000 <= u
        && u <= 0x200a) || u == 0x2028 || u == 0x2029 || u == 0x202f || u == 0x205f || u == 0x3000
}

/// Index of the first character at or after `i` that is not white space, or
/// the length of `s`.
pub open spec fn next_non_space(s: Seq<char>, i: int) -> int
    decreases s.len() - i,
{
    if 0 <= i < s.len() && is_space(s[i]) {
        next_non_space(s, i + 1)
    } else {
        i
    }
}

/// Index of the first white-space character at or after `i`, or the length
/// of `s`.
pub open spec fn next_space(s: Seq<char>, i: int) -> int
    decreases s.len() - i,
{
    if 0 <= i < s.len() && !is_space(s[i]) {
        next_space(s, i + 1)
    } else {
        i
    }
}

/// The second white-space-delimited token of `s`, if there is one.
pub open spec fn second_token(s: Seq<char>) -> Option<Seq<char>> {
    let first_start = next_non_space(s, 0);
    let first_end = next_space(s, first_start);
    let start = next_non_space(s, first_end);
    if start >= s.len() {
        None
    } else {
        Some(s.subrange(start, next_space(s, start)))
    }
}

/// `t` without the `%` signs at its end.
pub open spec fn trim_percent(t: Seq<char>) -> Seq<char>
    decreases t.len(),
{
    if t.len() > 0 && t.last() == '%' {
        trim_percent(t.drop_last())
    } else {
        t
    }
}

pub open spec fn is_digit(c: char) -> bool {
    '0' <= c && c <= '9'
}

pub open spec fn all_digits(d: Seq<char>) -> bool {
    forall|i: int| 0 <= i < d.len() ==> is_digit(#[trigger] d[i])
}

/// `t` opens with a minus sign.
pub open spec fn negative_sign(t: Seq<char>) -> bool {
    t.len() > 0 && t[0] == '-'
}

/// `t` without one leading sign (`+` or `-`).
pub open spec fn magnitude_part(t: Seq<char>) -> Seq<char> {
    if t.len() > 0 && (t[0] == '+' || t[0] == '-') {
        t.skip(1)
    } else {
        t
    }
}

/// Decimal value of a run of digits.
pub open spec fn digits_value(d: Seq<char>) -> nat
    decreases d.len(),
{
    if d.len() == 0 {
        0
    } else {
        digits_value(d.drop_last()) * 10 + (d.last() as nat - '0' as nat) as nat
    }
}

/// An integer written in decimal: an optional sign, then one digit or
/// more.
pub open spec fn parse_integer(t: Seq<char>) -> Option<int> {
    let d = magnitude_part(t);
    if d.len() > 0 && all_digits(d) {
        Some(
            if negative_sign(t) {
                -(digits_value(d) as int)
            } else {
                digits_value(d) as int
            },
        )
    } else {
        None
    }
}

/// `n` brought into `[0, 100]`.
pub open spec fn clamp_percent(n: int) -> u16 {
    if n < 0 {
        0
    } else if n > 100 {
        100
    } else {
        n as u16
    }
}

/// The marker that opens a progress line.
pub open spec fn progress_marker() -> Seq<char> {
    "ALF_PROGRESS"@
}

/// The first white-space-delimited token of `line` is exactly the marker.
pub open spec fn opens_with_marker(line: Seq<char>) -> bool {
    let m = progress_marker();
    &&& line.len() >= m.len()
    &&& line.subrange(0, m.len() as int) == m
    &&& (line.len() == m.len() || is_space(line[m.len() as int]))
}

/// The percentage that a log line reports: the line's first token is
/// `ALF_PROGRESS`, its second token with its trailing `%` removed is an
/// integer, and that integer is brought into `[0, 100]`.
pub open spec fn alf_progress(line: Seq<char>) -> Option<u16> {
    if opens_with_marker(line) {
        match second_token(line) {
            Some(t) => match parse_integer(trim_percent(t)) {
                Some(n) => Some(clamp_percent(n)),
                None => None,
            },
            None => None,
        }
    } else {
        None
    }
}

/// The percentage of the last line of `lines` that reports one.
pub open spec fn latest_progress(lines: Seq<Seq<char>>) -> Option<u16>
    decreases lines.len(),
{
    if lines.len() == 0 {
        None
    } else {
        match alf_progress(lines.last()) {
            Some(p) => Some(p),
            None => latest_progress(lines.drop_last()),
        }
    }
}

/// A line that does not open with the marker reports nothing, and a
/// reported percentage never exceeds 100.
pub proof fn lemma_progress_lines(line: Seq<char>)
    ensures
        !opens_with_marker(line) ==> alf_progress(line) is None,
        alf_progress(line) matches Some(p) ==> p <= 100,
{
}

/// Character sequences of a list of strings (the lines of a log, the names
/// of jobs).
pub open spec fn string_views(lines: Seq<String>) -> Seq<Seq<char>> {
    lines.map_values(|l: String| l@)
}

pub fn is_space_char(c: char) -> (r: bool)
    ensures
        r == is_space(c),
{
    let u = c as u32;
    (0x09 <= u && u <= 0x0d) || u == 0x20 || u == 0x85 || u == 0xa0 || u == 0x1680 || (0x2000 <= u
        && u <= 0x200a) || u == 0x2028 || u == 0x2029 || u == 0x202f || u == 0x205f || u == 0x3000
}

/// Whether `s` begins with `prefix`.
pub fn starts_with(s: &str, prefix: &str) -> (r: bool)
    ensures
        r == (prefix@.len() <= s@.len() && s@.subrange(0, prefix@.len() as int) == prefix@),
{
    let n = s.unicode_len();
    let m = prefix.unicode_len();
    if m > n {
        return false;
    }
    let mut i: usize = 0;
    while i < m
        invariant
            n == s@.len(),
            m == prefix@.len(),
            m <= n,
            i <= m,
            s@.subrange(0, i as int) == prefix@.subrange(0, i as int),
        decreases m - i,
    {
        if s.get_char(i) != prefix.get_char(i) {
            assert(s@.subrange(0, m as int)[i as int] != prefix@[i as int]);
            return false;
        }
        assert(s@.subrange(0, i + 1) == s@.subrange(0, i as int).push(s@[i as int]));
        assert(prefix@.subrange(0, i + 1) == prefix@.subrange(0, i as int).push(prefix@[i as int]));
        i = i + 1;
    }
    assert(prefix@.subrange(0, m as int) == prefix@);
    true
}

/// Reads the characters `start..end` of `s` as an integer and brings it
/// into `[0, 100]`.
fn percent_at(s: &str, start: usize, end: usize) -> (r: Option<u16>)
    requires
        start <= end <= s@.len(),
    ensures
        r == match parse_integer(s@.subrange(start as int, end as int)) {
            Some(n) => Some(clamp_percent(n)),
            None => None,
        },
{
    let ghost t = s@.subrange(start as int, end as int);
    let mut i = start;
    let mut negative = false;
    if start < end {
        let c = s.get_char(start);
        if c == '+' || c == '-' {
            negative = c == '-';
            i = start + 1;
        }
    }
    let ghost d = s@.subrange(i as int, end as int);
    assert(d == magnitude_part(t));
    assert(negative == negative_sign(t));
    if i == end {
        return None;
    }
    // the value read so far, where it is below 101, else 101
    let mut v: u32 = 0;
    let mut j = i;
    while j < end
        invariant
            start <= i <= j <= end <= s@.len(),
            t == s@.subrange(start as int, end as int),
            d == s@.subrange(i as int, end as int),
            d == magnitude_part(t),
            forall|k: int| 0 <= k < j - i ==> is_digit(#[trigger] d[k]),
            v == if digits_value(d.subrange(0, j - i)) <= 101 {
                digits_value(d.subrange(0, j - i))
            } else {
                101
            },
        decreases end - j,
    {
        let c = s.get_char(j);
        if !('0' <= c && c <= '9') {
            assert(d[j - i] == c);
            assert(!is_digit(d[j - i]));
            return None;
        }
        let ghost p = d.subrange(0, j - i + 1);
        assert(p.drop_last() == d.subrange(0, j - i));
        assert(p.last() == c);
        v = v * 10 + (c as u32 - '0' as u32);
        if v > 101 {
            v = 101;
        }
        j = j + 1;
    }
    assert(d.subrange(0, end - i) == d);
    if negative {
        Some(0)
    } else if v > 100 {
        Some(100)
    } else {
        Some(v as u16)
    }
}

/// Parses a progress line: `ALF_PROGRESS 57% done` reports 57; a number
/// above 100 reports 100 and one below 0 reports 0; any other shape reports
/// nothing.
pub fn parse_alf_progress(line: &str) -> (r: Option<u16>)
    ensures
        r == alf_progress(line@),
{
    let marker = "ALF_PROGRESS";
    if !starts_with(line, marker) {
        return None;
    }
    let m = marker.unicode_len();
    let n = line.unicode_len();
    if n > m && !is_space_char(line.get_char(m)) {
        return None;
    }
    let mut i: usize = 0;
    while i < n && is_space_char(line.get_char(i))
        invariant
            n == line@.len(),
            i <= n,
            next_non_space(line@, i as int) == next_non_space(line@, 0),
        decreases n - i,
    {
        i = i + 1;
    }
    while i < n && !is_space_char(line.get_char(i))
        invariant
            n == line@.len(),
            i <= n,
            next_space(line@, i as int) == next_space(line@, next_non_space(line@, 0)),
        decreases n - i,
    {
        i = i + 1;
    }
    let ghost first_end = i as int;
    while i < n && is_space_char(line.get_char(i))
        invariant
            n == line@.len(),
            i <= n,
            next_non_space(line@, i as int) == next_non_space(line@, first_end),
        decreases n - i,
    {
        i = i + 1;
    }
    if i >= n {
        return None;
    }
    let start = i;
    while i < n && !is_space_char(line.get_char(i))
        invariant
            n == line@.len(),
            start <= i <= n,
            next_space(line@, i as int) == next_space(line@, start as int),
        decreases n - i,
    {
        i = i + 1;
    }
    let mut end = i;
    let ghost token = line@.subrange(start as int, i as int);
    while end > start && line.get_char(end - 1) == '%'
        invariant
            start <= end <= i <= n,
            n == line@.len(),
            trim_percent(line@.subrange(start as int, end as int)) == trim_percent(token),
        decreases end,
    {
        let ghost t = line@.subrange(start as int, end as int);
        assert(t.drop_last() == line@.subrange(start as int, end - 1));
        end = end - 1;
    }
    let ghost t = line@.subrange(start as int, end as int);
    assert(trim_percent(t) == t);
    percent_at(line, start, end)
}

/// The percentage of the last line of the log that reports one.
pub fn latest_alf_progress(lines: &[String]) -> (r: Option<u16>)
    ensures
        r == latest_progress(string_views(lines@)),
{
    let mut i = lines.len();
    assert(lines@.subrange(0, i as int) == lines@);
    while i > 0
        invariant
            i <= lines@.len(),
            latest_progress(string_views(lines@)) == latest_progress(
                string_views(lines@.subrange(0, i as int)),
            ),
        decreases i,
    {
        let ghost pre = string_views(lines@.subrange(0, i as int));
        assert(pre.last() == lines@[i - 1]@);
        assert(pre.drop_last() == string_views(lines@.subrange(0, i - 1)));
        let p = parse_alf_progress(lines[i - 1].as_str());
        if p.is_some() {
            return p;
        }
        i = i - 1;
    }
    assert(string_views(lines@.subrange(0, 0)).len() == 0);
    None
}

/// `n / d` rounded to the nearest integer, halves away from zero (`d > 0`).
pub open spec fn rounded_quotient(n: int, d: int) -> int {
    if n >= 0 {
        (2 * n + d) / (2 * d)
    } else {
        -((2 * (-n) + d) / (2 * d))
    }
}

/// Seconds left by linear extrapolation: after `elapsed` seconds at `pct`
/// percent the whole run takes `elapsed / (pct / 100)`, and what remains is
/// that total less `elapsed`, to the nearest second. A percentage below 1 or
/// of 100 and more leaves nothing to estimate: zero.
pub open spec fn eta_spec(pct: int, elapsed: int) -> int {
    if pct >= 100 || pct < 1 {
        0
    } else {
        rounded_quotient(elapsed * (100 - pct), pct)
    }
}

/// With no progress yet (below 1 percent) or with the run complete (100
/// percent or more) the estimate is zero, whatever the elapsed time; half
/// way through after 100 seconds, 100 seconds are left.
pub proof fn lemma_eta_edges(pct: int, elapsed: int)
    ensures
        pct < 1 ==> eta_spec(pct, elapsed) == 0,
        pct >= 100 ==> eta_spec(pct, elapsed) == 0,
        eta_spec(50, 100) == 100,
{
    assert((2 * (100 * 50) + 50) / (2 * 50) == 100) by (nonlinear_arith);
}

/// Estimated seconds left of a run that reports `pct` percent after
/// `elapsed` seconds.
pub fn eta_seconds(pct: u16, elapsed: i64) -> (r: i128)
    ensures
        r == eta_spec(pct as int, elapsed as int),
        elapsed >= 0 ==> 0 <= r <= 99 * elapsed + 1,
        elapsed < 0 ==> 99 * elapsed - 1 <= r <= 0,
{
    if pct >= 100 || pct < 1 {
        return 0;
    }
    let p = pct as i128;
    let e = elapsed as i128;
    let q = 100 - p;
    assert(-99 * 0x8000_0000_0000_0000 <= e * q <= 99 * 0x8000_0000_0000_0000) by (nonlinear_arith)
        requires
            1 <= q <= 99,
            -0x8000_0000_0000_0000 <= e <= 0x8000_0000_0000_0000,
    ;
    let n: i128 = e * q;
    if n >= 0 {
        let r = (2 * n + p) / (2 * p);
        assert(0 <= r <= 99 * e + 1) by (nonlinear_arith)
            requires
                n == e * (100 - p),
                1 <= p <= 99,
                n >= 0,
                -0x8000_0000_0000_0000 <= e <= 0x8000_0000_0000_0000,
                r == (2 * n + p) / (2 * p),
        {
            assert(e >= 0);
            assert(r * (2 * p) <= 2 * n + p);
        }
        r
    } else {
        let r = -((2 * (-n) + p) / (2 * p));
        assert(99 * e - 1 <= r <= 0) by (nonlinear_arith)
            requires
                n == e * (100 - p),
                1 <= p <= 99,
                n < 0,
                -0x8000_0000_0000_0000 <= e <= 0x8000_0000_0000_0000,
                r == -((2 * (-n) + p) / (2 * p)),
        {
            assert(e < 0);
            assert((-r) * (2 * p) <= 2 * (-n) + p);
        }
        r
    }
}

} // verus!
