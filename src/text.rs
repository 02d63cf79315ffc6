//! Character-level reading of text: whitespace, trimming, lines, fields and decimal
//! numerals.
use vstd::prelude::*;

verus! {

// ---------------------------------------------------------------------------
// Characters

/// Whitespace in the sense of Unicode's `White_Space` property.
pub open spec fn is_white_space(c: char) -> bool {
    let n = c as u32;
    n == 0x20 || (0x09 <= n && n <= 0x0d) || n == 0x85 || n == 0xa0 || n == 0x1680 || (0x2000
        <= n && n <= 0x200a) || n == 0x2028 || n == 0x2029 || n == 0x202f || n == 0x205f || n
        == 0x3000
}

/// Whether `c` is whitespace.
pub fn white_space(c: char) -> (r: bool)
    ensures
        r == is_white_space(c),
{
    let n = c as u32;
    n == 0x20 || (0x09 <= n && n <= 0x0d) || n == 0x85 || n == 0xa0 || n == 0x1680 || (0x2000
        <= n && n <= 0x200a) || n == 0x2028 || n == 0x2029 || n == 0x202f || n == 0x205f || n
        == 0x3000
}

/// One of the ASCII digits `0` to `9`.
pub open spec fn is_ascii_digit(c: char) -> bool {
    0x30 <= (c as u32) && (c as u32) <= 0x39
}

/// Value of an ASCII digit.
pub open spec fn digit_value(c: char) -> int {
    (c as u32) - 0x30
}

/// The characters of a string, one by one.
pub fn chars_of(s: &str) -> (r: Vec<char>)
    ensures
        r@ == s@,
{
    let mut r: Vec<char> = Vec::new();
    for c in it: s.chars()
        invariant
            r@ == it.seq().take(it.index() as int),
    {
        r.push(c);
    }
    r
}

// ---------------------------------------------------------------------------
// Trimming and lines

/// `s` without its leading whitespace.
pub open spec fn trim_start(s: Seq<char>) -> Seq<char>
    decreases s.len(),
{
    if s.len() > 0 && is_white_space(s[0]) {
        trim_start(s.drop_first())
    } else {
        s
    }
}

/// `s` without its trailing whitespace.
pub open spec fn trim_end(s: Seq<char>) -> Seq<char>
    decreases s.len(),
{
    if s.len() > 0 && is_white_space(s.last()) {
        trim_end(s.drop_last())
    } else {
        s
    }
}

/// `s` without whitespace at either end.
pub open spec fn trim(s: Seq<char>) -> Seq<char> {
    trim_end(trim_start(s))
}

pub open spec fn starts_with(s: Seq<char>, prefix: Seq<char>) -> bool {
    prefix.len() <= s.len() && s.subrange(0, prefix.len() as int) == prefix
}

/// A line opens with `keyword` when, once trimmed, it starts with it.
pub open spec fn line_opens_with(line: Seq<char>, keyword: Seq<char>) -> bool {
    starts_with(trim(line), keyword)
}

/// End of the line that holds position `i`: the next newline at or after `i`, or the end.
pub open spec fn line_end(s: Seq<char>, i: int) -> int
    decreases s.len() - i,
{
    if i >= s.len() {
        s.len() as int
    } else if s[i] == '\n' {
        i
    } else {
        line_end(s, i + 1)
    }
}

proof fn lemma_line_end_bounds(s: Seq<char>, i: int)
    requires
        0 <= i <= s.len(),
    ensures
        i <= line_end(s, i) <= s.len(),
        line_end(s, i) < s.len() ==> s[line_end(s, i)] == '\n',
    decreases s.len() - i,
{
    if i < s.len() && s[i] != '\n' {
        lemma_line_end_bounds(s, i + 1);
    }
}

/// Number of the lines of `s` from the line that starts at `i` on that open with `keyword`;
/// lines are separated by `'\n'`.
pub open spec fn count_lines_opening_from(s: Seq<char>, i: int, keyword: Seq<char>) -> nat
    decreases s.len() - i,
    via count_lines_opening_from_decreases
{
    if i < 0 || i >= s.len() {
        0
    } else {
        let j = line_end(s, i);
        let here: nat = if line_opens_with(s.subrange(i, j), keyword) {
            1
        } else {
            0
        };
        if j >= s.len() {
            here
        } else {
            here + count_lines_opening_from(s, j + 1, keyword)
        }
    }
}

#[via_fn]
proof fn count_lines_opening_from_decreases(s: Seq<char>, i: int, keyword: Seq<char>) {
    if 0 <= i < s.len() {
        lemma_line_end_bounds(s, i);
    }
}

/// Number of the lines of `s` that open with `keyword`.
pub open spec fn count_lines_opening(s: Seq<char>, keyword: Seq<char>) -> nat {
    count_lines_opening_from(s, 0, keyword)
}

/// Bounds of `s[start..end]` once trimmed of whitespace at both ends.
pub fn trim_bounds(s: &Vec<char>, start: usize, end: usize) -> (r: (usize, usize))
    requires
        start <= end <= s@.len(),
    ensures
        start <= r.0 <= r.1 <= end,
        s@.subrange(r.0 as int, r.1 as int) == trim(s@.subrange(start as int, end as int)),
{
    let mut a: usize = start;
    while a < end && white_space(s[a])
        invariant
            start <= a <= end <= s@.len(),
            trim_start(s@.subrange(start as int, end as int)) == trim_start(
                s@.subrange(a as int, end as int),
            ),
        decreases end - a,
    {
        assert(s@.subrange(a as int, end as int).drop_first() =~= s@.subrange(
            a + 1,
            end as int,
        ));
        a = a + 1;
    }
    let mut b: usize = end;
    while b > a && white_space(s[b - 1])
        invariant
            start <= a <= b <= end <= s@.len(),
            trim(s@.subrange(start as int, end as int)) == trim_end(
                s@.subrange(a as int, b as int),
            ),
        decreases b - a,
    {
        assert(s@.subrange(a as int, b as int).drop_last() =~= s@.subrange(
            a as int,
            b - 1,
        ));
        b = b - 1;
    }
    (a, b)
}

/// Whether the line `s[start..end]` opens with `keyword`.
fn line_opens(s: &Vec<char>, start: usize, end: usize, keyword: &Vec<char>) -> (r: bool)
    requires
        start <= end <= s@.len(),
    ensures
        r == line_opens_with(s@.subrange(start as int, end as int), keyword@),
{
    let (a, b) = trim_bounds(s, start, end);
    let ghost t = s@.subrange(a as int, b as int);
    assert(trim(s@.subrange(start as int, end as int)) == t);
    if keyword.len() > b - a {
        return false;
    }
    let mut k: usize = 0;
    while k < keyword.len()
        invariant
            a <= b <= s@.len(),
            keyword@.len() <= b - a,
            k <= keyword@.len(),
            t == s@.subrange(a as int, b as int),
            trim(s@.subrange(start as int, end as int)) == t,
            forall|m: int| 0 <= m < k ==> s@[a + m] == keyword@[m],
        decreases keyword@.len() - k,
    {
        if s[a + k] != keyword[k] {
            assert(t.subrange(0, keyword@.len() as int)[k as int] != keyword@[k as int]);
            return false;
        }
        k = k + 1;
    }
    assert(t.subrange(0, keyword@.len() as int) =~= keyword@);
    true
}

/// Counts the lines of `s` that, once trimmed, start with `keyword`.
pub fn count_lines_opening_with(s: &Vec<char>, keyword: &Vec<char>) -> (r: usize)
    ensures
        r == count_lines_opening(s@, keyword@),
{
    let mut i: usize = 0;
    let mut count: usize = 0;
    while i < s.len()
        invariant
            i <= s@.len(),
            count <= i,
            count_lines_opening(s@, keyword@) == count + count_lines_opening_from(
                s@,
                i as int,
                keyword@,
            ),
        decreases s@.len() - i,
    {
        let mut j: usize = i;
        while j < s.len() && s[j] != '\n'
            invariant
                i <= j <= s@.len(),
                line_end(s@, i as int) == line_end(s@, j as int),
            decreases s@.len() - j,
        {
            j = j + 1;
        }
        proof {
            lemma_line_end_bounds(s@, i as int);
        }
        assert(line_end(s@, i as int) == j);
        if line_opens(s, i, j, keyword) {
            count = count + 1;
        }
        if j == s.len() {
            i = j;
        } else {
            i = j + 1;
        }
    }
    count
}

// ---------------------------------------------------------------------------
// Decimal numerals

pub open spec fn all_ascii_digits(s: Seq<char>) -> bool {
    forall|i: int| 0 <= i < s.len() ==> is_ascii_digit(#[trigger] s[i])
}

/// Value of a string of decimal digits.
pub open spec fn digits_value(s: Seq<char>) -> int
    decreases s.len(),
{
    if s.len() == 0 {
        0
    } else {
        digits_value(s.drop_last()) * 10 + digit_value(s.last())
    }
}

/// `s[start..end]` as a vector of its own.
pub fn copy_range(s: &Vec<char>, start: usize, end: usize) -> (r: Vec<char>)
    requires
        start <= end <= s@.len(),
    ensures
        r@ == s@.subrange(start as int, end as int),
{
    let mut r: Vec<char> = Vec::new();
    let mut i: usize = start;
    while i < end
        invariant
            start <= i <= end <= s@.len(),
            r@ == s@.subrange(start as int, i as int),
        decreases end - i,
    {
        r.push(s[i]);
        i = i + 1;
        assert(r@ =~= s@.subrange(start as int, i as int));
    }
    r
}

// ---------------------------------------------------------------------------
// Whitespace-separated fields

/// First position at or after `i` that holds no whitespace, or the end.
pub open spec fn skip_white_space(s: Seq<char>, i: int) -> int
    decreases s.len() - i,
{
    if i >= s.len() {
        s.len() as int
    } else if is_white_space(s[i]) {
        skip_white_space(s, i + 1)
    } else {
        i
    }
}

/// First position at or after `i` that holds whitespace, or the end.
pub open spec fn token_end(s: Seq<char>, i: int) -> int
    decreases s.len() - i,
{
    if i >= s.len() {
        s.len() as int
    } else if is_white_space(s[i]) {
        i
    } else {
        token_end(s, i + 1)
    }
}

/// Bounds of the `k`-th (from zero) whitespace-separated field of `s` from position `i` on.
pub open spec fn field_bounds(s: Seq<char>, i: int, k: nat) -> Option<(int, int)>
    decreases k,
{
    let a = skip_white_space(s, i);
    if a >= s.len() {
        None
    } else if k == 0 {
        Some((a, token_end(s, a)))
    } else {
        field_bounds(s, token_end(s, a), (k - 1) as nat)
    }
}

/// The `k`-th (from zero) whitespace-separated field of `s`.
pub open spec fn field(s: Seq<char>, k: nat) -> Option<Seq<char>> {
    match field_bounds(s, 0, k) {
        Some((a, b)) => Some(s.subrange(a, b)),
        None => None,
    }
}

/// Bounds of the `k`-th (from zero) whitespace-separated field of `s`, if it has one.
pub fn field_at(s: &Vec<char>, k: usize) -> (r: Option<(usize, usize)>)
    ensures
        match r {
            Some((a, b)) => field_bounds(s@, 0, k as nat) == Some((a as int, b as int)) && a <= b
                <= s@.len(),
            None => field_bounds(s@, 0, k as nat) is None,
        },
{
    let mut i: usize = 0;
    let mut remaining: usize = k;
    loop
        invariant
            i <= s@.len(),
            field_bounds(s@, 0, k as nat) == field_bounds(s@, i as int, remaining as nat),
        decreases remaining,
    {
        let mut a: usize = i;
        while a < s.len() && white_space(s[a])
            invariant
                i <= a <= s@.len(),
                skip_white_space(s@, i as int) == skip_white_space(s@, a as int),
            decreases s@.len() - a,
        {
            a = a + 1;
        }
        if a == s.len() {
            return None;
        }
        let mut b: usize = a;
        while b < s.len() && !white_space(s[b])
            invariant
                a <= b <= s@.len(),
                token_end(s@, a as int) == token_end(s@, b as int),
            decreases s@.len() - b,
        {
            b = b + 1;
        }
        if remaining == 0 {
            return Some((a, b));
        }
        remaining = remaining - 1;
        i = b;
    }
}

/// The digits of a numeral once an optional leading `+` is set aside.
pub open spec fn unsigned_digits(s: Seq<char>) -> Seq<char> {
    if s.len() > 0 && s[0] == '+' {
        s.drop_first()
    } else {
        s
    }
}

/// Value of the unsigned decimal numeral `s`, when it is one (an optional `+`, then one or
/// more ASCII digits) and its value does not exceed `max`.
pub open spec fn numeral_value(s: Seq<char>, max: int) -> Option<int> {
    let d = unsigned_digits(s);
    if d.len() > 0 && all_ascii_digits(d) && digits_value(d) <= max {
        Some(digits_value(d))
    } else {
        None
    }
}

proof fn lemma_digits_value_prefix(s: Seq<char>, n: int)
    requires
        0 <= n <= s.len(),
        all_ascii_digits(s),
    ensures
        0 <= digits_value(s.subrange(0, n)) <= digits_value(s),
    decreases s.len() - n,
{
    if n < s.len() {
        lemma_digits_value_prefix(s, n + 1);
        let p = s.subrange(0, n + 1);
        assert(p.drop_last() =~= s.subrange(0, n));
        assert(is_ascii_digit(p[n]));
    } else {
        assert(s.subrange(0, n) =~= s);
        lemma_digits_value_nonneg(s);
    }
}

proof fn lemma_digits_value_nonneg(s: Seq<char>)
    requires
        all_ascii_digits(s),
    ensures
        digits_value(s) >= 0,
    decreases s.len(),
{
    if s.len() > 0 {
        assert(all_ascii_digits(s.drop_last()));
        lemma_digits_value_nonneg(s.drop_last());
        assert(is_ascii_digit(s[s.len() - 1]));
    }
}

/// Reads an unsigned decimal numeral whose value is at most `max`.
pub fn parse_numeral(s: &Vec<char>, max: u64) -> (r: Option<u64>)
    ensures
        match r {
            Some(v) => numeral_value(s@, max as int) == Some(v as int),
            None => numeral_value(s@, max as int) is None,
        },
{
    let start: usize = if s.len() > 0 && s[0] == '+' {
        1
    } else {
        0
    };
    let ghost d = unsigned_digits(s@);
    assert(d =~= s@.subrange(start as int, s@.len() as int));
    if start == s.len() {
        return None;
    }
    let mut acc: u64 = 0;
    let mut k: usize = start;
    while k < s.len()
        invariant
            start <= k <= s@.len(),
            d == s@.subrange(start as int, s@.len() as int),
            d == unsigned_digits(s@),
            all_ascii_digits(d.subrange(0, k - start)),
            acc as int == digits_value(d.subrange(0, k - start)),
            acc <= max,
        decreases s@.len() - k,
    {
        let c = s[k];
        if !((c as u32) >= 0x30 && (c as u32) <= 0x39) {
            assert(!is_ascii_digit(d[k - start]));
            return None;
        }
        let next: u128 = acc as u128 * 10 + ((c as u32) - 0x30) as u128;
        let ghost p = d.subrange(0, k + 1 - start);
        assert(p.drop_last() =~= d.subrange(0, k - start));
        assert(all_ascii_digits(p));
        if next > max as u128 {
            proof {
                if all_ascii_digits(d) {
                    lemma_digits_value_prefix(d, k + 1 - start);
                }
            }
            return None;
        }
        acc = next as u64;
        k = k + 1;
    }
    assert(d.subrange(0, k - start) =~= d);
    Some(acc)
}

} // verus!
