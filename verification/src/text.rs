//! Searching, trimming, splitting and rendering of text, over sequences of
//! characters.

use vstd::prelude::*;
use vstd::string::*;

verus! {

/// `pat` stands in `s` at position `i`.
pub open spec fn occurs_at(s: Seq<char>, pat: Seq<char>, i: int) -> bool {
    0 <= i && i + pat.len() <= s.len() && s.subrange(i, i + pat.len()) == pat
}

/// Position of the first occurrence of `pat` in `s` at or after `from`.
pub open spec fn find_from(s: Seq<char>, pat: Seq<char>, from: int) -> Option<int>
    decreases s.len() + 1 - from,
{
    if from < 0 || from + pat.len() > s.len() {
        None
    } else if occurs_at(s, pat, from) {
        Some(from)
    } else {
        find_from(s, pat, from + 1)
    }
}

/// Position of the first occurrence of `pat` in `s`.
pub open spec fn find(s: Seq<char>, pat: Seq<char>) -> Option<int> {
    find_from(s, pat, 0)
}

/// `find_from` returns the least position at or after `from` at which `pat`
/// occurs, and `None` exactly when there is no such position.
pub proof fn lemma_find_from_is_first(s: Seq<char>, pat: Seq<char>, from: int)
    requires
        0 <= from,
    ensures
        match find_from(s, pat, from) {
            Some(i) => from <= i && occurs_at(s, pat, i) && forall|j: int|
                from <= j < i ==> !occurs_at(s, pat, j),
            None => forall|j: int| from <= j ==> !occurs_at(s, pat, j),
        },
    decreases s.len() + 1 - from,
{
    if from + pat.len() <= s.len() && !occurs_at(s, pat, from) {
        lemma_find_from_is_first(s, pat, from + 1);
    }
}

/// The characters of `s`, one by one.
pub fn chars_of(s: &str) -> (v: Vec<char>)
    ensures
        v@ == s@,
{
    let mut v: Vec<char> = Vec::new();
    for c in it: s.chars()
        invariant
            v@ == it.seq().take(it.index() as int),
            it.seq() == s@,
    {
        v.push(c);
    }
    v
}

/// Whether `pat` stands in `s` at `pos` and ends at or before `limit`.
pub fn matches_at(s: &Vec<char>, pat: &Vec<char>, pos: usize, limit: usize) -> (b: bool)
    requires
        pos <= limit <= s.len(),
    ensures
        b == occurs_at(s@.subrange(0, limit as int), pat@, pos as int),
{
    if pat.len() > limit - pos {
        return false;
    }
    let mut k: usize = 0;
    while k < pat.len()
        invariant
            k <= pat.len(),
            pos + pat.len() <= limit <= s.len(),
            forall|j: int| 0 <= j < k ==> s@[pos + j] == pat@[j],
        decreases pat.len() - k,
    {
        if s[pos + k] != pat[k] {
            return false;
        }
        k += 1;
    }
    proof {
        let w = s@.subrange(0, limit as int).subrange(pos as int, pos + pat.len());
        assert(w =~= pat@);
    }
    true
}

/// First position in `from..limit` at which `pat` stands wholly before
/// `limit`.
pub fn find_between(s: &Vec<char>, pat: &Vec<char>, from: usize, limit: usize) -> (r: Option<
    usize,
>)
    requires
        from <= limit <= s.len(),
    ensures
        match r {
            Some(i) => from <= i && i + pat@.len() <= limit && find_from(
                s@.subrange(0, limit as int),
                pat@,
                from as int,
            ) == Some(i as int),
            None => find_from(s@.subrange(0, limit as int), pat@, from as int) is None,
        },
{
    if pat.len() > limit - from {
        return None;
    }
    if pat.len() == 0 {
        assert(s@.subrange(0, limit as int).subrange(from as int, from as int) =~= pat@);
        return Some(from);
    }
    let last: usize = limit - pat.len();
    let mut i: usize = from;
    while i <= last
        invariant
            from <= i <= last + 1,
            pat.len() > 0,
            last + pat.len() == limit,
            limit <= s.len(),
            find_from(s@.subrange(0, limit as int), pat@, from as int) == find_from(
                s@.subrange(0, limit as int),
                pat@,
                i as int,
            ),
        decreases last + 1 - i,
    {
        if matches_at(s, pat, i, limit) {
            return Some(i);
        }
        i += 1;
    }
    None
}

/// Searching from `from` in `s` is searching from the start in what is left of
/// `s` after `from` characters.
pub proof fn lemma_find_from_skip(s: Seq<char>, pat: Seq<char>, from: int, k: int)
    requires
        0 <= from <= s.len(),
        0 <= k,
    ensures
        find_from(s, pat, from + k) == match find_from(s.skip(from), pat, k) {
            Some(i) => Some(i + from),
            None => None,
        },
    decreases s.len() + 1 - (from + k),
{
    let t = s.skip(from);
    if from + k + pat.len() <= s.len() {
        assert(s.subrange(from + k, from + k + pat.len()) =~= t.subrange(k, k + pat.len()));
        if !occurs_at(s, pat, from + k) {
            lemma_find_from_skip(s, pat, from, k + 1);
        }
    }
}

/// The characters that `char::is_whitespace` accepts: those with the Unicode
/// property `White_Space`.
#[verifier::opaque]
pub open spec fn is_whitespace(c: char) -> bool {
    let n = c as u32;
    ||| 0x09 <= n <= 0x0D
    ||| n == 0x20
    ||| n == 0x85
    ||| n == 0xA0
    ||| n == 0x1680
    ||| 0x2000 <= n <= 0x200A
    ||| n == 0x2028
    ||| n == 0x2029
    ||| n == 0x202F
    ||| n == 0x205F
    ||| n == 0x3000
}

/// Whether `c` is white space.
pub fn whitespace(c: char) -> (b: bool)
    ensures
        b == is_whitespace(c),
{
    proof {
        reveal(is_whitespace);
    }
    let n: u32 = c as u32;
    (0x09 <= n && n <= 0x0D) || n == 0x20 || n == 0x85 || n == 0xA0 || n == 0x1680 || (0x2000 <= n
        && n <= 0x200A) || n == 0x2028 || n == 0x2029 || n == 0x202F || n == 0x205F || n == 0x3000
}

/// `s` without the white space at its start and at its end.
pub open spec fn trim(s: Seq<char>) -> Seq<char>
    decreases s.len(),
{
    if s.len() == 0 {
        s
    } else if is_whitespace(s.first()) {
        trim(s.drop_first())
    } else if is_whitespace(s.last()) {
        trim(s.drop_last())
    } else {
        s
    }
}

/// `a..b` are the bounds of `trim(s)` in `s`: white space only before `a` and
/// from `b` on, none at `a` and at `b - 1`.
pub open spec fn trim_bounds(s: Seq<char>, a: int, b: int) -> bool {
    &&& 0 <= a <= b <= s.len()
    &&& forall|i: int| 0 <= i < a ==> is_whitespace(#[trigger] s[i])
    &&& forall|i: int| b <= i < s.len() ==> is_whitespace(#[trigger] s[i])
    &&& a < b ==> !is_whitespace(s[a]) && !is_whitespace(s[b - 1])
}

/// What lies between its trim bounds is the trimmed text.
pub proof fn lemma_trim_bounds(s: Seq<char>, a: int, b: int)
    requires
        trim_bounds(s, a, b),
    ensures
        trim(s) == s.subrange(a, b),
    decreases s.len(),
{
    if s.len() > 0 && is_whitespace(s.first()) {
        if a == 0 {
            lemma_trim_bounds(s.drop_first(), 0, 0);
        } else {
            lemma_trim_bounds(s.drop_first(), a - 1, b - 1);
        }
    } else if s.len() > 0 && is_whitespace(s.last()) {
        lemma_trim_bounds(s.drop_last(), a, b);
    }
}

/// The bounds, within `from..to`, of that stretch of `s` trimmed.
pub fn trim_between(s: &Vec<char>, from: usize, to: usize) -> (r: (usize, usize))
    requires
        from <= to <= s.len(),
    ensures
        from <= r.0 <= r.1 <= to,
        s@.subrange(r.0 as int, r.1 as int) == trim(s@.subrange(from as int, to as int)),
{
    let mut a: usize = from;
    while a < to && whitespace(s[a])
        invariant
            from <= a <= to <= s.len(),
            forall|i: int| from <= i < a ==> is_whitespace(#[trigger] s@[i]),
        decreases to - a,
    {
        a += 1;
    }
    let mut b: usize = to;
    while b > a && whitespace(s[b - 1])
        invariant
            a <= b <= to <= s.len(),
            forall|i: int| b <= i < to ==> is_whitespace(#[trigger] s@[i]),
        decreases b - a,
    {
        b -= 1;
    }
    proof {
        lemma_trim_bounds(s@.subrange(from as int, to as int), a - from, b - from);
    }
    (a, b)
}

/// Position of the first line break in `s` at or after `from`, or the length
/// of `s` where there is none.
pub open spec fn line_end(s: Seq<char>, from: int) -> int
    decreases s.len() - from,
{
    if from < 0 || from >= s.len() {
        s.len() as int
    } else if s[from] == '\n' {
        from
    } else {
        line_end(s, from + 1)
    }
}

/// Where the line that starts at `from` ends.
pub fn find_line_end(s: &Vec<char>, from: usize) -> (e: usize)
    requires
        from <= s.len(),
    ensures
        e == line_end(s@, from as int),
        from <= e <= s.len(),
{
    let mut i: usize = from;
    while i < s.len() && s[i] != '\n'
        invariant
            from <= i <= s.len(),
            line_end(s@, from as int) == line_end(s@, i as int),
        decreases s.len() - i,
    {
        i += 1;
    }
    i
}

/// What a line holds behind its first `marker`: the text from there to the
/// next `marker` or to the end of the line, trimmed. `None` where the line
/// does not hold `marker`.
pub open spec fn value_after(line: Seq<char>, marker: Seq<char>) -> Option<Seq<char>> {
    match find(line, marker) {
        None => None,
        Some(i) => {
            let rest = line.skip(i + marker.len());
            Some(
                trim(
                    match find(rest, marker) {
                        Some(j) => rest.take(j),
                        None => rest,
                    },
                ),
            )
        },
    }
}

/// `value_after` of the first line that holds `marker`, among the lines of
/// `text` that start at or after `from`. Lines end at `'\n'`.
pub open spec fn first_value_from(text: Seq<char>, marker: Seq<char>, from: int) -> Option<
    Seq<char>,
>
    decreases text.len() + 1 - from,
{
    if from < 0 || from >= text.len() {
        None
    } else {
        let end = line_end(text, from);
        match value_after(text.subrange(from, end), marker) {
            Some(v) => Some(v),
            None => {
                proof {
                    lemma_line_end_bounds(text, from);
                }
                first_value_from(text, marker, end + 1)
            },
        }
    }
}

/// `value_after` of the first line of `text` that holds `marker`.
pub open spec fn first_value(text: Seq<char>, marker: Seq<char>) -> Option<Seq<char>> {
    first_value_from(text, marker, 0)
}

/// The line end found from `from` is at or after `from` and within `s`.
pub proof fn lemma_line_end_bounds(s: Seq<char>, from: int)
    requires
        0 <= from <= s.len(),
    ensures
        from <= line_end(s, from) <= s.len(),
    decreases s.len() - from,
{
    if from < s.len() && s[from] != '\n' {
        lemma_line_end_bounds(s, from + 1);
    }
}

/// The bounds in `s` of `value_after` of the line `from..end`.
pub fn value_bounds(s: &Vec<char>, marker: &Vec<char>, from: usize, end: usize) -> (r: Option<
    (usize, usize),
>)
    requires
        from <= end <= s.len(),
    ensures
        match r {
            Some((a, b)) => from <= a <= b <= end && value_after(
                s@.subrange(from as int, end as int),
                marker@,
            ) == Some(s@.subrange(a as int, b as int)),
            None => value_after(s@.subrange(from as int, end as int), marker@) is None,
        },
{
    let ghost head = s@.subrange(0, end as int);
    let ghost line = s@.subrange(from as int, end as int);
    proof {
        assert(head.skip(from as int) =~= line);
        lemma_find_from_skip(head, marker@, from as int, 0);
    }
    match find_between(s, marker, from, end) {
        None => None,
        Some(i) => {
            let start: usize = i + marker.len();
            let ghost rest = line.skip(start - from);
            proof {
                assert(head.skip(start as int) =~= rest);
                lemma_find_from_skip(head, marker@, start as int, 0);
            }
            let stop: usize = match find_between(s, marker, start, end) {
                Some(j) => j,
                None => end,
            };
            proof {
                let cut = match find(rest, marker@) {
                    Some(j) => rest.take(j),
                    None => rest,
                };
                assert(cut =~= s@.subrange(start as int, stop as int));
            }
            let (a, b) = trim_between(s, start, stop);
            Some((a, b))
        },
    }
}

/// The bounds in `s` of `first_value(s, marker)`.
pub fn first_value_bounds(s: &Vec<char>, marker: &Vec<char>) -> (r: Option<(usize, usize)>)
    ensures
        match r {
            Some((a, b)) => a <= b <= s.len() && first_value(s@, marker@) == Some(
                s@.subrange(a as int, b as int),
            ),
            None => first_value(s@, marker@) is None,
        },
{
    let mut from: usize = 0;
    while from < s.len()
        invariant
            first_value(s@, marker@) == first_value_from(s@, marker@, from as int),
        decreases s.len() - from,
    {
        let end = find_line_end(s, from);
        match value_bounds(s, marker, from, end) {
            Some(bounds) => {
                return Some(bounds);
            },
            None => {},
        }
        if end == s.len() {
            assert(first_value_from(s@, marker@, end + 1) is None);
            return None;
        }
        from = end + 1;
    }
    None
}

/// The stretch `a..b` of `s`, as a string of its own.
pub fn slice_to_string(s: &str, a: usize, b: usize) -> (r: String)
    requires
        a <= b <= s@.len(),
    ensures
        r@ == s@.subrange(a as int, b as int),
{
    s.substring_char(a, b).to_owned()
}

/// `first_value` of `text` where it holds anything: `None` also where the
/// first line that holds `marker` holds nothing behind it.
pub open spec fn stated_value(text: Seq<char>, marker: Seq<char>) -> Option<Seq<char>> {
    match first_value(text, marker) {
        Some(value) => if value.len() > 0 {
            Some(value)
        } else {
            None
        },
        None => None,
    }
}

/// Position of the first character of `s` at or after `from` that is no
/// white space, or the length of `s` where there is none.
pub open spec fn skip_whitespace(s: Seq<char>, from: int) -> int
    decreases s.len() - from,
{
    if from < 0 || from >= s.len() {
        s.len() as int
    } else if is_whitespace(s[from]) {
        skip_whitespace(s, from + 1)
    } else {
        from
    }
}

/// Where the white space that starts at `from` ends.
pub fn skip_space(s: &Vec<char>, from: usize) -> (e: usize)
    ensures
        e == skip_whitespace(s@, from as int),
        e <= s.len(),
        from <= s.len() ==> from <= e,
{
    if from >= s.len() {
        return s.len();
    }
    let mut i: usize = from;
    while i < s.len() && whitespace(s[i])
        invariant
            from <= i <= s.len(),
            skip_whitespace(s@, from as int) == skip_whitespace(s@, i as int),
        decreases s.len() - i,
    {
        i += 1;
    }
    i
}

/// `stated_value` of `text`, as a string.
pub fn extract_stated(text: &str, marker: &str) -> (r: Option<String>)
    ensures
        match r {
            Some(v) => stated_value(text@, marker@) == Some(v@) && v@.len() > 0,
            None => stated_value(text@, marker@) is None,
        },
{
    let s = chars_of(text);
    let m = chars_of(marker);
    match first_value_bounds(&s, &m) {
        Some((a, b)) => {
            if a < b {
                Some(slice_to_string(text, a, b))
            } else {
                None
            }
        },
        None => None,
    }
}

/// `first_value` of `text`, as a string.
pub fn extract_value(text: &str, marker: &str) -> (r: Option<String>)
    ensures
        match r {
            Some(v) => first_value(text@, marker@) == Some(v@),
            None => first_value(text@, marker@) is None,
        },
{
    let s = chars_of(text);
    let m = chars_of(marker);
    match first_value_bounds(&s, &m) {
        Some((a, b)) => Some(slice_to_string(text, a, b)),
        None => None,
    }
}

/// `c` is one of the ten decimal digits.
pub open spec fn is_digit(c: char) -> bool {
    48 <= c as u32 <= 57
}

/// The number that the decimal digit `c` stands for.
pub open spec fn digit_value(c: char) -> nat {
    (c as u32 - 48) as nat
}

/// Every character of `s` is a decimal digit.
pub open spec fn all_digits(s: Seq<char>) -> bool {
    forall|i: int| 0 <= i < s.len() ==> is_digit(#[trigger] s[i])
}

/// The number that the digits `s` write in base ten.
pub open spec fn digits_value(s: Seq<char>) -> nat
    decreases s.len(),
{
    if s.len() == 0 {
        0
    } else {
        digits_value(s.drop_last()) * 10 + digit_value(s.last())
    }
}

/// The number that `s` writes: an optional `+`, then one decimal digit or
/// more, and a value that a `u64` can hold. `None` for any other text.
pub open spec fn parse_u64(s: Seq<char>) -> Option<u64> {
    let digits = if s.len() > 0 && s[0] == '+' {
        s.drop_first()
    } else {
        s
    };
    if digits.len() > 0 && all_digits(digits) && digits_value(digits) <= u64::MAX {
        Some(digits_value(digits) as u64)
    } else {
        None
    }
}

/// More digits never write a smaller number.
pub proof fn lemma_digits_value_prefix(s: Seq<char>, k: int)
    requires
        0 <= k <= s.len(),
    ensures
        digits_value(s.take(k)) <= digits_value(s),
    decreases s.len(),
{
    if k == s.len() {
        assert(s.take(k) =~= s);
    } else {
        lemma_digits_value_prefix(s.drop_last(), k);
        assert(s.drop_last().take(k) =~= s.take(k));
    }
}

/// The number written in `from..to` of `s`.
pub fn parse_between(s: &Vec<char>, from: usize, to: usize) -> (r: Option<u64>)
    requires
        from <= to <= s.len(),
    ensures
        r == parse_u64(s@.subrange(from as int, to as int)),
{
    let ghost text = s@.subrange(from as int, to as int);
    let start: usize = if from < to && s[from] == '+' {
        from + 1
    } else {
        from
    };
    let ghost digits = s@.subrange(start as int, to as int);
    proof {
        if start != from {
            assert(digits =~= text.drop_first());
        }
    }
    if start == to {
        return None;
    }
    let mut acc: u64 = 0;
    let mut i: usize = start;
    while i < to
        invariant
            start <= i <= to <= s.len(),
            from <= to,
            digits == s@.subrange(start as int, to as int),
            parse_u64(s@.subrange(from as int, to as int)) == if all_digits(digits)
                && digits_value(digits) <= u64::MAX {
                Some(digits_value(digits) as u64)
            } else {
                None
            },
            acc == digits_value(digits.take(i - start)),
            forall|j: int| 0 <= j < i - start ==> is_digit(#[trigger] digits[j]),
        decreases to - i,
    {
        let n: u32 = s[i] as u32;
        if n < 48 || n > 57 {
            assert(!is_digit(digits[i - start]));
            return None;
        }
        let d: u64 = (n - 48) as u64;
        proof {
            let longer = digits.take(i - start + 1);
            assert(longer.drop_last() =~= digits.take(i - start));
            lemma_digits_value_prefix(digits, i - start + 1);
        }
        if acc > (u64::MAX - d) / 10 {
            return None;
        }
        acc = acc * 10 + d;
        i += 1;
    }
    proof {
        assert(digits.take(i - start) =~= digits);
    }
    Some(acc)
}

/// The number that `text` writes, if it writes one.
pub fn parse_decimal(text: &str) -> (r: Option<u64>)
    ensures
        r == parse_u64(text@),
{
    let s = chars_of(text);
    proof {
        assert(s@.subrange(0, s@.len() as int) =~= s@);
    }
    parse_between(&s, 0, s.len())
}

/// The decimal digit for `d`.
pub open spec fn digit_char(d: nat) -> char {
    if d == 0 {
        '0'
    } else if d == 1 {
        '1'
    } else if d == 2 {
        '2'
    } else if d == 3 {
        '3'
    } else if d == 4 {
        '4'
    } else if d == 5 {
        '5'
    } else if d == 6 {
        '6'
    } else if d == 7 {
        '7'
    } else if d == 8 {
        '8'
    } else {
        '9'
    }
}

/// `n` written in base ten, without leading zeros.
pub open spec fn decimal(n: nat) -> Seq<char>
    decreases n,
{
    if n < 10 {
        seq![digit_char(n)]
    } else {
        decimal(n / 10).push(digit_char(n % 10))
    }
}

/// The one-character text of the digit `d`.
pub fn digit_str(d: u64) -> (r: &'static str)
    requires
        d < 10,
    ensures
        r@ == seq![digit_char(d as nat)],
{
    proof {
        reveal_strlit("0");
        reveal_strlit("1");
        reveal_strlit("2");
        reveal_strlit("3");
        reveal_strlit("4");
        reveal_strlit("5");
        reveal_strlit("6");
        reveal_strlit("7");
        reveal_strlit("8");
        reveal_strlit("9");
    }
    let r = if d == 0 {
        "0"
    } else if d == 1 {
        "1"
    } else if d == 2 {
        "2"
    } else if d == 3 {
        "3"
    } else if d == 4 {
        "4"
    } else if d == 5 {
        "5"
    } else if d == 6 {
        "6"
    } else if d == 7 {
        "7"
    } else if d == 8 {
        "8"
    } else {
        "9"
    };
    r
}

/// `n` in decimal digits.
pub fn decimal_string(n: u64) -> (r: String)
    ensures
        r@ == decimal(n as nat),
    decreases n,
{
    if n < 10 {
        String::from_str(digit_str(n))
    } else {
        let head = decimal_string(n / 10);
        let r = head.concat(digit_str(n % 10));
        r
    }
}

/// `s` with every occurrence of `from` replaced by `to`, the occurrences
/// taken from the left and not overlapping. An empty `from` occurs nowhere.
pub open spec fn replace(s: Seq<char>, from: Seq<char>, to: Seq<char>) -> Seq<char>
    decreases s.len(),
{
    if from.len() == 0 || s.len() < from.len() {
        s
    } else if s.take(from.len() as int) == from {
        to + replace(s.skip(from.len() as int), from, to)
    } else {
        s.take(1) + replace(s.skip(1), from, to)
    }
}

/// `s` with every occurrence of `from` replaced by `to`.
pub fn replace_all(s: &str, from: &str, to: &str) -> (r: String)
    ensures
        r@ == replace(s@, from@, to@),
{
    let sv = chars_of(s);
    let fv = chars_of(from);
    let n: usize = sv.len();
    let m: usize = fv.len();
    if m == 0 {
        return String::from_str(s);
    }
    let mut out = String::new();
    let mut seg: usize = 0;
    let mut i: usize = 0;
    proof {
        assert(sv@.skip(0) =~= s@);
    }
    while i < n
        invariant
            seg <= i <= n,
            n == sv@.len(),
            m == fv@.len(),
            m > 0,
            sv@ == s@,
            fv@ == from@,
            replace(s@, from@, to@) == out@ + sv@.subrange(seg as int, i as int) + replace(
                sv@.skip(i as int),
                from@,
                to@,
            ),
        decreases n - i,
    {
        let ghost rest = sv@.skip(i as int);
        proof {
            assert(sv@.subrange(0, n as int) =~= sv@);
            if i + m <= n {
                assert(rest.take(m as int) =~= sv@.subrange(i as int, i + m));
            }
        }
        if matches_at(&sv, &fv, i, n) {
            let piece = slice_to_string(s, seg, i);
            out.append(piece.as_str());
            out.append(to);
            proof {
                assert(rest.skip(m as int) =~= sv@.skip(i + m));
            }
            i += m;
            seg = i;
        } else {
            proof {
                assert(rest.skip(1) =~= sv@.skip(i + 1));
            }
            i += 1;
        }
    }
    let piece = slice_to_string(s, seg, n);
    out.append(piece.as_str());
    out
}

/// One replacement of a text by another.
#[derive(Debug)]
pub struct Substitution {
    pub placeholder: String,
    pub value: String,
}

/// The mathematical value of a `Substitution`.
pub struct SubstitutionView {
    pub placeholder: Seq<char>,
    pub value: Seq<char>,
}

impl View for Substitution {
    type V = SubstitutionView;

    open spec fn view(&self) -> SubstitutionView {
        SubstitutionView { placeholder: self.placeholder@, value: self.value@ }
    }
}

impl Substitution {
    /// The replacement of `placeholder` by `value`.
    pub fn new(placeholder: &str, value: &str) -> (r: Self)
        ensures
            r@ == (SubstitutionView { placeholder: placeholder@, value: value@ }),
    {
        Substitution { placeholder: String::from_str(placeholder), value: String::from_str(value) }
    }
}

/// The values of `list`.
pub open spec fn substitutions(list: Seq<Substitution>) -> Seq<SubstitutionView> {
    Seq::new(list.len(), |i: int| list[i]@)
}

/// The first of `pairs` at or after `from` whose placeholder is not empty
/// and stands at the start of `s`.
pub open spec fn first_fitting(s: Seq<char>, pairs: Seq<SubstitutionView>, from: int) -> Option<int>
    decreases pairs.len() - from,
{
    if from < 0 || from >= pairs.len() {
        None
    } else if pairs[from].placeholder.len() > 0 && occurs_at(s, pairs[from].placeholder, 0) {
        Some(from)
    } else {
        first_fitting(s, pairs, from + 1)
    }
}

/// What `first_fitting` finds is one of `pairs`, with a placeholder that is
/// not empty and no longer than `s`.
pub proof fn lemma_first_fitting(s: Seq<char>, pairs: Seq<SubstitutionView>, from: int)
    requires
        0 <= from,
    ensures
        first_fitting(s, pairs, from) matches Some(p) ==> from <= p < pairs.len() && 0
            < pairs[p].placeholder.len() <= s.len() && occurs_at(s, pairs[p].placeholder, 0),
    decreases pairs.len() - from,
{
    if from < pairs.len() && !(pairs[from].placeholder.len() > 0 && occurs_at(
        s,
        pairs[from].placeholder,
        0,
    )) {
        lemma_first_fitting(s, pairs, from + 1);
    }
}

/// `s` with every placeholder of `pairs` replaced by its value in one pass
/// from the left: where several placeholders stand at one place, the one
/// that comes first in `pairs` is taken, and what was put in is not looked
/// at again.
pub open spec fn substitute(s: Seq<char>, pairs: Seq<SubstitutionView>) -> Seq<char>
    decreases s.len(),
{
    if s.len() == 0 {
        s
    } else {
        match first_fitting(s, pairs, 0) {
            Some(p) => {
                proof {
                    lemma_first_fitting(s, pairs, 0);
                }
                pairs[p].value + substitute(s.skip(pairs[p].placeholder.len() as int), pairs)
            },
            None => s.take(1) + substitute(s.skip(1), pairs),
        }
    }
}

/// Which of `patterns`, the placeholders of `pairs`, is the first to stand
/// in `s` at `pos`.
fn fitting(
    s: &Vec<char>,
    patterns: &Vec<Vec<char>>,
    pos: usize,
    Ghost(pairs): Ghost<Seq<SubstitutionView>>,
) -> (r: Option<usize>)
    requires
        pos <= s.len(),
        patterns@.len() == pairs.len(),
        forall|k: int| 0 <= k < pairs.len() ==> (#[trigger] patterns@[k])@ == pairs[k].placeholder,
    ensures
        match r {
            Some(p) => first_fitting(s@.skip(pos as int), pairs, 0) == Some(p as int) && p
                < pairs.len(),
            None => first_fitting(s@.skip(pos as int), pairs, 0) is None,
        },
{
    let n: usize = s.len();
    let ghost rest = s@.skip(pos as int);
    let mut k: usize = 0;
    while k < patterns.len()
        invariant
            k <= patterns@.len(),
            n == s@.len(),
            pos <= n,
            rest == s@.skip(pos as int),
            patterns@.len() == pairs.len(),
            forall|j: int|
                0 <= j < pairs.len() ==> (#[trigger] patterns@[j])@ == pairs[j].placeholder,
            first_fitting(rest, pairs, 0) == first_fitting(rest, pairs, k as int),
        decreases patterns@.len() - k,
    {
        let fits = patterns[k].len() > 0 && matches_at(s, &patterns[k], pos, n);
        proof {
            let pat = pairs[k as int].placeholder;
            assert(patterns@[k as int]@ == pat);
            assert(s@.subrange(0, n as int) =~= s@);
            if pos + pat.len() <= n {
                assert(rest.subrange(0, pat.len() as int) =~= s@.subrange(
                    pos as int,
                    pos + pat.len(),
                ));
            }
            assert(fits == (pat.len() > 0 && occurs_at(rest, pat, 0)));
        }
        if fits {
            return Some(k);
        }
        k += 1;
    }
    None
}

/// `s` with every placeholder of `pairs` replaced by its value, in one pass.
pub fn substitute_all(s: &str, pairs: &Vec<Substitution>) -> (r: String)
    ensures
        r@ == substitute(s@, substitutions(pairs@)),
{
    let ghost views = substitutions(pairs@);
    let sv = chars_of(s);
    let n: usize = sv.len();
    let mut patterns: Vec<Vec<char>> = Vec::new();
    let mut k: usize = 0;
    while k < pairs.len()
        invariant
            k <= pairs@.len(),
            patterns@.len() == k,
            views == substitutions(pairs@),
            forall|j: int| 0 <= j < k ==> (#[trigger] patterns@[j])@ == views[j].placeholder,
        decreases pairs@.len() - k,
    {
        patterns.push(chars_of(pairs[k].placeholder.as_str()));
        k += 1;
    }
    let mut out = String::new();
    let mut seg: usize = 0;
    let mut i: usize = 0;
    proof {
        assert(sv@.skip(0) =~= s@);
        assert(out@ + sv@.subrange(0, 0) + substitute(s@, views) =~= substitute(s@, views));
    }
    while i < n
        invariant
            seg <= i <= n,
            n == sv@.len(),
            sv@ == s@,
            views == substitutions(pairs@),
            patterns@.len() == views.len(),
            forall|j: int|
                0 <= j < views.len() ==> (#[trigger] patterns@[j])@ == views[j].placeholder,
            substitute(s@, views) == out@ + sv@.subrange(seg as int, i as int) + substitute(
                sv@.skip(i as int),
                views,
            ),
        decreases n - i,
    {
        let ghost rest = sv@.skip(i as int);
        match fitting(&sv, &patterns, i, Ghost(views)) {
            Some(p) => {
                proof {
                    lemma_first_fitting(rest, views, 0);
                    assert(views[p as int] == pairs@[p as int]@);
                }
                let m: usize = patterns[p].len();
                let piece = slice_to_string(s, seg, i);
                out.append(piece.as_str());
                out.append(pairs[p].value.as_str());
                proof {
                    assert(rest.skip(m as int) =~= sv@.skip(i + m));
                    assert(sv@.subrange(i + m, i + m) =~= Seq::<char>::empty());
                }
                i += m;
                seg = i;
            },
            None => {
                proof {
                    assert(rest.skip(1) =~= sv@.skip(i + 1));
                    assert(sv@.subrange(seg as int, i as int) + rest.take(1) =~= sv@.subrange(
                        seg as int,
                        i + 1,
                    ));
                }
                i += 1;
            },
        }
    }
    let piece = slice_to_string(s, seg, n);
    out.append(piece.as_str());
    proof {
        assert(sv@.skip(n as int) =~= Seq::<char>::empty());
    }
    out
}

} // verus!
