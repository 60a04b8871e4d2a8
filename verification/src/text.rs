//! Character-level helpers over strings, stated against `Seq<char>`.
//!
//! Tool output reaches the library as text. Everything the library decides
//! from such text (which commit a line names, whether a message mentions a
//! phrase, whether a path is already listed) is decided here, on sequences
//! of characters.

use vstd::prelude::*;
use vstd::string::StringExecFns;

verus! {

/// The text of an optional string.
pub open spec fn text_of(s: Option<String>) -> Option<Seq<char>> {
    match s {
        Some(t) => Some(t@),
        None => None,
    }
}

/// The text of a borrowed optional string.
pub open spec fn borrowed_text(s: Option<&str>) -> Option<Seq<char>> {
    match s {
        Some(t) => Some(t@),
        None => None,
    }
}

/// Whether `c` is white space: the code points U+0009 to U+000D, U+0020,
/// U+0085, U+00A0, U+1680, U+2000 to U+200A, U+2028, U+2029, U+202F, U+205F
/// and U+3000.
pub open spec fn is_whitespace(c: char) -> bool {
    let n = c as u32;
    ||| 0x09 <= n <= 0x0D
    ||| n == 0x20
    ||| n == 0x85
    ||| n == 0xA0
    ||| n == 0x1680
    ||| 0x2000 <= n <= 0x200A
    ||| n == 0x2028
    ||| n == 0x2029
    ||| n == 0x202F
    ||| n == 0x205F
    ||| n == 0x3000
}

/// `s` without its leading white space.
pub open spec fn skip_leading(s: Seq<char>) -> Seq<char>
    decreases s.len(),
{
    if s.len() > 0 && is_whitespace(s[0]) {
        skip_leading(s.drop_first())
    } else {
        s
    }
}

/// `s` without its trailing white space.
pub open spec fn skip_trailing(s: Seq<char>) -> Seq<char>
    decreases s.len(),
{
    if s.len() > 0 && is_whitespace(s.last()) {
        skip_trailing(s.drop_last())
    } else {
        s
    }
}

/// `s` without leading and trailing white space.
pub open spec fn trimmed(s: Seq<char>) -> Seq<char> {
    skip_trailing(skip_leading(s))
}

/// Whether `needle` stands in `hay` at position `i`.
pub open spec fn occurs_at(hay: Seq<char>, needle: Seq<char>, i: int) -> bool {
    &&& 0 <= i
    &&& i + needle.len() <= hay.len()
    &&& hay.subrange(i, i + needle.len()) == needle
}

/// Whether `needle` stands somewhere in `hay`.
pub open spec fn contains(hay: Seq<char>, needle: Seq<char>) -> bool {
    exists|i: int| occurs_at(hay, needle, i)
}

/// Where the line that holds position `i` ends: the position of the first
/// line feed at or after `i`, or the end of `s`.
pub open spec fn line_end(s: Seq<char>, i: int) -> int
    decreases s.len() - i,
{
    if i < 0 || i >= s.len() || s[i] == '\n' {
        i
    } else {
        line_end(s, i + 1)
    }
}

/// Whether a line of `s` begins at position `i`.
pub open spec fn line_starts_at(s: Seq<char>, i: int) -> bool {
    0 <= i < s.len() && (i == 0 || s[i - 1] == '\n')
}

/// Whether some line of `s`, white space at its ends aside, reads `wanted`.
/// Lines end at line feeds; a line feed at the very end opens no further
/// line.
pub open spec fn some_line_reads(s: Seq<char>, wanted: Seq<char>) -> bool {
    exists|i: int| line_starts_at(s, i) && trimmed(s.subrange(i, line_end(s, i))) == wanted
}

/// `s` with every occurrence of `from` replaced by `to`, found from left to
/// right, an occurrence beginning no earlier than the previous one ended.
/// An empty `from` occurs nowhere.
pub open spec fn replaced(s: Seq<char>, from: Seq<char>, to: Seq<char>) -> Seq<char>
    decreases s.len(),
{
    if from.len() == 0 || s.len() < from.len() {
        s
    } else if s.subrange(0, from.len() as int) == from {
        to + replaced(s.subrange(from.len() as int, s.len() as int), from, to)
    } else {
        seq![s[0]] + replaced(s.drop_first(), from, to)
    }
}

/// The character for a digit.
pub open spec fn digit(d: nat) -> char {
    if d == 0 {
        '0'
    } else if d == 1 {
        '1'
    } else if d == 2 {
        '2'
    } else if d == 3 {
        '3'
    } else if d == 4 {
        '4'
    } else if d == 5 {
        '5'
    } else if d == 6 {
        '6'
    } else if d == 7 {
        '7'
    } else if d == 8 {
        '8'
    } else {
        '9'
    }
}

/// `n` written in decimal digits, without leading zeros.
pub open spec fn decimal(n: nat) -> Seq<char>
    decreases n,
{
    if n < 10 {
        seq![digit(n)]
    } else {
        decimal(n / 10).push(digit(n % 10))
    }
}

/// The characters of `s`, in order.
pub fn chars_of(s: &str) -> (v: Vec<char>)
    ensures
        v@ == s@,
{
    let mut v: Vec<char> = Vec::new();
    let it = s.chars();
    for c in iter: it
        invariant
            v@ == iter.seq().take(iter.index@),
            iter.seq() == s@,
    {
        v.push(c);
    }
    v
}

/// Tests a character for white space.
pub fn whitespace(c: char) -> (b: bool)
    ensures
        b == is_whitespace(c),
{
    let n: u32 = c as u32;
    (0x09 <= n && n <= 0x0D) || n == 0x20 || n == 0x85 || n == 0xA0 || n == 0x1680 || (0x2000 <= n
        && n <= 0x200A) || n == 0x2028 || n == 0x2029 || n == 0x202F || n == 0x205F || n == 0x3000
}

proof fn lemma_skip_leading_subrange(s: Seq<char>, lo: int, hi: int)
    requires
        0 <= lo < hi <= s.len(),
        is_whitespace(s[lo]),
    ensures
        skip_leading(s.subrange(lo, hi)) == skip_leading(s.subrange(lo + 1, hi)),
{
    assert(s.subrange(lo, hi).drop_first() =~= s.subrange(lo + 1, hi));
}

proof fn lemma_skip_trailing_subrange(s: Seq<char>, lo: int, hi: int)
    requires
        0 <= lo < hi <= s.len(),
        is_whitespace(s[hi - 1]),
    ensures
        skip_trailing(s.subrange(lo, hi)) == skip_trailing(s.subrange(lo, hi - 1)),
{
    assert(s.subrange(lo, hi).drop_last() =~= s.subrange(lo, hi - 1));
}

/// The bounds within `chars[lo..hi]` of what is left of that range once the
/// white space at its ends is removed.
fn trim_bounds(chars: &Vec<char>, lo: usize, hi: usize) -> (r: (usize, usize))
    requires
        lo <= hi <= chars.len(),
    ensures
        lo <= r.0 <= r.1 <= hi,
        chars@.subrange(r.0 as int, r.1 as int) == trimmed(chars@.subrange(lo as int, hi as int)),
{
    let mut start: usize = lo;
    while start < hi && whitespace(chars[start])
        invariant
            lo <= start <= hi <= chars.len(),
            skip_leading(chars@.subrange(lo as int, hi as int)) == skip_leading(
                chars@.subrange(start as int, hi as int),
            ),
        decreases hi - start,
    {
        proof {
            lemma_skip_leading_subrange(chars@, start as int, hi as int);
        }
        start = start + 1;
    }
    let mut end: usize = hi;
    while end > start && whitespace(chars[end - 1])
        invariant
            start <= end <= hi <= chars.len(),
            skip_trailing(chars@.subrange(start as int, hi as int)) == skip_trailing(
                chars@.subrange(start as int, end as int),
            ),
        decreases end - start,
    {
        proof {
            lemma_skip_trailing_subrange(chars@, start as int, end as int);
        }
        end = end - 1;
    }
    (start, end)
}

/// `s` without leading and trailing white space.
pub fn trim(s: &str) -> (r: String)
    ensures
        r@ == trimmed(s@),
{
    let chars = chars_of(s);
    let (start, end) = trim_bounds(&chars, 0, chars.len());
    assert(chars@.subrange(0, chars.len() as int) =~= s@);
    s.substring_char(start, end).to_owned()
}

/// Whether `chars[lo..hi]` reads `other`.
fn range_reads(chars: &Vec<char>, lo: usize, hi: usize, other: &Vec<char>) -> (b: bool)
    requires
        lo <= hi <= chars.len(),
    ensures
        b == (chars@.subrange(lo as int, hi as int) == other@),
{
    if hi - lo != other.len() {
        return false;
    }
    let n: usize = other.len();
    let mut k: usize = 0;
    while k < n
        invariant
            k <= n,
            n == other.len(),
            hi - lo == n,
            lo <= hi <= chars.len(),
            forall|j: int| 0 <= j < k ==> chars@[lo + j] == other@[j],
        decreases n - k,
    {
        if chars[lo + k] != other[k] {
            assert(chars@.subrange(lo as int, hi as int)[k as int] != other@[k as int]);
            return false;
        }
        k = k + 1;
    }
    assert(chars@.subrange(lo as int, hi as int) =~= other@);
    true
}

/// Whether `needle` stands somewhere in `hay`.
pub fn has_substring(hay: &str, needle: &str) -> (b: bool)
    ensures
        b == contains(hay@, needle@),
{
    let h = chars_of(hay);
    let n = chars_of(needle);
    if n.len() > h.len() {
        return false;
    }
    let last: usize = h.len() - n.len();
    let mut i: usize = 0;
    loop
        invariant
            i <= last,
            last == h.len() - n.len(),
            n.len() <= h.len(),
            h@ == hay@,
            n@ == needle@,
            forall|j: int| 0 <= j < i ==> !occurs_at(hay@, needle@, j),
        decreases last - i,
    {
        if range_reads(&h, i, i + n.len(), &n) {
            assert(occurs_at(hay@, needle@, i as int));
            return true;
        }
        if i == last {
            return false;
        }
        i = i + 1;
    }
}

/// Whether some line of `text`, white space at its ends aside, reads
/// `wanted`.
pub fn any_line_reads(text: &str, wanted: &str) -> (b: bool)
    ensures
        b == some_line_reads(text@, wanted@),
{
    let t = chars_of(text);
    let w = chars_of(wanted);
    let n: usize = t.len();
    let mut start: usize = 0;
    while start < n
        invariant
            start <= n,
            n == t.len(),
            t@ == text@,
            w@ == wanted@,
            start < n ==> line_starts_at(t@, start as int),
            forall|j: int|
                0 <= j < start && line_starts_at(t@, j) ==> trimmed(
                    t@.subrange(j, line_end(t@, j)),
                ) != w@,
        decreases n - start,
    {
        let mut end: usize = start;
        while end < n && t[end] != '\n'
            invariant
                start <= end <= n,
                n == t.len(),
                line_end(t@, start as int) == line_end(t@, end as int),
                forall|k: int| start <= k < end ==> t@[k] != '\n',
            decreases n - end,
        {
            end = end + 1;
        }
        let (a, b) = trim_bounds(&t, start, end);
        if range_reads(&t, a, b, &w) {
            return true;
        }
        if end == n {
            start = n;
        } else {
            start = end + 1;
        }
    }
    false
}

proof fn lemma_replaced_skip(s: Seq<char>, from: Seq<char>, to: Seq<char>, i: int)
    requires
        from.len() > 0,
        0 <= i,
        i + from.len() <= s.len(),
    ensures
        occurs_at(s, from, i) ==> replaced(s.subrange(i, s.len() as int), from, to) == to
            + replaced(s.subrange(i + from.len(), s.len() as int), from, to),
        !occurs_at(s, from, i) ==> replaced(s.subrange(i, s.len() as int), from, to) == seq![s[i]]
            + replaced(s.subrange(i + 1, s.len() as int), from, to),
{
    let rest = s.subrange(i, s.len() as int);
    assert(rest.subrange(0, from.len() as int) =~= s.subrange(i, i + from.len()));
    assert(rest.subrange(from.len() as int, rest.len() as int) =~= s.subrange(
        i + from.len(),
        s.len() as int,
    ));
    assert(rest.drop_first() =~= s.subrange(i + 1, s.len() as int));
}

/// `s` with every occurrence of `from` replaced by `to`.
pub fn replace_all(s: &str, from: &str, to: &str) -> (r: String)
    ensures
        r@ == replaced(s@, from@, to@),
{
    let sc = chars_of(s);
    let fc = chars_of(from);
    let n: usize = sc.len();
    let m: usize = fc.len();
    if m == 0 || n < m {
        return s.to_owned();
    }
    let mut out = String::new();
    let mut i: usize = 0;
    assert(s@.subrange(0, n as int) =~= s@);
    while i <= n - m
        invariant
            0 < m <= n,
            i <= n,
            n == sc.len(),
            m == fc.len(),
            sc@ == s@,
            fc@ == from@,
            out@ + replaced(s@.subrange(i as int, n as int), from@, to@) == replaced(
                s@,
                from@,
                to@,
            ),
        decreases n - i,
    {
        proof {
            lemma_replaced_skip(s@, from@, to@, i as int);
        }
        let ghost before = out@;
        if range_reads(&sc, i, i + m, &fc) {
            out.append(to);
            assert(out@ + replaced(s@.subrange(i + m, n as int), from@, to@) =~= before + (to@
                + replaced(s@.subrange(i + m, n as int), from@, to@)));
            i = i + m;
        } else {
            out.append(s.substring_char(i, i + 1));
            assert(s@.subrange(i as int, i + 1) =~= seq![s@[i as int]]);
            assert(out@ + replaced(s@.subrange(i + 1, n as int), from@, to@) =~= before + (
            seq![s@[i as int]] + replaced(s@.subrange(i + 1, n as int), from@, to@)));
            i = i + 1;
        }
    }
    out.append(s.substring_char(i, n));
    out
}

/// The text of a digit.
fn digit_text(d: usize) -> (s: &'static str)
    requires
        d < 10,
    ensures
        s@ == seq![digit(d as nat)],
{
    proof {
        reveal_strlit("0");
        reveal_strlit("1");
        reveal_strlit("2");
        reveal_strlit("3");
        reveal_strlit("4");
        reveal_strlit("5");
        reveal_strlit("6");
        reveal_strlit("7");
        reveal_strlit("8");
        reveal_strlit("9");
    }
    let s = if d == 0 {
        "0"
    } else if d == 1 {
        "1"
    } else if d == 2 {
        "2"
    } else if d == 3 {
        "3"
    } else if d == 4 {
        "4"
    } else if d == 5 {
        "5"
    } else if d == 6 {
        "6"
    } else if d == 7 {
        "7"
    } else if d == 8 {
        "8"
    } else {
        "9"
    };
    assert(s@ =~= seq![digit(d as nat)]);
    s
}

/// `n` written in decimal digits.
pub fn decimal_text(n: usize) -> (s: String)
    ensures
        s@ == decimal(n as nat),
    decreases n,
{
    if n < 10 {
        digit_text(n).to_owned()
    } else {
        let mut s = decimal_text(n / 10);
        s.append(digit_text(n % 10));
        assert(s@ =~= decimal((n / 10) as nat).push(digit((n % 10) as nat)));
        s
    }
}

/// Borrows the text of an optional string.
pub fn borrow_text(s: &Option<String>) -> (t: Option<&str>)
    ensures
        borrowed_text(t) == text_of(*s),
{
    match s {
        Some(text) => Some(text.as_str()),
        None => None,
    }
}

/// Whether two strings read the same.
pub fn same_text(a: &str, b: &str) -> (same: bool)
    ensures
        same == (a@ == b@),
{
    let x = chars_of(a);
    let y = chars_of(b);
    assert(x@.subrange(0, x.len() as int) =~= x@);
    range_reads(&x, 0, x.len(), &y)
}

} // verus!
