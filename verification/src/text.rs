//! Text helpers: the std string operations the parser relies on, and small
//! verified routines over characters.
use vstd::prelude::*;

verus! {

/// `c` has the Unicode property White_Space, which `char::is_whitespace`
/// tests.
pub open spec fn is_white_space(c: char) -> bool {
    let v = c as u32;
    ||| 9 <= v <= 13
    ||| v == 32
    ||| v == 0x85
    ||| v == 0xA0
    ||| v == 0x1680
    ||| 0x2000 <= v <= 0x200A
    ||| v == 0x2028
    ||| v == 0x2029
    ||| v == 0x202F
    ||| v == 0x205F
    ||| v == 0x3000
}

/// `s` without its leading white space.
pub open spec fn trim_start(s: Seq<char>) -> Seq<char>
    decreases s.len(),
{
    if s.len() > 0 && is_white_space(s[0]) {
        trim_start(s.drop_first())
    } else {
        s
    }
}

/// `s` without its trailing white space.
pub open spec fn trim_end(s: Seq<char>) -> Seq<char>
    decreases s.len(),
{
    if s.len() > 0 && is_white_space(s.last()) {
        trim_end(s.drop_last())
    } else {
        s
    }
}

/// `s` with leading and trailing white space removed, as `str::trim` returns
/// it.
pub open spec fn trimmed(s: Seq<char>) -> Seq<char> {
    trim_end(trim_start(s))
}

/// Every character of `s` is white space.
pub open spec fn all_white_space(s: Seq<char>) -> bool {
    forall|i: int| 0 <= i < s.len() ==> is_white_space(#[trigger] s[i])
}

/// Leading white space in front of `s` makes no difference to `trim_start`.
pub proof fn lemma_trim_start_skips_white_space(p: Seq<char>, s: Seq<char>)
    requires
        all_white_space(p),
    ensures
        trim_start(p + s) == trim_start(s),
    decreases p.len(),
{
    if p.len() > 0 {
        assert(is_white_space(p[0]));
        assert((p + s).drop_first() =~= p.drop_first() + s);
        lemma_trim_start_skips_white_space(p.drop_first(), s);
    } else {
        assert(p + s =~= s);
    }
}

/// Trailing white space after `s` makes no difference to `trim_end`.
pub proof fn lemma_trim_end_skips_white_space(s: Seq<char>, q: Seq<char>)
    requires
        all_white_space(q),
    ensures
        trim_end(s + q) == trim_end(s),
    decreases q.len(),
{
    if q.len() > 0 {
        assert(is_white_space(q.last()));
        assert((s + q).drop_last() =~= s + q.drop_last());
        lemma_trim_end_skips_white_space(s, q.drop_last());
    } else {
        assert(s + q =~= s);
    }
}

/// Trimming `s` followed by white space: when `s` is all white space the
/// result is empty, otherwise the trailing white space moves along.
proof fn lemma_trim_start_append(s: Seq<char>, q: Seq<char>)
    requires
        all_white_space(q),
    ensures
        all_white_space(s) ==> trim_start(s + q).len() == 0,
        !all_white_space(s) ==> trim_start(s + q) == trim_start(s) + q,
    decreases s.len(),
{
    if s.len() == 0 {
        assert(s + q =~= q);
        assert(q =~= seq![] + q);
        lemma_trim_start_skips_white_space(q, seq![]);
        assert(q + seq![] =~= q);
    } else if is_white_space(s[0]) {
        assert((s + q).drop_first() =~= s.drop_first() + q);
        lemma_trim_start_append(s.drop_first(), q);
        if !all_white_space(s) {
            let i = choose|i: int| 0 <= i < s.len() && !is_white_space(#[trigger] s[i]);
            assert(s.drop_first()[i - 1] == s[i]);
        } else {
            assert forall|i: int| 0 <= i < s.drop_first().len() implies is_white_space(#[trigger] s.drop_first()[i]) by {
                assert(s.drop_first()[i] == s[i + 1]);
            }
        }
    } else {
        assert((s + q)[0] == s[0]);
    }
}

/// White space around `s` makes no difference to trimming.
pub proof fn lemma_trimmed_ignores_surrounding_white_space(p: Seq<char>, s: Seq<char>, q: Seq<char>)
    requires
        all_white_space(p),
        all_white_space(q),
    ensures
        trimmed(p + s + q) == trimmed(s),
{
    lemma_trim_start_skips_white_space(p, s + q);
    assert(p + s + q =~= p + (s + q));
    lemma_trim_start_append(s, q);
    if all_white_space(s) {
        lemma_trim_start_append(s, seq![]);
        assert(s + seq![] =~= s);
        assert(trim_start(s + q) =~= trim_start(s));
    } else {
        lemma_trim_end_skips_white_space(trim_start(s), q);
    }
}

/// The trimmed text starts and ends with no white space.
pub proof fn lemma_trimmed_has_no_white_space_at_ends(s: Seq<char>)
    ensures
        trimmed(s).len() > 0 ==> !is_white_space(trimmed(s)[0]) && !is_white_space(trimmed(s).last()),
{
    lemma_trim_start_ends(s);
    lemma_trim_end_keeps_start(trim_start(s));
}

proof fn lemma_trim_start_ends(s: Seq<char>)
    ensures
        trim_start(s).len() > 0 ==> !is_white_space(trim_start(s)[0]),
    decreases s.len(),
{
    if s.len() > 0 && is_white_space(s[0]) {
        lemma_trim_start_ends(s.drop_first());
    }
}

proof fn lemma_trim_end_keeps_start(s: Seq<char>)
    ensures
        trim_end(s).len() > 0 ==> !is_white_space(trim_end(s).last()),
        trim_end(s).len() > 0 ==> trim_end(s)[0] == s[0],
    decreases s.len(),
{
    if s.len() > 0 && is_white_space(s.last()) {
        lemma_trim_end_keeps_start(s.drop_last());
    }
}

/// A text with no white space at its ends is its own trimmed text.
pub proof fn lemma_trimmed_of_clean_text(s: Seq<char>)
    requires
        s.len() > 0 ==> !is_white_space(s[0]) && !is_white_space(s.last()),
    ensures
        trimmed(s) == s,
{
}

/// Trimming twice is trimming once.
pub proof fn lemma_trimmed_idempotent(s: Seq<char>)
    ensures
        trimmed(trimmed(s)) == trimmed(s),
{
    lemma_trimmed_has_no_white_space_at_ends(s);
    lemma_trimmed_of_clean_text(trimmed(s));
}

/// `s` in lower case, as `str::to_lowercase` returns it (Unicode case
/// mapping).
pub uninterp spec fn lowercased(s: Seq<char>) -> Seq<char>;

/// Whether `c` is White_Space (the characters that `str::trim` removes).
pub fn is_white_space_char(c: char) -> (r: bool)
    ensures
        r == is_white_space(c),
{
    let v = c as u32;
    (9 <= v && v <= 13) || v == 32 || v == 0x85 || v == 0xA0 || v == 0x1680 || (0x2000 <= v && v
        <= 0x200A) || v == 0x2028 || v == 0x2029 || v == 0x202F || v == 0x205F || v == 0x3000
}

/// `s` with leading and trailing white space removed, as `str::trim` does.
pub fn trim_text(s: &str) -> (r: &str)
    ensures
        r@ == trimmed(s@),
{
    let chars = chars_of(s);
    let n = chars.len();
    let mut a: usize = 0;
    assert(s@.subrange(0, n as int) =~= s@);
    while a < n && is_white_space_char(chars[a])
        invariant
            chars@ == s@,
            n == s@.len(),
            a <= n,
            trim_start(s@) == trim_start(s@.subrange(a as int, n as int)),
        decreases n - a,
    {
        assert(s@.subrange(a as int, n as int).drop_first() =~= s@.subrange(a + 1, n as int));
        a = a + 1;
    }
    let mut b: usize = n;
    while b > a && is_white_space_char(chars[b - 1])
        invariant
            chars@ == s@,
            n == s@.len(),
            a <= b <= n,
            trimmed(s@) == trim_end(s@.subrange(a as int, b as int)),
        decreases b,
    {
        assert(s@.subrange(a as int, b as int).drop_last() =~= s@.subrange(a as int, b - 1));
        b = b - 1;
    }
    s.substring_char(a, b)
}

/// Calls `str::to_lowercase`. Claims only that the result is the lower-case
/// text, named by `lowercased`.
#[verifier::external_body]
pub(crate) fn to_lowercase_text(s: &str) -> (r: String)
    ensures
        r@ == lowercased(s@),
{
    s.to_lowercase()
}

/// Position of the first line feed in `s` at or after `from`, or the length
/// of `s` when there is none.
pub open spec fn next_line_feed(s: Seq<char>, from: int) -> int
    decreases s.len() - from,
{
    if from >= s.len() {
        s.len() as int
    } else if s[from] == '\n' {
        from
    } else {
        next_line_feed(s, from + 1)
    }
}

/// The next line feed is never before `from` and never past the end.
pub proof fn lemma_next_line_feed_bounds(s: Seq<char>, from: int)
    requires
        0 <= from,
    ensures
        from <= next_line_feed(s, from) <= s.len() || (from > s.len() && next_line_feed(s, from) == s.len()),
    decreases s.len() - from,
{
    if from < s.len() && s[from] != '\n' {
        lemma_next_line_feed_bounds(s, from + 1);
    }
}

/// The lines of `s` from position `from` on: split at each line feed, a
/// carriage return just before a line feed dropped, no final empty line
/// after a final line feed.
pub open spec fn lines_from(s: Seq<char>, from: int) -> Seq<Seq<char>>
    decreases s.len() + 1 - from,
{
    if from < 0 || from >= s.len() {
        seq![]
    } else {
        let end = next_line_feed(s, from);
        proof {
            lemma_next_line_feed_bounds(s, from);
        }
        let raw = s.subrange(from, end);
        let line = if end < s.len() && raw.len() > 0 && raw.last() == '\r' {
            raw.drop_last()
        } else {
            raw
        };
        seq![line].add(lines_from(s, end + 1))
    }
}

/// The lines of `s`, as `str::lines` yields them.
pub open spec fn text_lines(s: Seq<char>) -> Seq<Seq<char>> {
    lines_from(s, 0)
}

/// The lines of `s`, as `str::lines` yields them: split at `\n` and at
/// `\r\n`; a final line ending yields no extra empty line.
pub fn split_lines(s: &str) -> (r: Vec<&str>)
    ensures
        r@.map_values(|l: &str| l@) == text_lines(s@),
{
    let chars = chars_of(s);
    let n = chars.len();
    let mut lines: Vec<&str> = Vec::new();
    let mut from: usize = 0;
    assert(lines@.map_values(|l: &str| l@) + lines_from(s@, 0) =~= text_lines(s@));
    while from < n
        invariant
            chars@ == s@,
            n == s@.len(),
            from <= n,
            lines@.map_values(|l: &str| l@) + lines_from(s@, from as int) == text_lines(s@),
        decreases n - from,
    {
        let mut end: usize = from;
        while end < n && chars[end] != '\n'
            invariant
                chars@ == s@,
                n == s@.len(),
                from <= end <= n,
                next_line_feed(s@, from as int) == next_line_feed(s@, end as int),
            decreases n - end,
        {
            end = end + 1;
        }
        let stop: usize = if end < n && end > from && chars[end - 1] == '\r' { end - 1 } else { end };
        let line = s.substring_char(from, stop);
        proof {
            let raw = s@.subrange(from as int, end as int);
            if end < n && end > from && chars@[end - 1] == '\r' {
                assert(raw.last() == '\r');
                assert(raw.drop_last() =~= s@.subrange(from as int, stop as int));
            }
            assert(lines_from(s@, from as int) == seq![line@].add(lines_from(s@, end + 1)));
        }
        let ghost before = lines@.map_values(|l: &str| l@);
        lines.push(line);
        assert(lines@.map_values(|l: &str| l@) =~= before.push(line@));
        assert(before + lines_from(s@, from as int) =~= before.push(line@) + lines_from(s@, end + 1));
        if end < n {
            from = end + 1;
        } else {
            assert(lines_from(s@, end + 1) =~= lines_from(s@, n as int));
            from = n;
        }
    }
    assert(lines_from(s@, from as int) =~= seq![]);
    assert(lines@.map_values(|l: &str| l@) + seq![] =~= lines@.map_values(|l: &str| l@));
    lines
}

/// Whether two texts are the same sequence of characters.
pub fn same_text(a: &str, b: &str) -> (r: bool)
    ensures
        r == (a@ == b@),
{
    String::from_str(a) == String::from_str(b)
}

/// The characters of `s`.
pub fn chars_of(s: &str) -> (v: Vec<char>)
    ensures
        v@ == s@,
{
    let n = s.unicode_len();
    let mut v: Vec<char> = Vec::new();
    let mut i: usize = 0;
    while i < n
        invariant
            n == s@.len(),
            i <= n,
            v@ == s@.subrange(0, i as int),
        decreases n - i,
    {
        v.push(s.get_char(i));
        i = i + 1;
    }
    v
}

/// Code of a character with ASCII upper-case letters mapped to lower case.
pub open spec fn ascii_lower_code(c: char) -> u32 {
    if 65 <= (c as u32) <= 90 {
        ((c as u32) + 32) as u32
    } else {
        c as u32
    }
}

/// `a` and `b` are equal when ASCII letters are compared without case, as
/// `str::eq_ignore_ascii_case` decides.
pub open spec fn eq_ignoring_ascii_case(a: Seq<char>, b: Seq<char>) -> bool {
    &&& a.len() == b.len()
    &&& forall|i: int| 0 <= i < a.len() ==> ascii_lower_code(#[trigger] a[i]) == ascii_lower_code(b[i])
}

/// `needle` occurs in `hay` as a contiguous run, as `str::contains` decides
/// for a text pattern (the empty text occurs everywhere).
pub open spec fn occurs_in(needle: Seq<char>, hay: Seq<char>) -> bool {
    exists|i: int| 0 <= i && i + needle.len() <= hay.len() && #[trigger] hay.subrange(i, i + needle.len()) == needle
}

fn lower_code(c: char) -> (r: u32)
    ensures
        r == ascii_lower_code(c),
{
    let code = c as u32;
    if 65 <= code && code <= 90 {
        code + 32
    } else {
        code
    }
}

/// Compares two character sequences without regard to ASCII case.
pub fn chars_eq_ignore_ascii_case(a: &Vec<char>, b: &Vec<char>) -> (r: bool)
    ensures
        r == eq_ignoring_ascii_case(a@, b@),
{
    if a.len() != b.len() {
        return false;
    }
    let n = a.len();
    let mut i: usize = 0;
    while i < n
        invariant
            n == a.len(),
            n == b.len(),
            i <= n,
            forall|j: int| 0 <= j < i ==> ascii_lower_code(#[trigger] a@[j]) == ascii_lower_code(b@[j]),
        decreases n - i,
    {
        if lower_code(a[i]) != lower_code(b[i]) {
            return false;
        }
        i = i + 1;
    }
    true
}

/// Whether `needle` occurs as a contiguous run in `hay`.
pub fn chars_contain(hay: &Vec<char>, needle: &Vec<char>) -> (r: bool)
    ensures
        r == occurs_in(needle@, hay@),
{
    let m = needle.len();
    if m == 0 {
        assert(hay@.subrange(0int, 0int + needle@.len()) =~= needle@);
        return true;
    }
    if m > hay.len() {
        return false;
    }
    let last = hay.len() - m;
    let mut i: usize = 0;
    while i <= last
        invariant
            m == needle.len(),
            m >= 1,
            last + m == hay.len(),
            i <= last + 1,
            forall|p: int| 0 <= p < i ==> #[trigger] hay@.subrange(p, p + m) != needle@,
        decreases last + 1 - i,
    {
        let mut k: usize = 0;
        let mut same = true;
        while k < m
            invariant
                m == needle.len(),
                last + m == hay.len(),
                i <= last,
                k <= m,
                same ==> forall|q: int| 0 <= q < k ==> hay@[i + q] == needle@[q],
                !same ==> hay@.subrange(i as int, i + m) != needle@,
            decreases m - k,
        {
            if hay[i + k] != needle[k] {
                same = false;
                assert(hay@.subrange(i as int, i + m)[k as int] != needle@[k as int]);
            }
            k = k + 1;
        }
        if same {
            assert(hay@.subrange(i as int, i + m) =~= needle@);
            return true;
        }
        i = i + 1;
    }
    proof {
        assert forall|p: int| 0 <= p && p + needle@.len() <= hay@.len() implies #[trigger] hay@.subrange(p, p + needle@.len()) != needle@ by {
            assert(p < i);
        }
    }
    false
}

} // verus!
