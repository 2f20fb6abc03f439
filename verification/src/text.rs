//! Character-level text processing: conversions between strings and
//! character vectors, trimming, searching, replacing, splitting, and decimal
//! numbers.  Every operation is specified over `Seq<char>`.
use vstd::prelude::*;
use vstd::std_specs::iter::IteratorSpec;

verus! {

// ---------------------------------------------------------------------------
// Conversions
// ---------------------------------------------------------------------------

/// Appends one character to a string.
///
/// Trusted: calls `String::push`, whose documentation says that it appends the
/// character to the end of the string.
#[verifier::external_body]
pub(crate) fn push_char(s: &mut String, c: char)
    ensures
        final(s)@ == old(s)@.push(c),
{
    s.push(c);
}

/// The characters of a string slice, in order.
pub fn chars_of(s: &str) -> (res: Vec<char>)
    ensures
        res@ == s@,
{
    broadcast use vstd::string::group_string_axioms;

    let mut res: Vec<char> = Vec::new();
    for c in it: s.chars()
        invariant
            res@ == it.seq().take(it.index() as int),
            it.seq() == s@,
    {
        res.push(c);
    }
    res
}

/// The string made of the given characters.
pub fn string_of(s: &[char]) -> (res: String)
    ensures
        res@ == s@,
{
    let mut res = String::new();
    let mut i: usize = 0;
    while i < s.len()
        invariant
            i <= s@.len(),
            res@ == s@.take(i as int),
        decreases s@.len() - i,
    {
        push_char(&mut res, s[i]);
        assert(s@.take(i + 1) == s@.take(i as int).push(s@[i as int]));
        i = i + 1;
    }
    assert(s@.take(s@.len() as int) == s@);
    res
}

/// Appends the characters of `s` to `out`.
pub fn append_chars(out: &mut Vec<char>, s: &[char])
    ensures
        final(out)@ == old(out)@ + s@,
{
    let mut i: usize = 0;
    while i < s.len()
        invariant
            i <= s@.len(),
            out@ == old(out)@ + s@.take(i as int),
        decreases s@.len() - i,
    {
        out.push(s[i]);
        assert(s@.take(i + 1) == s@.take(i as int).push(s@[i as int]));
        i = i + 1;
    }
    assert(s@.take(s@.len() as int) == s@);
}

/// The characters of `s` from index `from` (included) to `to` (excluded).
pub fn sub_chars(s: &[char], from: usize, to: usize) -> (res: Vec<char>)
    requires
        from <= to <= s@.len(),
    ensures
        res@ == s@.subrange(from as int, to as int),
{
    let mut res: Vec<char> = Vec::new();
    let mut i: usize = from;
    while i < to
        invariant
            from <= i <= to <= s@.len(),
            res@ == s@.subrange(from as int, i as int),
        decreases to - i,
    {
        res.push(s[i]);
        assert(s@.subrange(from as int, i + 1) == s@.subrange(from as int, i as int).push(
            s@[i as int],
        ));
        i = i + 1;
    }
    res
}

/// How `Debug` writes a string: between double quotes, each character
/// escaped as `char::escape_debug` does, except that `'` is left as it is.
pub uninterp spec fn debug_quoted(s: Seq<char>) -> Seq<char>;

/// A character that `Debug` writes as it is inside a string: a printable
/// ASCII character other than `"` and `\`.
pub open spec fn debug_plain(c: char) -> bool {
    ' ' <= c <= '~' && c != '"' && c != '\\'
}

/// Trusted: `format!("{:?}", s)`.  The contract names the result
/// (`debug_quoted`) and states what std's documentation of `escape_debug`
/// gives: a string of printable ASCII characters without `"` or `\` is
/// written unchanged between double quotes.
#[verifier::external_body]
pub(crate) fn debug_text(s: &str) -> (res: String)
    ensures
        res@ == debug_quoted(s@),
        (forall|i: int| 0 <= i < s@.len() ==> debug_plain(#[trigger] s@[i])) ==> res@ == seq!['"']
            + s@ + seq!['"'],
{
    format!("{:?}", s)
}

// ---------------------------------------------------------------------------
// Whitespace and trimming
// ---------------------------------------------------------------------------

/// The characters with the Unicode `White_Space` property, which is what
/// `char::is_whitespace` tests.
pub open spec fn is_whitespace(c: char) -> bool {
    ||| '\u{9}' <= c <= '\u{d}'
    ||| c == ' '
    ||| c == '\u{85}'
    ||| c == '\u{a0}'
    ||| c == '\u{1680}'
    ||| '\u{2000}' <= c <= '\u{200a}'
    ||| c == '\u{2028}'
    ||| c == '\u{2029}'
    ||| c == '\u{202f}'
    ||| c == '\u{205f}'
    ||| c == '\u{3000}'
}

pub fn char_is_whitespace(c: char) -> (res: bool)
    ensures
        res == is_whitespace(c),
{
    ('\u{9}' <= c && c <= '\u{d}') || c == ' ' || c == '\u{85}' || c == '\u{a0}' || c
        == '\u{1680}' || ('\u{2000}' <= c && c <= '\u{200a}') || c == '\u{2028}' || c
        == '\u{2029}' || c == '\u{202f}' || c == '\u{205f}' || c == '\u{3000}'
}

/// `s` without its leading whitespace.
pub open spec fn trim_start_spec(s: Seq<char>) -> Seq<char>
    decreases s.len(),
{
    if s.len() > 0 && is_whitespace(s[0]) {
        trim_start_spec(s.drop_first())
    } else {
        s
    }
}

/// `s` without its trailing whitespace.
pub open spec fn trim_end_spec(s: Seq<char>) -> Seq<char>
    decreases s.len(),
{
    if s.len() > 0 && is_whitespace(s.last()) {
        trim_end_spec(s.drop_last())
    } else {
        s
    }
}

/// `s` without its leading and trailing whitespace.
pub open spec fn trim_spec(s: Seq<char>) -> Seq<char> {
    trim_end_spec(trim_start_spec(s))
}

/// The index of the first character of `s` that `trim_start` keeps.
fn trim_start_index(s: &[char]) -> (i: usize)
    ensures
        i <= s@.len(),
        trim_start_spec(s@) == s@.skip(i as int),
{
    let mut i: usize = 0;
    assert(s@.skip(0) == s@);
    while i < s.len() && char_is_whitespace(s[i])
        invariant
            i <= s@.len(),
            trim_start_spec(s@) == trim_start_spec(s@.skip(i as int)),
        decreases s@.len() - i,
    {
        assert(s@.skip(i as int).drop_first() == s@.skip(i + 1));
        i = i + 1;
    }
    i
}

/// `s` without its leading whitespace (as `str::trim_start`).
pub fn trim_start(s: &[char]) -> (res: Vec<char>)
    ensures
        res@ == trim_start_spec(s@),
{
    let i = trim_start_index(s);
    assert(s@.skip(i as int) == s@.subrange(i as int, s@.len() as int));
    sub_chars(s, i, s.len())
}

/// `s` without its leading and trailing whitespace (as `str::trim`, which is
/// `trim_start` followed by `trim_end`).
pub fn trim(s: &[char]) -> (res: Vec<char>)
    ensures
        res@ == trim_spec(s@),
{
    let i = trim_start_index(s);
    let mut j: usize = s.len();
    assert(s@.subrange(i as int, j as int) == s@.skip(i as int));
    while j > i && char_is_whitespace(s[j - 1])
        invariant
            i <= j <= s@.len(),
            trim_spec(s@) == trim_end_spec(s@.subrange(i as int, j as int)),
        decreases j,
    {
        assert(s@.subrange(i as int, j as int).drop_last() == s@.subrange(i as int, j - 1));
        j = j - 1;
    }
    sub_chars(s, i, j)
}

// ---------------------------------------------------------------------------
// Searching and replacing
// ---------------------------------------------------------------------------

/// `p` is a prefix of `s`.
pub open spec fn starts_with(s: Seq<char>, p: Seq<char>) -> bool {
    p.len() <= s.len() && s.take(p.len() as int) == p
}

/// `p` occurs somewhere in `s` (as `str::contains` with a string pattern).
pub open spec fn contains_seq(s: Seq<char>, p: Seq<char>) -> bool {
    exists|i: int| 0 <= i <= s.len() && #[trigger] starts_with(s.skip(i), p)
}

/// Whether `p` occurs in `s` at index `i`.
pub fn matches_at(s: &[char], i: usize, p: &[char]) -> (res: bool)
    requires
        i <= s@.len(),
    ensures
        res == starts_with(s@.skip(i as int), p@),
{
    if p.len() > s.len() - i {
        return false;
    }
    let n = s.len();
    let mut k: usize = 0;
    while k < p.len()
        invariant
            k <= p@.len(),
            n == s@.len(),
            i + p@.len() <= n,
            forall|m: int| 0 <= m < k ==> s@[i + m] == p@[m],
        decreases p@.len() - k,
    {
        assert(i + k < s@.len());
        if s[i + k] != p[k] {
            assert(s@.skip(i as int).take(p@.len() as int)[k as int] != p@[k as int]);
            return false;
        }
        k = k + 1;
    }
    assert(s@.skip(i as int).take(p@.len() as int) == p@);
    true
}

/// Whether `p` occurs in `s`.
pub fn contains(s: &[char], p: &[char]) -> (res: bool)
    ensures
        res == contains_seq(s@, p@),
{
    let mut i: usize = 0;
    while i < s.len()
        invariant
            i <= s@.len(),
            forall|m: int| 0 <= m < i ==> !#[trigger] starts_with(s@.skip(m), p@),
        decreases s@.len() - i,
    {
        if matches_at(s, i, p) {
            return true;
        }
        i = i + 1;
    }
    if matches_at(s, i, p) {
        return true;
    }
    assert forall|m: int| 0 <= m <= s@.len() implies !#[trigger] starts_with(s@.skip(m), p@) by {
    }
    false
}

/// Every occurrence of `from` in `s`, scanning left to right without overlap,
/// replaced by `to` (as `str::replace` with a non-empty pattern).
pub open spec fn replace_spec(s: Seq<char>, from: Seq<char>, to: Seq<char>) -> Seq<char>
    decreases s.len(),
{
    if s.len() == 0 || from.len() == 0 {
        s
    } else if starts_with(s, from) {
        to + replace_spec(s.skip(from.len() as int), from, to)
    } else {
        seq![s[0]] + replace_spec(s.drop_first(), from, to)
    }
}

/// `s` with every occurrence of `from` replaced by `to`.
pub fn replace_all(s: &[char], from: &[char], to: &[char]) -> (res: Vec<char>)
    requires
        from@.len() > 0,
    ensures
        res@ == replace_spec(s@, from@, to@),
{
    let mut out: Vec<char> = Vec::new();
    let mut i: usize = 0;
    assert(s@.skip(0) == s@);
    while i < s.len()
        invariant
            i <= s@.len(),
            from@.len() > 0,
            out@ + replace_spec(s@.skip(i as int), from@, to@) == replace_spec(s@, from@, to@),
        decreases s@.len() - i,
    {
        let ghost rest = s@.skip(i as int);
        if matches_at(s, i, from) {
            let ghost old_out = out@;
            append_chars(&mut out, to);
            let ghost tail = replace_spec(rest.skip(from@.len() as int), from@, to@);
            assert(rest.skip(from@.len() as int) == s@.skip(i + from@.len()));
            assert(replace_spec(rest, from@, to@) == to@ + tail);
            assert(out@ + tail == old_out + (to@ + tail));
            i = i + from.len();
        } else {
            let ghost old_out = out@;
            out.push(s[i]);
            let ghost tail = replace_spec(rest.drop_first(), from@, to@);
            assert(rest.drop_first() == s@.skip(i + 1));
            assert(rest[0] == s@[i as int]);
            assert(replace_spec(rest, from@, to@) == seq![rest[0]] + tail);
            assert(out@ + tail == old_out + (seq![rest[0]] + tail));
            i = i + 1;
        }
    }
    let ghost empty: Seq<char> = seq![];
    assert(s@.skip(i as int) == empty);
    assert(out@ + empty == out@);
    out
}

// ---------------------------------------------------------------------------
// Splitting on a character
// ---------------------------------------------------------------------------

/// The pieces of `s` between occurrences of `c` (as `str::split` with a
/// character pattern): one more piece than there are occurrences of `c`.
pub open spec fn split_spec(s: Seq<char>, c: char) -> Seq<Seq<char>>
    decreases s.len(),
{
    if s.len() == 0 {
        seq![Seq::<char>::empty()]
    } else {
        let p = split_spec(s.drop_last(), c);
        if s.last() == c {
            p.push(Seq::<char>::empty())
        } else {
            p.update(p.len() - 1, p.last().push(s.last()))
        }
    }
}

/// `split_spec` always yields at least one piece.
pub proof fn lemma_split_nonempty(s: Seq<char>, c: char)
    ensures
        split_spec(s, c).len() >= 1,
    decreases s.len(),
{
    if s.len() > 0 {
        lemma_split_nonempty(s.drop_last(), c);
    }
}

/// What follows the first occurrence of `c` in `s` (as `splitn(2, c).nth(1)`),
/// or `None` where `c` does not occur.
pub open spec fn after_first(s: Seq<char>, c: char) -> Option<Seq<char>>
    decreases s.len(),
{
    if s.len() == 0 {
        None
    } else if s[0] == c {
        Some(s.drop_first())
    } else {
        after_first(s.drop_first(), c)
    }
}

/// The pieces of `s` between occurrences of `c`.
pub fn split_on(s: &[char], c: char) -> (res: Vec<Vec<char>>)
    ensures
        res.deep_view() == split_spec(s@, c),
{
    let mut pieces: Vec<Vec<char>> = Vec::new();
    let mut cur: Vec<char> = Vec::new();
    let mut i: usize = 0;
    assert(s@.take(0) == Seq::<char>::empty());
    assert(pieces.deep_view().push(cur@) == split_spec(s@.take(0), c));
    while i < s.len()
        invariant
            i <= s@.len(),
            pieces.deep_view().push(cur@) == split_spec(s@.take(i as int), c),
        decreases s@.len() - i,
    {
        let ghost before = pieces.deep_view();
        let ghost old_cur = cur@;
        let ghost t = s@.take(i + 1);
        assert(t.drop_last() == s@.take(i as int));
        assert(t.last() == s@[i as int]);
        assert(cur.deep_view() =~= cur@);
        if s[i] == c {
            pieces.push(cur);
            cur = Vec::new();
            assert(pieces.deep_view() =~= before.push(old_cur));
        } else {
            cur.push(s[i]);
            assert(pieces.deep_view() =~= before);
            assert(pieces.deep_view().push(cur@) =~= before.push(old_cur).update(
                before.len() as int,
                old_cur.push(s@[i as int]),
            ));
        }
        i = i + 1;
    }
    assert(s@.take(s@.len() as int) == s@);
    let ghost before = pieces.deep_view();
    let ghost last = cur@;
    assert(cur.deep_view() =~= cur@);
    pieces.push(cur);
    assert(pieces.deep_view() =~= before.push(last));
    pieces
}

/// What follows the first occurrence of `c` in `s`.
pub fn after_first_of(s: &[char], c: char) -> (res: Option<Vec<char>>)
    ensures
        res.deep_view() == after_first(s@, c),
{
    let mut i: usize = 0;
    assert(s@.skip(0) == s@);
    while i < s.len()
        invariant
            i <= s@.len(),
            after_first(s@, c) == after_first(s@.skip(i as int), c),
        decreases s@.len() - i,
    {
        assert(s@.skip(i as int)[0] == s@[i as int]);
        assert(s@.skip(i as int).drop_first() == s@.skip(i + 1));
        if s[i] == c {
            let rest = sub_chars(s, i + 1, s.len());
            assert(rest.deep_view() =~= rest@);
            return Some(rest);
        }
        i = i + 1;
    }
    None
}

// ---------------------------------------------------------------------------
// Decimal numbers
// ---------------------------------------------------------------------------

/// The ASCII digit for `d` (`0 <= d < 10`).
pub open spec fn digit_char(d: int) -> char {
    (d + 48) as char
}

/// The decimal representation of `n`, without sign or leading zeros (as the
/// `Display` of an unsigned integer).
pub open spec fn decimal_spec(n: nat) -> Seq<char>
    decreases n,
{
    if n < 10 {
        seq![digit_char(n as int)]
    } else {
        decimal_spec(n / 10).push(digit_char((n % 10) as int))
    }
}

/// Appends the decimal representation of `n` to `out`.
pub fn write_decimal(n: u64, out: &mut Vec<char>)
    ensures
        final(out)@ == old(out)@ + decimal_spec(n as nat),
    decreases n,
{
    let ghost start = out@;
    if n >= 10 {
        write_decimal(n / 10, out);
    }
    let d: u8 = (n % 10) as u8;
    let c: char = (48u8 + d) as char;
    assert(c == digit_char((n % 10) as int));
    out.push(c);
    if n >= 10 {
        assert(out@ == start + decimal_spec(n as nat));
    } else {
        assert(out@ == start + decimal_spec(n as nat));
    }
}

/// The decimal representation of `n` as a string.
pub fn decimal_string(n: u64) -> (res: String)
    ensures
        res@ == decimal_spec(n as nat),
{
    let mut v: Vec<char> = Vec::new();
    write_decimal(n, &mut v);
    assert(v@ == decimal_spec(n as nat));
    string_of(v.as_slice())
}

pub open spec fn is_ascii_digit(c: char) -> bool {
    '0' <= c <= '9'
}

pub open spec fn all_digits(s: Seq<char>) -> bool {
    forall|i: int| 0 <= i < s.len() ==> is_ascii_digit(#[trigger] s[i])
}

/// The number that a sequence of ASCII digits denotes.
pub open spec fn digits_value(s: Seq<char>) -> int
    decreases s.len(),
{
    if s.len() == 0 {
        0
    } else {
        digits_value(s.drop_last()) * 10 + (s.last() as int - 48)
    }
}

/// `s` without one leading `+`.
pub open spec fn unsigned_body(s: Seq<char>) -> Seq<char> {
    if s.len() > 0 && s[0] == '+' {
        s.drop_first()
    } else {
        s
    }
}

/// The value that `str::parse` gives for an unsigned integer type whose
/// largest value is `max`: an optional `+`, then one or more ASCII digits,
/// denoting a number no larger than `max`; `None` for any other text.
pub open spec fn parse_unsigned_spec(s: Seq<char>, max: int) -> Option<int> {
    let d = unsigned_body(s);
    if d.len() > 0 && all_digits(d) && digits_value(d) <= max {
        Some(digits_value(d))
    } else {
        None
    }
}

proof fn lemma_digits_value_nonneg(s: Seq<char>)
    requires
        all_digits(s),
    ensures
        digits_value(s) >= 0,
    decreases s.len(),
{
    if s.len() > 0 {
        assert(all_digits(s.drop_last()));
        lemma_digits_value_nonneg(s.drop_last());
        assert(is_ascii_digit(s[s.len() - 1]));
    }
}

/// Parses `s` as an unsigned integer no larger than `max`.
pub fn parse_unsigned(s: &[char], max: u64) -> (res: Option<u64>)
    ensures
        res matches Some(v) ==> parse_unsigned_spec(s@, max as int) == Some(v as int),
        res is None ==> parse_unsigned_spec(s@, max as int) is None,
{
    let n = s.len();
    let start: usize = if n > 0 && s[0] == '+' {
        1
    } else {
        0
    };
    let ghost body = unsigned_body(s@);
    assert(body == s@.subrange(start as int, n as int));
    if start == n {
        return None;
    }
    let mut acc: u64 = 0;
    let mut over = false;
    let mut k: usize = start;
    assert(s@.subrange(start as int, start as int) == Seq::<char>::empty());
    while k < n
        invariant
            start <= k <= n,
            n == s@.len(),
            all_digits(s@.subrange(start as int, k as int)),
            body == s@.subrange(start as int, n as int),
            body == unsigned_body(s@),
            !over ==> acc == digits_value(s@.subrange(start as int, k as int)) && acc <= max,
            over ==> digits_value(s@.subrange(start as int, k as int)) > max,
        decreases n - k,
    {
        let ghost t = s@.subrange(start as int, k as int);
        let ghost t2 = s@.subrange(start as int, k + 1);
        assert(t2.drop_last() == t);
        assert(t2.last() == s@[k as int]);
        let c = s[k];
        if !('0' <= c && c <= '9') {
            assert(body[(k - start) as int] == c);
            assert(!is_ascii_digit(body[(k - start) as int]));
            assert(!all_digits(body));
            return None;
        }
        assert(all_digits(t2));
        let dd: u64 = (c as u32 - 48) as u64;
        assert(dd == c as int - 48);
        assert(digits_value(t2) == digits_value(t) * 10 + dd);
        proof {
            lemma_digits_value_nonneg(t);
        }
        if !over {
            if dd > max || acc > (max - dd) / 10 {
                assert(acc * 10 + dd > max) by (nonlinear_arith)
                    requires
                        dd > max || acc > (max - dd) / 10,
                        dd < 10,
                ;
                over = true;
            } else {
                assert(acc * 10 + dd <= max) by (nonlinear_arith)
                    requires
                        acc <= (max - dd) / 10,
                        dd <= max,
                ;
                acc = acc * 10 + dd;
            }
        }
        k = k + 1;
    }
    if over {
        None
    } else {
        Some(acc)
    }
}

proof fn lemma_digit_char(k: int)
    requires
        0 <= k < 10,
    ensures
        digit_char(k) as int == k + 48,
        is_ascii_digit(digit_char(k)),
{
}

/// Decimal representations are digit strings that denote their number.
proof fn lemma_decimal_digits(n: nat)
    ensures
        decimal_spec(n).len() > 0,
        all_digits(decimal_spec(n)),
        digits_value(decimal_spec(n)) == n,
    decreases n,
{
    lemma_digit_char((n % 10) as int);
    let d = decimal_spec(n);
    assert(d.drop_last().len() == 0 ==> digits_value(d.drop_last()) == 0);
    if n < 10 {
        assert(d.drop_last() == Seq::<char>::empty());
    }
    if n >= 10 {
        lemma_decimal_digits(n / 10);
        let d = decimal_spec(n);
        assert(d.drop_last() == decimal_spec(n / 10));
        assert forall|i: int| 0 <= i < d.len() implies is_ascii_digit(#[trigger] d[i]) by {
            if i < d.len() - 1 {
                assert(d[i] == decimal_spec(n / 10)[i]);
            }
        }
    }
}

/// Printing a number in decimal and parsing the text back gives the number:
/// `n.to_string().parse()` is `Ok(n)` for every `n` that fits the type.
pub proof fn lemma_decimal_parse_roundtrip(n: nat, max: int)
    requires
        n <= max,
    ensures
        parse_unsigned_spec(decimal_spec(n), max) == Some(n as int),
{
    lemma_decimal_digits(n);
    let d = decimal_spec(n);
    assert(is_ascii_digit(d[0]));
    assert(unsigned_body(d) == d);
}

/// What follows the first `c` of `prefix + [c] + rest`, where `prefix`
/// holds no `c`, is `rest`.
pub proof fn lemma_after_first_separator(prefix: Seq<char>, c: char, rest: Seq<char>)
    requires
        !prefix.contains(c),
    ensures
        after_first(prefix + seq![c] + rest, c) == Some(rest),
    decreases prefix.len(),
{
    let s = prefix + seq![c] + rest;
    if prefix.len() == 0 {
        assert(s[0] == c);
        assert(s.drop_first() =~= rest);
    } else {
        assert(s[0] == prefix[0]);
        assert(prefix[0] != c);
        let shorter = prefix.drop_first();
        assert forall|i: int| 0 <= i < shorter.len() implies shorter[i] != c by {
            assert(shorter[i] == prefix[i + 1]);
        }
        assert(s.drop_first() =~= shorter + seq![c] + rest);
        lemma_after_first_separator(shorter, c, rest);
    }
}

} // verus!
