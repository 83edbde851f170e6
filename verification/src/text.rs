//! Small verified operations on strings, stated over their views as
//! sequences of characters.

use crate::model::{first_index_of, lemma_filter_push, lemma_first_index_of, views};
use vstd::prelude::*;
use vstd::string::*;

verus! {

/// The position of the first `sep` in `s`, if there is one.
pub fn find_char(s: &str, sep: char) -> (r: Option<usize>)
    ensures
        match r {
            Some(i) => i == first_index_of(s@, sep) && i < s@.len(),
            None => first_index_of(s@, sep) == s@.len(),
        },
{
    broadcast use vstd::string::group_string_axioms;

    let n: usize = s.unicode_len();
    let mut i: usize = 0;
    proof {
        lemma_first_index_of(s@, sep);
    }
    for c in it: s.chars()
        invariant
            it.seq() == s@,
            n == s@.len(),
            i == it.index(),
            forall|j: int| 0 <= j < i ==> s@[j] != sep,
            0 <= first_index_of(s@, sep) <= s@.len(),
            forall|j: int| 0 <= j < first_index_of(s@, sep) ==> s@[j] != sep,
            first_index_of(s@, sep) < s@.len() ==> s@[first_index_of(s@, sep)] == sep,
    {
        if c == sep {
            return Some(i);
        }
        i = i + 1;
    }
    None
}

/// The two parts of `s` around its first `sep`, where it has one.
pub open spec fn split_at_first(s: Seq<char>, sep: char) -> Option<(Seq<char>, Seq<char>)> {
    let i = first_index_of(s, sep);
    if i < s.len() {
        Some((s.subrange(0, i), s.subrange(i + 1, s.len() as int)))
    } else {
        None
    }
}

/// Splits `s` at its first `sep`: what stands before it and what stands
/// after it, or `None` where `sep` does not occur.
pub fn split_once(s: &str, sep: char) -> (r: Option<(String, String)>)
    ensures
        match r {
            Some((a, b)) => split_at_first(s@, sep) == Some((a@, b@)),
            None => split_at_first(s@, sep) is None,
        },
{
    proof {
        lemma_first_index_of(s@, sep);
    }
    match find_char(s, sep) {
        Some(i) => {
            let n: usize = s.unicode_len();
            let head = s.substring_char(0, i);
            let tail = s.substring_char(i + 1, n);
            Some((String::from_str(head), String::from_str(tail)))
        },
        None => None,
    }
}

/// What stands in `s` before its first `sep`; all of `s` where it has none.
pub open spec fn before_first(s: Seq<char>, sep: char) -> Seq<char> {
    s.subrange(0, first_index_of(s, sep))
}

/// What stands in `s` before its first `sep`; all of `s` where it has none.
pub fn part_before<'a>(s: &'a str, sep: char) -> (r: &'a str)
    ensures
        r@ == before_first(s@, sep),
{
    proof {
        lemma_first_index_of(s@, sep);
    }
    match find_char(s, sep) {
        Some(i) => s.substring_char(0, i),
        None => {
            assert(s@.subrange(0, s@.len() as int) =~= s@);
            s
        },
    }
}

/// The character that stands for a digit below ten.
pub open spec fn digit_char(d: int) -> char {
    if d == 0 {
        '0'
    } else if d == 1 {
        '1'
    } else if d == 2 {
        '2'
    } else if d == 3 {
        '3'
    } else if d == 4 {
        '4'
    } else if d == 5 {
        '5'
    } else if d == 6 {
        '6'
    } else if d == 7 {
        '7'
    } else if d == 8 {
        '8'
    } else {
        '9'
    }
}

/// The decimal digits of a natural number, most significant first.
pub open spec fn digits(n: nat) -> Seq<char>
    decreases n,
{
    if n < 10 {
        seq![digit_char(n as int)]
    } else {
        digits(n / 10).push(digit_char((n % 10) as int))
    }
}

/// The decimal notation of an integer, with a leading minus sign below zero.
pub open spec fn decimal_text(n: int) -> Seq<char> {
    if n < 0 {
        seq!['-'] + digits((-n) as nat)
    } else {
        digits(n as nat)
    }
}

fn digit_str(d: u64) -> (r: &'static str)
    requires
        d < 10,
    ensures
        r@ == seq![digit_char(d as int)],
{
    proof {
        reveal_strlit("0");
        reveal_strlit("1");
        reveal_strlit("2");
        reveal_strlit("3");
        reveal_strlit("4");
        reveal_strlit("5");
        reveal_strlit("6");
        reveal_strlit("7");
        reveal_strlit("8");
        reveal_strlit("9");
    }
    let r = if d == 0 {
        "0"
    } else if d == 1 {
        "1"
    } else if d == 2 {
        "2"
    } else if d == 3 {
        "3"
    } else if d == 4 {
        "4"
    } else if d == 5 {
        "5"
    } else if d == 6 {
        "6"
    } else if d == 7 {
        "7"
    } else if d == 8 {
        "8"
    } else {
        "9"
    };
    assert(r@ =~= seq![digit_char(d as int)]);
    r
}

/// Appends the decimal digits of `n` to `out`.
fn push_digits(out: &mut String, n: u64)
    ensures
        final(out)@ == old(out)@ + digits(n as nat),
    decreases n,
{
    if n >= 10 {
        push_digits(out, n / 10);
    }
    let ghost before = out@;
    out.append(digit_str(n % 10));
    proof {
        if n >= 10 {
            assert(out@ =~= old(out)@ + digits(n as nat));
        } else {
            assert(out@ =~= old(out)@ + digits(n as nat));
        }
    }
}

/// The decimal notation of `n`.
pub fn decimal(n: i64) -> (r: String)
    ensures
        r@ == decimal_text(n as int),
{
    let mut out = String::new();
    if n < 0 {
        proof {
            reveal_strlit("-");
        }
        out.append("-");
        let magnitude: u64 = if n == i64::MIN {
            0x8000_0000_0000_0000u64
        } else {
            (-n) as u64
        };
        push_digits(&mut out, magnitude);
        assert(out@ =~= decimal_text(n as int));
    } else {
        push_digits(&mut out, n as u64);
        assert(out@ =~= decimal_text(n as int));
    }
    out
}

/// Whether `s` and `other` are the same text.
pub fn is_text(s: &String, other: &str) -> (r: bool)
    ensures
        r == (s@ == other@),
{
    *s == String::from_str(other)
}

/// The characters of `s`.
pub fn chars_of(s: &str) -> (r: Vec<char>)
    ensures
        r@ == s@,
{
    broadcast use vstd::string::group_string_axioms;

    let mut r: Vec<char> = Vec::new();
    for c in it: s.chars()
        invariant
            it.seq() == s@,
            r@ =~= s@.take(it.index()),
    {
        r.push(c);
    }
    assert(r@ =~= s@);
    r
}

/// `p` stands at the start of `s`.
pub open spec fn is_prefix(p: Seq<char>, s: Seq<char>) -> bool {
    p.len() <= s.len() && s.subrange(0, p.len() as int) == p
}

/// `p` stands in `s` from position `i` on.
pub open spec fn occurs_at(p: Seq<char>, s: Seq<char>, i: int) -> bool {
    0 <= i && i + p.len() <= s.len() && s.subrange(i, i + p.len()) == p
}

/// `p` stands somewhere in `s`.
pub open spec fn occurs_in(p: Seq<char>, s: Seq<char>) -> bool {
    exists|i: int| occurs_at(p, s, i)
}

fn matches_at(p: &Vec<char>, s: &Vec<char>, i: usize) -> (r: bool)
    ensures
        r == occurs_at(p@, s@, i as int),
{
    if p.len() > s.len() || i > s.len() - p.len() {
        return false;
    }
    let mut k: usize = 0;
    while k < p.len()
        invariant
            k <= p.len(),
            i + p.len() <= s.len(),
            forall|j: int| 0 <= j < k ==> s@[i + j] == p@[j],
        decreases p.len() - k,
    {
        if s[i + k] != p[k] {
            assert(s@.subrange(i as int, i + p.len())[k as int] == s@[i + k]);
            return false;
        }
        k += 1;
    }
    assert(s@.subrange(i as int, i + p.len()) =~= p@);
    true
}

/// Whether `s` begins with `prefix`.
pub fn has_prefix(s: &str, prefix: &str) -> (r: bool)
    ensures
        r == is_prefix(prefix@, s@),
{
    let sc = chars_of(s);
    let pc = chars_of(prefix);
    matches_at(&pc, &sc, 0)
}

/// Whether `needle` occurs in `s`.
pub fn has_part(s: &str, needle: &str) -> (r: bool)
    ensures
        r == occurs_in(needle@, s@),
{
    let sc = chars_of(s);
    let pc = chars_of(needle);
    if pc.len() == 0 {
        assert(s@.subrange(0, 0) =~= needle@);
        assert(occurs_at(needle@, s@, 0));
        return true;
    }
    if pc.len() > sc.len() {
        assert forall|i: int| !occurs_at(needle@, s@, i) by {}
        return false;
    }
    let last: usize = sc.len() - pc.len();
    let mut i: usize = 0;
    while i <= last
        invariant
            i <= last + 1,
            last == sc.len() - pc.len(),
            pc.len() > 0,
            sc@ == s@,
            pc@ == needle@,
            forall|j: int| 0 <= j < i ==> !occurs_at(needle@, s@, j),
        decreases last + 1 - i,
    {
        if matches_at(&pc, &sc, i) {
            return true;
        }
        i += 1;
    }
    assert forall|j: int| !occurs_at(needle@, s@, j) by {}
    false
}

/// The value of a decimal digit, or 10 for any other character.
pub open spec fn digit_value(c: char) -> int {
    if c == '0' {
        0
    } else if c == '1' {
        1
    } else if c == '2' {
        2
    } else if c == '3' {
        3
    } else if c == '4' {
        4
    } else if c == '5' {
        5
    } else if c == '6' {
        6
    } else if c == '7' {
        7
    } else if c == '8' {
        8
    } else if c == '9' {
        9
    } else {
        10
    }
}

/// The number that the digits of `s` write, or `None` where `s` holds
/// another character or the number passes `max`. The empty string writes 0.
pub open spec fn number_up_to(s: Seq<char>, max: int) -> Option<int>
    decreases s.len(),
{
    if s.len() == 0 {
        Some(0)
    } else {
        match number_up_to(s.drop_last(), max) {
            Some(v) => if digit_value(s.last()) < 10 && v * 10 + digit_value(s.last()) <= max {
                Some(v * 10 + digit_value(s.last()))
            } else {
                None
            },
            None => None,
        }
    }
}

/// What `s` says as a 16-bit port number: digits, after one plus sign at
/// most, at least one of them, and no more than 65535.
pub open spec fn parsed_u16(s: Seq<char>) -> Option<u16> {
    let body = if s.len() > 0 && s[0] == '+' {
        s.drop_first()
    } else {
        s
    };
    if body.len() == 0 {
        None
    } else {
        match number_up_to(body, 65535) {
            Some(v) => Some(v as u16),
            None => None,
        }
    }
}

/// What `s` says as a signed 32-bit number: digits, after one sign at most,
/// at least one of them, and a value that the type holds.
pub open spec fn parsed_i32(s: Seq<char>) -> Option<i32> {
    if s.len() > 0 && s[0] == '-' {
        if s.len() == 1 {
            None
        } else {
            match number_up_to(s.drop_first(), 2147483648) {
                Some(v) => Some((-v) as i32),
                None => None,
            }
        }
    } else {
        let body = if s.len() > 0 && s[0] == '+' {
            s.drop_first()
        } else {
            s
        };
        if body.len() == 0 {
            None
        } else {
            match number_up_to(body, 2147483647) {
                Some(v) => Some(v as i32),
                None => None,
            }
        }
    }
}

fn digit_of(c: char) -> (r: u32)
    ensures
        r == digit_value(c),
{
    if c == '0' {
        0
    } else if c == '1' {
        1
    } else if c == '2' {
        2
    } else if c == '3' {
        3
    } else if c == '4' {
        4
    } else if c == '5' {
        5
    } else if c == '6' {
        6
    } else if c == '7' {
        7
    } else if c == '8' {
        8
    } else if c == '9' {
        9
    } else {
        10
    }
}

/// Reads the characters of `cs` from `start` on as a number of at most `max`.
fn read_number(cs: &Vec<char>, start: usize, max: u64) -> (r: Option<u64>)
    requires
        start <= cs.len(),
        max <= 0xffff_ffff,
    ensures
        r matches Some(v) ==> number_up_to(cs@.subrange(start as int, cs@.len() as int), max as int)
            == Some(v as int),
        r is None ==> number_up_to(cs@.subrange(start as int, cs@.len() as int), max as int)
            is None,
{
    let ghost body = cs@.subrange(start as int, cs@.len() as int);
    let mut value: u64 = 0;
    let mut i: usize = start;
    assert(body.take(0) =~= Seq::<char>::empty());
    while i < cs.len()
        invariant
            start <= i <= cs.len(),
            max <= 0xffff_ffff,
            body == cs@.subrange(start as int, cs@.len() as int),
            number_up_to(body.take(i - start), max as int) == Some(value as int),
            value <= max,
        decreases cs.len() - i,
    {
        let d = digit_of(cs[i]) as u64;
        proof {
            assert(body.take(i + 1 - start).drop_last() =~= body.take(i - start));
            assert(body.take(i + 1 - start).last() == cs@[i as int]);
        }
        if d >= 10 || value * 10 + d > max {
            proof {
                assert(number_up_to(body.take(i + 1 - start), max as int) is None);
                lemma_number_stays_none(body, max as int, i + 1 - start);
            }
            return None;
        }
        value = value * 10 + d;
        i += 1;
    }
    assert(body.take(cs.len() - start) =~= body);
    Some(value)
}

/// Reads `s` as a 16-bit number in decimal notation.
pub fn parse_u16(s: &str) -> (r: Option<u16>)
    ensures
        r == parsed_u16(s@),
{
    let cs = chars_of(s);
    let start: usize = if cs.len() > 0 && cs[0] == '+' {
        1
    } else {
        0
    };
    if start == cs.len() {
        return None;
    }
    assert(cs@.subrange(start as int, cs@.len() as int) =~= if s@.len() > 0 && s@[0] == '+' {
        s@.drop_first()
    } else {
        s@
    });
    match read_number(&cs, start, 65535) {
        Some(v) => Some(v as u16),
        None => None,
    }
}

/// Reads `s` as a signed 32-bit number in decimal notation.
pub fn parse_i32(s: &str) -> (r: Option<i32>)
    ensures
        r == parsed_i32(s@),
{
    let cs = chars_of(s);
    if cs.len() > 0 && cs[0] == '-' {
        if cs.len() == 1 {
            return None;
        }
        assert(cs@.subrange(1, cs@.len() as int) =~= s@.drop_first());
        match read_number(&cs, 1, 2147483648) {
            Some(v) => Some((0 - (v as i64)) as i32),
            None => None,
        }
    } else {
        let start: usize = if cs.len() > 0 && cs[0] == '+' {
            1
        } else {
            0
        };
        if start == cs.len() {
            return None;
        }
        assert(cs@.subrange(start as int, cs@.len() as int) =~= if s@.len() > 0 && s@[0] == '+' {
            s@.drop_first()
        } else {
            s@
        });
        match read_number(&cs, start, 2147483647) {
            Some(v) => Some(v as i32),
            None => None,
        }
    }
}

proof fn lemma_number_stays_none(s: Seq<char>, max: int, n: int)
    requires
        0 <= n <= s.len(),
        number_up_to(s.take(n), max) is None,
    ensures
        number_up_to(s, max) is None,
    decreases s.len() - n,
{
    if n < s.len() {
        assert(s.take(n + 1).drop_last() =~= s.take(n));
        lemma_number_stays_none(s, max, n + 1);
    } else {
        assert(s.take(n) =~= s);
    }
}

/// A run of elements that a filter keeps is kept as it stands.
proof fn lemma_filter_run(s: Seq<char>, start: int, end: int, keep: spec_fn(char) -> bool)
    requires
        0 <= start <= end <= s.len(),
        forall|k: int| start <= k < end ==> keep(s[k]),
    ensures
        s.take(end).filter(keep) == s.take(start).filter(keep) + s.subrange(start, end),
    decreases end - start,
{
    if start == end {
        assert(s.subrange(start, end) =~= Seq::<char>::empty());
        assert(s.take(start).filter(keep) + Seq::<char>::empty() =~= s.take(start).filter(keep));
    } else {
        lemma_filter_run(s, start, end - 1, keep);
        assert(s.take(end) =~= s.take(end - 1).push(s[end - 1]));
        lemma_filter_push(s.take(end - 1), s[end - 1], keep);
        assert(s.subrange(start, end) =~= s.subrange(start, end - 1).push(s[end - 1]));
        assert(s.take(end).filter(keep) =~= s.take(start).filter(keep) + s.subrange(start, end));
    }
}

/// `s` without each occurrence of the character `c`.
pub open spec fn without(s: Seq<char>, c: char) -> Seq<char> {
    s.filter(is_not(c))
}

/// The test that tells every other character from `c`.
pub open spec fn is_not(c: char) -> spec_fn(char) -> bool {
    |x: char| x != c
}

/// `s` without each occurrence of the character `c`.
pub fn without_char(s: &str, c: char) -> (r: String)
    ensures
        r@ == without(s@, c),
{
    let cs = chars_of(s);
    let n: usize = cs.len();
    let ghost keep = is_not(c);
    let mut out = String::new();
    let mut start: usize = 0;
    let mut i: usize = 0;
    assert(s@.take(0) =~= Seq::<char>::empty());
    assert(s@.take(0).filter(keep) =~= Seq::<char>::empty());
    while i < n
        invariant
            start <= i <= n,
            n == s@.len(),
            cs@ == s@,
            keep == is_not(c),
            out@ == s@.take(start as int).filter(keep),
            forall|k: int| start <= k < i ==> keep(s@[k]),
        decreases n - i,
    {
        if cs[i] == c {
            proof {
                lemma_filter_run(s@, start as int, i as int, keep);
                assert(s@.take(i + 1) =~= s@.take(i as int).push(s@[i as int]));
                lemma_filter_push(s@.take(i as int), s@[i as int], keep);
            }
            out.append(s.substring_char(start, i));
            start = i + 1;
        }
        i += 1;
    }
    proof {
        lemma_filter_run(s@, start as int, n as int, keep);
        assert(s@.take(n as int) =~= s@);
    }
    out.append(s.substring_char(start, n));
    out
}

/// `p` stands at the end of `s`.
pub open spec fn is_suffix(p: Seq<char>, s: Seq<char>) -> bool {
    p.len() <= s.len() && s.subrange(s.len() - p.len(), s.len() as int) == p
}

/// Whether `s` ends with `suffix`.
pub fn has_suffix(s: &str, suffix: &str) -> (r: bool)
    ensures
        r == is_suffix(suffix@, s@),
{
    let sc = chars_of(s);
    let pc = chars_of(suffix);
    if pc.len() > sc.len() {
        return false;
    }
    matches_at(&pc, &sc, sc.len() - pc.len())
}

/// The texts of `parts` in a row, with `separator` between each two.
pub open spec fn joined(parts: Seq<Seq<char>>, separator: Seq<char>) -> Seq<char>
    decreases parts.len(),
{
    if parts.len() == 0 {
        Seq::empty()
    } else if parts.len() == 1 {
        parts[0]
    } else {
        joined(parts.drop_last(), separator) + separator + parts.last()
    }
}

/// The first `count` of `parts` in a row, or all of them where there are
/// fewer, with `separator` between each two.
pub fn join(parts: &Vec<String>, count: usize, separator: &str) -> (r: String)
    ensures
        r@ == joined(
            views(parts@).take(
                if count <= parts.len() {
                    count as int
                } else {
                    parts.len() as int
                },
            ),
            separator@,
        ),
{
    let count: usize = if count <= parts.len() {
        count
    } else {
        parts.len()
    };
    let mut r = String::new();
    let mut i: usize = 0;
    let ghost all = views(parts@);
    assert(all.take(0) =~= Seq::<Seq<char>>::empty());
    while i < count
        invariant
            i <= count <= parts.len(),
            all == views(parts@),
            r@ == joined(all.take(i as int), separator@),
        decreases count - i,
    {
        proof {
            assert(all.take(i + 1).drop_last() =~= all.take(i as int));
            assert(all.take(i + 1).last() == parts@[i as int]@);
            if i == 0 {
                assert(all.take(1)[0] == parts@[0]@);
                assert(Seq::<char>::empty() + parts@[0]@ =~= parts@[0]@);
            }
        }
        if i > 0 {
            r.append(separator);
        }
        r.append(parts[i].as_str());
        i += 1;
    }
    r
}

/// What `str::split_whitespace` makes of a text.
pub uninterp spec fn words_of(s: Seq<char>) -> Seq<Seq<char>>;

/// Calls `str::split_whitespace` and collects the words: the parts of the
/// text between runs of white space, as Unicode defines it, none of them
/// empty. The contract names the result; what it is on a given text it does
/// not say.
#[verifier::external_body]
pub(crate) fn words(s: &str) -> (r: Vec<String>)
    ensures
        views(r@) == words_of(s@),
{
    s.split_whitespace().map(|word| word.to_string()).collect()
}

/// What `Path::file_stem` makes of a path, as text: the name of the file
/// without its extension, or `None` where the path names no file or the
/// stem is no valid text.
pub uninterp spec fn file_stem_of(path: Seq<char>) -> Option<Seq<char>>;

/// Calls `Path::file_stem` on the path that `path` writes and `OsStr::to_str`
/// on what it gives. The contract names the result; what it is on a given
/// path it does not say.
#[verifier::external_body]
pub(crate) fn file_stem(path: &str) -> (r: Option<String>)
    ensures
        match r {
            Some(stem) => file_stem_of(path@) == Some(stem@),
            None => file_stem_of(path@) is None,
        },
{
    std::path::Path::new(path).file_stem().and_then(|stem| stem.to_str()).map(|stem| stem.to_string())
}

/// What `str::to_lowercase` makes of a text.
pub uninterp spec fn lowercase(s: Seq<char>) -> Seq<char>;

/// Calls `str::to_lowercase`, which gives the text with each character
/// replaced by its lowercase form as Unicode defines it. The contract names
/// the result; what it is on a given text it does not say.
#[verifier::external_body]
pub(crate) fn to_lowercase(s: &str) -> (r: String)
    ensures
        r@ == lowercase(s@),
{
    s.to_lowercase()
}

/// What `str::trim` leaves of a text.
pub uninterp spec fn trimmed_text(s: Seq<char>) -> Seq<char>;

/// Calls `str::trim`, which gives the text without the white space, as
/// Unicode defines it, at its start and end. The contract names the result;
/// what it is on a given text it does not say.
#[verifier::external_body]
pub(crate) fn trim(s: &str) -> (r: String)
    ensures
        r@ == trimmed_text(s@),
{
    s.trim().to_string()
}

/// `line` without the carriage return at its end, where it has one.
pub open spec fn without_return(line: Seq<char>) -> Seq<char> {
    if line.len() > 0 && line.last() == '\r' {
        line.drop_last()
    } else {
        line
    }
}

/// The lines of a text: what stands between its line feeds, each without the
/// carriage return that may precede the line feed. What follows the last
/// line feed is a line only where it is not empty, and keeps a carriage
/// return at its end.
pub open spec fn lines_of(s: Seq<char>) -> Seq<Seq<char>>
    decreases s.len(),
{
    if s.len() == 0 {
        Seq::empty()
    } else {
        let i = first_index_of(s, '\n');
        if i < 0 || i >= s.len() {
            seq![s]
        } else {
            seq![without_return(s.subrange(0, i))] + lines_of(s.subrange(i + 1, s.len() as int))
        }
    }
}

/// Calls `str::lines` and collects the lines. The contract says what the
/// documentation of `lines` says: lines end at a line feed or at a carriage
/// return followed by a line feed, the ending is not part of the line, and
/// the ending of the last line is optional.
#[verifier::external_body]
pub(crate) fn lines(s: &str) -> (r: Vec<String>)
    ensures
        views(r@) == lines_of(s@),
{
    s.lines().map(|line| line.to_string()).collect()
}

} // verus!
