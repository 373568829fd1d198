//! Text: comparison, search, decimal numerals and joining, over `Seq<char>`.

use vstd::prelude::*;
use vstd::string::*;

verus! {

/// `text` begins with `prefix`.
pub open spec fn begins_with(text: Seq<char>, prefix: Seq<char>) -> bool {
    prefix.len() <= text.len() && text.subrange(0, prefix.len() as int) == prefix
}

/// `text` ends with `suffix`.
pub open spec fn finishes_with(text: Seq<char>, suffix: Seq<char>) -> bool {
    suffix.len() <= text.len() && text.subrange(text.len() - suffix.len(), text.len() as int)
        == suffix
}

/// `part` stands in `text` at `at`.
pub open spec fn stands_at(text: Seq<char>, part: Seq<char>, at: int) -> bool {
    0 <= at && at + part.len() <= text.len() && text.subrange(at, at + part.len()) == part
}

/// `part` stands somewhere in `text`.
pub open spec fn holds_part(text: Seq<char>, part: Seq<char>) -> bool {
    exists|at: int| #[trigger] stands_at(text, part, at)
}

/// The decimal digit of a number below ten.
pub open spec fn digit(d: nat) -> char {
    if d == 0 {
        '0'
    } else if d == 1 {
        '1'
    } else if d == 2 {
        '2'
    } else if d == 3 {
        '3'
    } else if d == 4 {
        '4'
    } else if d == 5 {
        '5'
    } else if d == 6 {
        '6'
    } else if d == 7 {
        '7'
    } else if d == 8 {
        '8'
    } else {
        '9'
    }
}

/// The decimal numeral of a natural number, without leading zeros.
pub open spec fn decimal(n: nat) -> Seq<char>
    decreases n,
{
    if n < 10 {
        seq![digit(n)]
    } else {
        decimal(n / 10).push(digit(n % 10))
    }
}

/// The decimal numeral of an integer, with `-` in front of a negative one.
pub open spec fn decimal_int(i: int) -> Seq<char> {
    if i < 0 {
        "-"@ + decimal((-i) as nat)
    } else {
        decimal(i as nat)
    }
}

/// `c` is a decimal digit.
pub open spec fn is_digit(c: char) -> bool {
    '0' <= c && c <= '9'
}

/// Every character of `digits` is a decimal digit, and there is at least one.
pub open spec fn is_numeral(digits: Seq<char>) -> bool {
    digits.len() > 0 && forall|i: int| 0 <= i < digits.len() ==> is_digit(#[trigger] digits[i])
}

/// The number that decimal digits write.
pub open spec fn numeral_value(digits: Seq<char>) -> nat
    decreases digits.len(),
{
    if digits.len() == 0 {
        0
    } else {
        numeral_value(digits.drop_last()) * 10 + (digits.last() as nat - '0' as nat) as nat
    }
}

/// `text` without an optional leading sign.
pub open spec fn unsigned_part(text: Seq<char>) -> Seq<char> {
    if text.len() > 0 && (text[0] == '-' || text[0] == '+') {
        text.drop_first()
    } else {
        text
    }
}

/// The integer that `text` writes: an optional sign, then decimal digits.
pub open spec fn integer_of(text: Seq<char>) -> Option<int> {
    let digits = unsigned_part(text);
    if !is_numeral(digits) {
        None
    } else if text[0] == '-' {
        Some(-(numeral_value(digits) as int))
    } else {
        Some(numeral_value(digits) as int)
    }
}

/// The 64-bit integer that `text` writes, if it writes one in range.
pub open spec fn i64_of(text: Seq<char>) -> Option<i64> {
    match integer_of(text) {
        Some(i) if i64::MIN <= i <= i64::MAX => Some(i as i64),
        _ => None,
    }
}

/// The texts in order, with `separator` between neighbours.
pub open spec fn joined(parts: Seq<Seq<char>>, separator: Seq<char>) -> Seq<char>
    decreases parts.len(),
{
    if parts.len() == 0 {
        Seq::empty()
    } else if parts.len() == 1 {
        parts[0]
    } else {
        joined(parts.drop_last(), separator) + separator + parts.last()
    }
}

/// The view of an optional text.
pub open spec fn opt_view(text: Option<String>) -> Option<Seq<char>> {
    match text {
        Some(s) => Some(s@),
        None => None,
    }
}

/// The view of an optional borrowed text.
pub open spec fn opt_str_view(text: Option<&str>) -> Option<Seq<char>> {
    match text {
        Some(s) => Some(s@),
        None => None,
    }
}

/// The views of a list of texts.
pub open spec fn views(texts: Seq<String>) -> Seq<Seq<char>> {
    texts.map_values(|s: String| s@)
}

/// What `Debug` prints of a text: the text in double quotes, with the escapes of
/// `str::escape_debug`.
pub uninterp spec fn quoted(text: Seq<char>) -> Seq<char>;

/// Prints a text as `Debug` for `str` does.
///
/// Trusted: `format!` with `{:?}` on a `str` depends on the characters of the text alone.
#[verifier::external_body]
pub(crate) fn quote(text: &str) -> (r: String)
    ensures
        r@ == quoted(text@),
{
    format!("{:?}", text)
}

/// The characters of a text.
pub fn chars_of(text: &str) -> (r: Vec<char>)
    ensures
        r@ == text@,
{
    let mut r: Vec<char> = Vec::new();
    for c in it: text.chars()
        invariant
            r@ == it.seq().take(it.index() as int),
            it.seq() == text@,
    {
        r.push(c);
    }
    r
}

/// Whether two texts are equal.
pub fn same_text(a: &str, b: &str) -> (r: bool)
    ensures
        r == (a@ == b@),
{
    let x = a.to_owned();
    let y = b.to_owned();
    x == y
}

/// Whether `part` stands in `text` at `at`.
fn chars_at(text: &Vec<char>, part: &Vec<char>, at: usize) -> (r: bool)
    ensures
        r == stands_at(text@, part@, at as int),
{
    if part.len() > text.len() || at > text.len() - part.len() {
        return false;
    }
    let mut i: usize = 0;
    while i < part.len()
        invariant
            i <= part.len(),
            at + part.len() <= text.len(),
            text@.subrange(at as int, at + i) == part@.subrange(0, i as int),
        decreases part.len() - i,
    {
        if text[at + i] != part[i] {
            assert(text@.subrange(at as int, at + part.len())[i as int] != part@[i as int]);
            return false;
        }
        assert(text@.subrange(at as int, at + i + 1) == text@.subrange(at as int, at + i).push(
            text@[at + i],
        ));
        assert(part@.subrange(0, i + 1) == part@.subrange(0, i as int).push(part@[i as int]));
        i += 1;
    }
    assert(part@.subrange(0, part@.len() as int) == part@);
    true
}

/// Whether `text` begins with `prefix`.
pub fn has_prefix(text: &str, prefix: &str) -> (r: bool)
    ensures
        r == begins_with(text@, prefix@),
{
    chars_at(&chars_of(text), &chars_of(prefix), 0)
}

/// Whether `text` ends with `suffix`.
pub fn has_suffix(text: &str, suffix: &str) -> (r: bool)
    ensures
        r == finishes_with(text@, suffix@),
{
    let t = chars_of(text);
    let s = chars_of(suffix);
    if s.len() > t.len() {
        return false;
    }
    chars_at(&t, &s, t.len() - s.len())
}

/// Whether `part` stands somewhere in `text`.
pub fn has_part(text: &str, part: &str) -> (r: bool)
    ensures
        r == holds_part(text@, part@),
{
    let t = chars_of(text);
    let p = chars_of(part);
    if p.len() > t.len() {
        assert forall|at: int| !#[trigger] stands_at(text@, part@, at) by {}
        return false;
    }
    let mut at: usize = 0;
    while at <= t.len() - p.len()
        invariant
            t@ == text@,
            p@ == part@,
            p.len() <= t.len(),
            at <= t.len() - p.len() + 1,
            forall|k: int| 0 <= k < at ==> !#[trigger] stands_at(text@, part@, k),
        decreases t.len() - at,
    {
        if chars_at(&t, &p, at) {
            return true;
        }
        if at == t.len() - p.len() {
            return false;
        }
        at += 1;
    }
    false
}

/// `text` without its leading `prefix`.
pub fn without_prefix(text: &str, prefix: &str) -> (r: String)
    requires
        begins_with(text@, prefix@),
    ensures
        r@ == text@.skip(prefix@.len() as int),
{
    let from = prefix.unicode_len();
    let to = text.unicode_len();
    let rest = text.substring_char(from, to);
    rest.to_owned()
}

/// `a` followed by `b`.
pub fn concat2(a: &str, b: &str) -> (r: String)
    ensures
        r@ == a@ + b@,
{
    a.to_owned().concat(b)
}

/// `a`, `b` and `c` in a row.
pub fn concat3(a: &str, b: &str, c: &str) -> (r: String)
    ensures
        r@ == a@ + b@ + c@,
{
    a.to_owned().concat(b).concat(c)
}

/// The digit of a number below ten.
fn digit_text(d: u64) -> (r: &'static str)
    requires
        d < 10,
    ensures
        r@ == seq![digit(d as nat)],
{
    proof {
        reveal_strlit("0");
        reveal_strlit("1");
        reveal_strlit("2");
        reveal_strlit("3");
        reveal_strlit("4");
        reveal_strlit("5");
        reveal_strlit("6");
        reveal_strlit("7");
        reveal_strlit("8");
        reveal_strlit("9");
    }
    match d {
        0 => "0",
        1 => "1",
        2 => "2",
        3 => "3",
        4 => "4",
        5 => "5",
        6 => "6",
        7 => "7",
        8 => "8",
        _ => "9",
    }
}

/// The decimal numeral of a number.
pub fn u64_text(n: u64) -> (r: String)
    ensures
        r@ == decimal(n as nat),
    decreases n,
{
    if n < 10 {
        digit_text(n).to_owned()
    } else {
        u64_text(n / 10).concat(digit_text(n % 10))
    }
}

/// The decimal numeral of a signed number.
pub fn i64_text(i: i64) -> (r: String)
    ensures
        r@ == decimal_int(i as int),
{
    if i < 0 {
        let magnitude: u64 = (-(i as i128)) as u64;
        concat2("-", u64_text(magnitude).as_str())
    } else {
        u64_text(i as u64)
    }
}

/// Leading digits never write more than the whole numeral does.
proof fn lemma_numeral_grows(digits: Seq<char>, n: int)
    requires
        is_numeral(digits),
        0 <= n <= digits.len(),
    ensures
        numeral_value(digits.take(n)) <= numeral_value(digits),
    decreases digits.len() - n,
{
    if n == digits.len() {
        assert(digits.take(n) == digits);
    } else {
        lemma_numeral_grows(digits, n + 1);
        assert(digits.take(n + 1).drop_last() == digits.take(n));
        assert(digits.take(n + 1).last() == digits[n]);
    }
}

/// The 64-bit integer that `text` writes.
pub fn parse_i64(text: &str) -> (r: Option<i64>)
    ensures
        r == i64_of(text@),
{
    let t = chars_of(text);
    let signed = t.len() > 0 && (t[0] == '-' || t[0] == '+');
    let negative = t.len() > 0 && t[0] == '-';
    let start: usize = if signed { 1 } else { 0 };
    let ghost digits = unsigned_part(text@);
    assert(digits == text@.skip(start as int));
    if t.len() == start {
        return None;
    }
    let mut i: usize = start;
    let mut value: i128 = 0;
    while i < t.len()
        invariant
            t@ == text@,
            start <= i <= t.len(),
            start <= 1,
            digits == text@.skip(start as int),
            digits == unsigned_part(text@),
            forall|k: int| 0 <= k < i - start ==> is_digit(#[trigger] digits[k]),
            value == numeral_value(digits.take(i - start)),
            0 <= value <= 0x8000_0000_0000_0000,
        decreases t.len() - i,
    {
        let c = t[i];
        assert(digits[i - start] == c);
        if c < '0' || c > '9' {
            return None;
        }
        proof {
            assert(digits.take(i - start + 1).drop_last() == digits.take(i - start));
            assert(digits.take(i - start + 1).last() == c);
        }
        value = value * 10 + (c as u32 - '0' as u32) as i128;
        if value > 0x8000_0000_0000_0000 {
            proof {
                if is_numeral(digits) {
                    lemma_numeral_grows(digits, i - start + 1);
                }
            }
            return None;
        }
        i += 1;
    }
    assert(digits.take(i - start) == digits);
    if negative {
        Some((-value) as i64)
    } else if value == 0x8000_0000_0000_0000 {
        None
    } else {
        Some(value as i64)
    }
}

/// A copy of an optional text.
pub fn copy_opt(text: &Option<String>) -> (r: Option<String>)
    ensures
        opt_view(r) == opt_view(*text),
{
    match text {
        Some(s) => Some(s.clone()),
        None => None,
    }
}

/// An owned copy of an optional borrowed text.
pub fn own_opt(text: Option<&str>) -> (r: Option<String>)
    ensures
        opt_view(r) == opt_str_view(text),
{
    match text {
        Some(s) => Some(s.to_owned()),
        None => None,
    }
}

/// A copy of a list of texts.
pub fn copy_texts(texts: &Vec<String>) -> (r: Vec<String>)
    ensures
        views(r@) == views(texts@),
{
    let mut r: Vec<String> = Vec::new();
    let mut i: usize = 0;
    while i < texts.len()
        invariant
            i <= texts.len(),
            views(r@) == views(texts@).take(i as int),
        decreases texts.len() - i,
    {
        let ghost before = r@;
        r.push(texts[i].clone());
        proof {
            assert(views(r@) == views(before).push(texts@[i as int]@));
            assert(views(texts@).take(i + 1) == views(texts@).take(i as int).push(
                views(texts@)[i as int],
            ));
        }
        i += 1;
    }
    assert(views(texts@).take(texts@.len() as int) == views(texts@));
    r
}

} // verus!
