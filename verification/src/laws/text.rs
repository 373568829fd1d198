//! Laws of texts: parts of texts, and numbers as texts.

use vstd::prelude::*;

use crate::text::{
    decimal, decimal_int, digit, has_part, has_prefix, has_suffix, i64_text, is_digit, is_numeral,
    numeral_value, parse_i64, stands_at, unsigned_part, without_prefix,
};

verus! {

/// A text holds every part of it, wherever it stands; and where it is said to hold one, there is
/// one.
pub proof fn law_parts_are_found(
    text: &str,
    part: &str,
    before: Seq<char>,
    after: Seq<char>,
    r: bool,
)
    requires
        call_ensures(has_part, (text, part), r),
    ensures
        text@ == before + part@ + after ==> r,
        r ==> exists|b: Seq<char>, a: Seq<char>| #[trigger] (b + part@ + a) == text@,
{
    if text@ == before + part@ + after {
        assert(text@.subrange(before.len() as int, (before + part@).len() as int) =~= part@);
        assert(stands_at(text@, part@, before.len() as int));
    }
    if r {
        let at = choose|at: int| #[trigger] stands_at(text@, part@, at);
        let b = text@.take(at);
        let a = text@.skip(at + part@.len());
        assert(b + part@ + a =~= text@);
    }
}

/// A text begins and ends with what it is put together from, and without its beginning it is its
/// rest.
pub proof fn law_texts_begin_and_end(
    text: &str,
    prefix: &str,
    rest: Seq<char>,
    begins: bool,
    left: String,
    suffix: &str,
    stem: Seq<char>,
    ends: bool,
)
    requires
        call_ensures(has_prefix, (text, prefix), begins),
        call_ensures(without_prefix, (text, prefix), left),
        call_ensures(has_suffix, (text, suffix), ends),
    ensures
        text@ == prefix@ + rest ==> begins && left@ == rest,
        begins ==> text@ == prefix@ + left@,
        text@ == stem + suffix@ ==> ends,
        ends ==> suffix@.len() <= text@.len() && text@ == text@.take(
            text@.len() - suffix@.len(),
        ) + suffix@,
{
    if text@ == prefix@ + rest {
        assert(text@.subrange(0, prefix@.len() as int) =~= prefix@);
        assert(text@.skip(prefix@.len() as int) =~= rest);
    }
    if begins {
        assert(text@ =~= text@.subrange(0, prefix@.len() as int) + text@.skip(
            prefix@.len() as int,
        ));
    }
    let n = text@.len() as int;
    let m = suffix@.len() as int;
    if text@ == stem + suffix@ {
        assert(text@.subrange(n - m, n) =~= suffix@);
    }
    if ends {
        assert(text@ =~= text@.take(n - m) + text@.subrange(n - m, n));
    }
}

/// The numeral of a number is a numeral, and has its value.
proof fn lemma_numerals(n: nat)
    ensures
        is_numeral(decimal(n)),
        numeral_value(decimal(n)) == n,
    decreases n,
{
    reveal_with_fuel(numeral_value, 2);
    if n < 10 {
        assert(decimal(n).drop_last() =~= Seq::<char>::empty());
        assert(is_digit(digit(n)));
    } else {
        lemma_numerals(n / 10);
        let d = digit(n % 10);
        assert(decimal(n) == decimal(n / 10).push(d));
        assert(decimal(n).drop_last() =~= decimal(n / 10));
        assert(is_digit(d));
        assert(d as nat - '0' as nat == n % 10);
        assert forall|i: int| 0 <= i < decimal(n).len() implies is_digit(#[trigger] decimal(n)[i]) by {
            if i < decimal(n / 10).len() {
                assert(decimal(n)[i] == decimal(n / 10)[i]);
            }
        }
    }
}

/// A number that is written is read back.
pub proof fn law_written_numbers_are_read_back(
    number: i64,
    written: String,
    text: &str,
    r: Option<i64>,
)
    requires
        call_ensures(i64_text, (number,), written),
        text@ == written@,
        call_ensures(parse_i64, (text,), r),
    ensures
        r == Some(number),
{
    reveal_strlit("-");
    let i = number as int;
    if i < 0 {
        lemma_numerals((-i) as nat);
        assert(decimal_int(i)[0] == '-');
        assert(decimal_int(i).drop_first() =~= decimal((-i) as nat));
        assert(unsigned_part(decimal_int(i)) == decimal((-i) as nat));
    } else {
        lemma_numerals(i as nat);
        assert(is_digit(decimal(i as nat)[0]));
    }
}

} // verus!
