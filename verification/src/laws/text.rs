//! Numbers and names in texts.

use vstd::prelude::*;

verus! {

use crate::text::{cut, decimal, digit, digits, first_place, first_place_is_first, signed, unsigned};

/// A text is cut at the first place of a character: what comes before does not
/// hold it, and with it in between the two parts make the text.
pub proof fn cuts_come_apart_at_the_character(s: Seq<char>, c: char)
    ensures
        match cut(s, c) {
            Some((a, b)) => s == a.push(c) + b && !a.contains(c),
            None => !s.contains(c),
        },
{
    first_place_is_first(s, c);
    if let Some(k) = first_place(s, c) {
        let a = s.take(k);
        let b = s.skip(k + 1);
        assert(s =~= a.push(c) + b);
        assert forall|i: int| 0 <= i < a.len() implies a[i] != c by {
            assert(a[i] == s[i]);
        }
    }
}

/// Where a text is put together of a part without a character, the character
/// and another part, it is cut there.
pub proof fn cuts_find_the_parts(a: Seq<char>, c: char, b: Seq<char>)
    requires
        !a.contains(c),
    ensures
        cut(a.push(c) + b, c) == Some((a, b)),
        cut(a, c) is None,
{
    let s = a.push(c) + b;
    first_place_is_first(s, c);
    first_place_is_first(a, c);
    assert(s[a.len() as int] == c);
    let k = first_place(s, c)->0;
    if k < a.len() {
        assert(s[k] == a[k]);
    }
    assert(s.take(k) =~= a);
    assert(s.skip(k + 1) =~= b);
}

/// The digits stand for zero to nine, and a digit behind a number is the last of
/// ten times as much.
pub proof fn digits_stand_for_their_values(s: Seq<char>, c: char, v: int)
    ensures
        digit('0') == Some(0int),
        digit('9') == Some(9int),
        digit(c) matches Some(d) ==> 0 <= d <= 9,
        digit(c) is Some <==> '0' <= c <= '9',
        digits(s) == Some(v) ==> (digit(c) matches Some(d) ==> digits(s.push(c)) == Some(
            10 * v + d,
        )),
        digit(c) is None ==> digits(s.push(c)) is None,
        digits(Seq::<char>::empty()) is None,
        digit(c) matches Some(d) ==> digits(seq![c]) == Some(d),
{
    assert(s.push(c).drop_last() =~= s);
    assert(s.push(c).last() == c);
    assert(seq![c].last() == c);
}

/// A number that is written out reads as the number.
pub proof fn written_numbers_are_read(n: nat)
    ensures
        digits(decimal(n)) == Some(n as int),
        decimal(n).len() > 0,
    decreases n,
{
    if n < 10 {
        let c = ('0' as int + n) as char;
        assert(decimal(n) == seq![c]);
        assert(digit(c) == Some(n as int));
        digits_stand_for_their_values(seq![], c, 0);
    } else {
        written_numbers_are_read(n / 10);
        let c = ('0' as int + n % 10) as char;
        assert(digit(c) == Some((n % 10) as int));
        digits_stand_for_their_values(decimal(n / 10), c, (n / 10) as int);
        assert(10 * (n / 10) + n % 10 == n);
    }
}

/// A number may have its sign before it: a minus makes it negative, a plus
/// changes nothing. Without a minus it has to fit as it is.
pub proof fn signs_come_first(s: Seq<char>, v: int)
    requires
        digits(s) == Some(v),
        s.len() > 0,
        s[0] != '+',
        s[0] != '-',
    ensures
        v <= 0x7fff_ffff ==> signed(s) == Some(v),
        v <= 0x7fff_ffff ==> signed(seq!['+'] + s) == Some(v),
        v <= 0x8000_0000 ==> signed(seq!['-'] + s) == Some(-v),
        v > 0x7fff_ffff ==> signed(s) is None,
        v > 0x8000_0000 ==> signed(seq!['-'] + s) is None,
        v <= 0xffff_ffff ==> unsigned(s) == Some(v),
        v <= 0xffff_ffff ==> unsigned(seq!['+'] + s) == Some(v),
        v > 0xffff_ffff ==> unsigned(s) is None,
        unsigned(seq!['-'] + s) is None,
{
    let plus = seq!['+'] + s;
    let minus = seq!['-'] + s;
    assert(plus.skip(1) =~= s);
    assert(minus.skip(1) =~= s);
    assert(plus[0] == '+' && minus[0] == '-');
    minus_is_no_digit(s);
}

proof fn minus_is_no_digit(s: Seq<char>)
    ensures
        digits(seq!['-'] + s) is None,
    decreases s.len(),
{
    let all = seq!['-'] + s;
    if s.len() == 0 {
        assert(all =~= seq!['-']);
        assert(all.last() == '-');
    } else {
        assert(all.drop_last() =~= seq!['-'] + s.drop_last());
        minus_is_no_digit(s.drop_last());
        assert(all.len() > 1);
    }
}

} // verus!
