//! Small helpers on text.

use vstd::prelude::*;

verus! {

/// Whether two texts are the same.
pub fn same_text(a: &str, b: &str) -> (r: bool)
    ensures
        r == (a@ == b@),
{
    let n: usize = a.unicode_len();
    if n != b.unicode_len() {
        return false;
    }
    let mut i: usize = 0;
    while i < n
        invariant
            i <= n,
            n == a@.len(),
            n == b@.len(),
            forall|k: int| 0 <= k < i ==> a@[k] == b@[k],
        decreases n - i,
    {
        if a.get_char(i) != b.get_char(i) {
            return false;
        }
        i += 1;
    }
    assert(a@ =~= b@);
    true
}

/// The place of the first `c`, if there is one.
pub open spec fn first_place(s: Seq<char>, c: char) -> Option<int>
    decreases s.len(),
{
    if s.len() == 0 {
        None
    } else {
        match first_place(s.drop_last(), c) {
            Some(k) => Some(k),
            None => if s.last() == c {
                Some(s.len() - 1)
            } else {
                None
            },
        }
    }
}

proof fn first_place_take(s: Seq<char>, c: char, n: int)
    requires
        0 <= n < s.len(),
    ensures
        first_place(s.take(n + 1), c) == match first_place(s.take(n), c) {
            Some(k) => Some(k),
            None => if s[n] == c {
                Some(n)
            } else {
                None
            },
        },
{
    assert(s.take(n + 1).drop_last() =~= s.take(n));
}

/// The first place holds the character, no earlier one does, and there is none
/// exactly where the character does not occur.
pub proof fn first_place_is_first(s: Seq<char>, c: char)
    ensures
        match first_place(s, c) {
            Some(k) => 0 <= k < s.len() && s[k] == c && forall|i: int| 0 <= i < k ==> s[i] != c,
            None => forall|i: int| 0 <= i < s.len() ==> s[i] != c,
        },
    decreases s.len(),
{
    if s.len() > 0 {
        let front = s.drop_last();
        first_place_is_first(front, c);
        assert forall|i: int| 0 <= i < front.len() implies front[i] == s[i] by {}
        match first_place(front, c) {
            Some(k) => {
                assert forall|i: int| 0 <= i < k implies s[i] != c by {
                    assert(front[i] != c);
                }
            },
            None => {
                assert forall|i: int| 0 <= i < s.len() - 1 implies s[i] != c by {
                    assert(front[i] != c);
                }
            },
        }
    }
}

proof fn first_place_prefix(s: Seq<char>, c: char, n: int)
    requires
        0 <= n <= s.len(),
        first_place(s.take(n), c) is Some,
    ensures
        first_place(s, c) == first_place(s.take(n), c),
    decreases s.len() - n,
{
    if n < s.len() {
        first_place_take(s, c, n);
        first_place_prefix(s, c, n + 1);
    } else {
        assert(s.take(n) =~= s);
    }
}

/// The place of the first `c`.
pub fn find_char(s: &str, c: char) -> (r: Option<usize>)
    ensures
        match r {
            Some(k) => first_place(s@, c) == Some(k as int) && k < s@.len(),
            None => first_place(s@, c) is None,
        },
{
    let n: usize = s.unicode_len();
    let mut i: usize = 0;
    while i < n
        invariant
            i <= n,
            n == s@.len(),
            first_place(s@.take(i as int), c) is None,
        decreases n - i,
    {
        proof {
            first_place_take(s@, c, i as int);
        }
        if s.get_char(i) == c {
            proof {
                first_place_prefix(s@, c, i + 1);
            }
            return Some(i);
        }
        i += 1;
    }
    assert(s@.take(n as int) =~= s@);
    None
}

/// The text before the first `c` and the text after it.
pub open spec fn cut(s: Seq<char>, c: char) -> Option<(Seq<char>, Seq<char>)> {
    match first_place(s, c) {
        Some(k) => Some((s.take(k), s.skip(k + 1))),
        None => None,
    }
}

/// Cuts a text at the first `c`.
pub fn cut_at<'a>(s: &'a str, c: char) -> (r: Option<(&'a str, &'a str)>)
    ensures
        match r {
            Some((a, b)) => cut(s@, c) == Some((a@, b@)),
            None => cut(s@, c) is None,
        },
{
    match find_char(s, c) {
        Some(k) => {
            let n: usize = s.unicode_len();
            Some((s.substring_char(0, k), s.substring_char(k + 1, n)))
        },
        None => None,
    }
}

/// The value of a decimal digit.
pub open spec fn digit(c: char) -> Option<int> {
    if '0' <= c <= '9' {
        Some(c as int - '0' as int)
    } else {
        None
    }
}

/// The value of a row of decimal digits; an empty row has none.
pub open spec fn digits(s: Seq<char>) -> Option<int>
    decreases s.len(),
{
    if s.len() == 0 {
        None
    } else {
        match (digit(s.last()), if s.len() == 1 {
            Some(0)
        } else {
            digits(s.drop_last())
        }) {
            (Some(d), Some(v)) => Some(10 * v + d),
            _ => None,
        }
    }
}

proof fn digits_take(s: Seq<char>, n: int)
    requires
        0 <= n < s.len(),
    ensures
        digits(s.take(n + 1)) == match (digit(s[n]), if n == 0 {
            Some(0)
        } else {
            digits(s.take(n))
        }) {
            (Some(d), Some(v)) => Some(10 * v + d),
            _ => None::<int>,
        },
{
    assert(s.take(n + 1).drop_last() =~= s.take(n));
}

proof fn digits_grow(s: Seq<char>, n: int)
    requires
        0 < n <= s.len(),
    ensures
        digits(s.take(n)) is None ==> digits(s) is None,
        digits(s.take(n)) matches Some(v) ==> v >= 0 && (digits(s) matches Some(w) ==> w >= v),
    decreases s.len() - n,
{
    digits_not_negative(s.take(n));
    if n < s.len() {
        digits_take(s, n);
        digits_grow(s, n + 1);
        digits_not_negative(s.take(n + 1));
    } else {
        assert(s.take(n) =~= s);
    }
}

proof fn digits_not_negative(s: Seq<char>)
    ensures
        digits(s) matches Some(v) ==> v >= 0,
    decreases s.len(),
{
    if s.len() > 1 {
        digits_not_negative(s.drop_last());
    }
}

/// Reads a row of decimal digits of at most `limit`.
fn read_digits(s: &str, limit: u64) -> (r: Option<u64>)
    requires
        limit <= 0xffff_ffff_ffff,
    ensures
        match r {
            Some(v) => digits(s@) == Some(v as int) && v <= limit,
            None => digits(s@) matches Some(v) ==> v > limit,
        },
{
    let n: usize = s.unicode_len();
    if n == 0 {
        return None;
    }
    let mut value: u64 = 0;
    let mut i: usize = 0;
    while i < n
        invariant
            i <= n,
            n == s@.len(),
            limit <= 0xffff_ffff_ffff,
            value <= limit,
            i == 0 ==> value == 0,
            i > 0 ==> digits(s@.take(i as int)) == Some(value as int),
        decreases n - i,
    {
        let c = s.get_char(i);
        proof {
            digits_take(s@, i as int);
            digits_grow(s@, i + 1);
        }
        if !('0' <= c && c <= '9') {
            return None;
        }
        value = 10 * value + (c as u64 - '0' as u64);
        if value > limit {
            return None;
        }
        i += 1;
    }
    assert(s@.take(n as int) =~= s@);
    Some(value)
}

/// The value of an unsigned number: digits, with an optional plus sign, below
/// two to the 32nd.
pub open spec fn unsigned(s: Seq<char>) -> Option<int> {
    let row = if s.len() > 0 && s[0] == '+' {
        s.skip(1)
    } else {
        s
    };
    match digits(row) {
        Some(v) => if v <= u32::MAX {
            Some(v)
        } else {
            None
        },
        None => None,
    }
}

/// The value of a signed number: digits, with an optional sign, in the range
/// of 32 bits.
pub open spec fn signed(s: Seq<char>) -> Option<int> {
    if s.len() > 0 && s[0] == '-' {
        match digits(s.skip(1)) {
            Some(v) => if -v >= i32::MIN {
                Some(-v)
            } else {
                None
            },
            None => None,
        }
    } else {
        match digits(
            if s.len() > 0 && s[0] == '+' {
                s.skip(1)
            } else {
                s
            },
        ) {
            Some(v) => if v <= i32::MAX {
                Some(v)
            } else {
                None
            },
            None => None,
        }
    }
}

/// Reads an unsigned number.
pub fn read_u32(s: &str) -> (r: Option<u32>)
    ensures
        match r {
            Some(v) => unsigned(s@) == Some(v as int),
            None => unsigned(s@) is None,
        },
{
    let n: usize = s.unicode_len();
    let row = if n > 0 && s.get_char(0) == '+' {
        s.substring_char(1, n)
    } else {
        s
    };
    assert(n > 0 && s@[0] == '+' ==> row@ =~= s@.skip(1));
    match read_digits(row, u32::MAX as u64) {
        Some(v) => Some(v as u32),
        None => None,
    }
}

/// Reads a signed number.
pub fn read_i32(s: &str) -> (r: Option<i32>)
    ensures
        match r {
            Some(v) => signed(s@) == Some(v as int),
            None => signed(s@) is None,
        },
{
    let n: usize = s.unicode_len();
    if n > 0 && s.get_char(0) == '-' {
        let row = s.substring_char(1, n);
        assert(row@ =~= s@.skip(1));
        match read_digits(row, 0x8000_0000) {
            Some(v) => Some((-(v as i64)) as i32),
            None => None,
        }
    } else {
        let row = if n > 0 && s.get_char(0) == '+' {
            s.substring_char(1, n)
        } else {
            s
        };
        assert(n > 0 && s@[0] == '+' ==> row@ =~= s@.skip(1));
        match read_digits(row, 0x7fff_ffff) {
            Some(v) => Some(v as i32),
            None => None,
        }
    }
}

/// The decimal digits of a number.
pub open spec fn decimal(n: nat) -> Seq<char>
    decreases n,
{
    if n < 10 {
        seq![('0' as int + n) as char]
    } else {
        decimal(n / 10).push(('0' as int + n % 10) as char)
    }
}

fn push_digit(s: &mut String, d: usize)
    requires
        d < 10,
    ensures
        final(s)@ == old(s)@.push(('0' as int + d) as char),
{
    proof {
        reveal_strlit("0");
        reveal_strlit("1");
        reveal_strlit("2");
        reveal_strlit("3");
        reveal_strlit("4");
        reveal_strlit("5");
        reveal_strlit("6");
        reveal_strlit("7");
        reveal_strlit("8");
        reveal_strlit("9");
    }
    let text = match d {
        0 => "0",
        1 => "1",
        2 => "2",
        3 => "3",
        4 => "4",
        5 => "5",
        6 => "6",
        7 => "7",
        8 => "8",
        _ => "9",
    };
    assert(text@ =~= seq![('0' as int + d) as char]);
    let ghost before = s@;
    s.append(text);
    assert(before + text@ =~= before.push(('0' as int + d) as char));
}

/// Writes a number in decimal.
pub fn to_decimal(n: usize) -> (r: String)
    ensures
        r@ == decimal(n as nat),
    decreases n,
{
    if n < 10 {
        let mut s = String::new();
        push_digit(&mut s, n);
        assert(s@ =~= decimal(n as nat));
        s
    } else {
        let mut s = to_decimal(n / 10);
        push_digit(&mut s, n % 10);
        s
    }
}

/// Three texts in a row.
pub fn join3(a: &str, b: &str, c: &str) -> (r: String)
    ensures
        r@ == a@ + b@ + c@,
{
    let mut s = String::from_str(a);
    s.append(b);
    s.append(c);
    s
}

} // verus!
