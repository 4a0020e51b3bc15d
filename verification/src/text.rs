//! Small text utilities: comparing string slices and writing integers in
//! decimal, with the decimal notation given as a spec function.

use vstd::prelude::*;
use vstd::string::*;

verus! {

/// The character that writes the decimal digit `d` (0 through 9).
pub open spec fn digit_char(d: int) -> char {
    if d == 0 {
        '0'
    } else if d == 1 {
        '1'
    } else if d == 2 {
        '2'
    } else if d == 3 {
        '3'
    } else if d == 4 {
        '4'
    } else if d == 5 {
        '5'
    } else if d == 6 {
        '6'
    } else if d == 7 {
        '7'
    } else if d == 8 {
        '8'
    } else {
        '9'
    }
}

/// The digit that a character stands for, or -1 for a character that is no digit.
pub open spec fn digit_value(c: char) -> int {
    if c == '0' {
        0
    } else if c == '1' {
        1
    } else if c == '2' {
        2
    } else if c == '3' {
        3
    } else if c == '4' {
        4
    } else if c == '5' {
        5
    } else if c == '6' {
        6
    } else if c == '7' {
        7
    } else if c == '8' {
        8
    } else if c == '9' {
        9
    } else {
        -1
    }
}

/// The decimal digits of a natural number, most significant first, without
/// leading zeros (zero is written "0").
pub open spec fn nat_digits(n: nat) -> Seq<char>
    decreases n,
{
    if n < 10 {
        seq![digit_char(n as int)]
    } else {
        nat_digits(n / 10).push(digit_char((n % 10) as int))
    }
}

/// The decimal notation of an integer: a minus sign before the digits of its
/// magnitude when it is negative.
pub open spec fn decimal(i: int) -> Seq<char> {
    if i < 0 {
        seq!['-'] + nat_digits((-i) as nat)
    } else {
        nat_digits(i as nat)
    }
}

/// The number that a sequence of decimal digits denotes, most significant first.
pub open spec fn digits_value(s: Seq<char>) -> int
    decreases s.len(),
{
    if s.len() == 0 {
        0
    } else {
        digits_value(s.drop_last()) * 10 + digit_value(s.last())
    }
}

/// The integer that a decimal notation denotes: an optional minus sign
/// followed by digits.
pub open spec fn parse_decimal(s: Seq<char>) -> int {
    if s.len() > 0 && s[0] == '-' {
        -digits_value(s.drop_first())
    } else {
        digits_value(s)
    }
}

/// Every character of the digits of `n` is a decimal digit, and there is at
/// least one.
pub proof fn lemma_nat_digits_are_digits(n: nat)
    ensures
        nat_digits(n).len() >= 1,
        forall|k: int| 0 <= k < nat_digits(n).len() ==> 0 <= #[trigger] digit_value(nat_digits(n)[k]) <= 9,
    decreases n,
{
    if n >= 10 {
        lemma_nat_digits_are_digits(n / 10);
    }
}

/// Law: the digits written for a natural number read back as that number.
pub proof fn lemma_nat_digits_read_back(n: nat)
    ensures
        digits_value(nat_digits(n)) == n,
    decreases n,
{
    if n >= 10 {
        lemma_nat_digits_read_back(n / 10);
        let s = nat_digits(n);
        let d = (n % 10) as int;
        assert(s.drop_last() =~= nat_digits(n / 10));
        assert(s.last() == digit_char(d));
        assert(0 <= d < 10);
        assert(digit_value(digit_char(d)) == d);
        vstd::arithmetic::div_mod::lemma_fundamental_div_mod(n as int, 10);
        assert(digits_value(s) == digits_value(s.drop_last()) * 10 + digit_value(s.last()));
    } else {
        let s = nat_digits(n);
        assert(s.drop_last() =~= Seq::<char>::empty());
        assert(digits_value(s.drop_last()) == 0);
        assert(digit_value(digit_char(n as int)) == n);
    }
}

/// Law: the decimal notation of any integer reads back as that integer, so
/// two different integers never get the same notation.
pub proof fn decimal_reads_back(i: int)
    ensures
        parse_decimal(decimal(i)) == i,
{
    if i < 0 {
        let m = (-i) as nat;
        lemma_nat_digits_read_back(m);
        lemma_nat_digits_are_digits(m);
        assert((seq!['-'] + nat_digits(m)).drop_first() =~= nat_digits(m));
    } else {
        let m = i as nat;
        lemma_nat_digits_read_back(m);
        lemma_nat_digits_are_digits(m);
        assert(digit_value(nat_digits(m)[0]) >= 0);
        assert(nat_digits(m)[0] != '-');
    }
}

/// A standard decimal notation: an optional minus sign, then at least one
/// digit, with no leading zero (a lone "0" aside) and no "-0".
pub open spec fn is_canonical_decimal(s: Seq<char>) -> bool {
    let body = if s.len() > 0 && s[0] == '-' { s.drop_first() } else { s };
    &&& body.len() >= 1
    &&& forall|k: int| 0 <= k < body.len() ==> 0 <= #[trigger] digit_value(body[k]) <= 9
    &&& body[0] == '0' ==> body.len() == 1 && !(s.len() > 0 && s[0] == '-')
}

/// The digits of a positive number start with a nonzero digit.
pub proof fn lemma_nat_digits_first(n: nat)
    ensures
        n >= 1 ==> nat_digits(n)[0] != '0',
        n == 0 ==> nat_digits(n) == seq!['0'],
        nat_digits(n).len() >= 1,
    decreases n,
{
    if n >= 10 {
        lemma_nat_digits_first(n / 10);
        assert(nat_digits(n)[0] == nat_digits(n / 10)[0]);
    }
}

/// Law: the decimal notation of any integer is the standard one: a minus
/// sign exactly for negative numbers, digits only, and no leading zeros; and
/// it reads back as the integer.
pub proof fn decimal_is_canonical(i: int)
    ensures
        is_canonical_decimal(decimal(i)),
        parse_decimal(decimal(i)) == i,
        (decimal(i)[0] == '-') == (i < 0),
{
    decimal_reads_back(i);
    let m: nat = if i < 0 { (-i) as nat } else { i as nat };
    lemma_nat_digits_first(m);
    lemma_nat_digits_are_digits(m);
    if i < 0 {
        assert((seq!['-'] + nat_digits(m)).drop_first() =~= nat_digits(m));
        assert(decimal(i)[0] == '-');
    } else {
        assert(digit_value(nat_digits(m)[0]) >= 0);
        assert(decimal(i)[0] != '-');
    }
}

/// The one-character string slice that writes the digit `d`.
fn digit_str(d: u32) -> (r: &'static str)
    requires
        d < 10,
    ensures
        r@ == seq![digit_char(d as int)],
{
    if d == 0 {
        proof {
            reveal_strlit("0");
        }
        "0"
    } else if d == 1 {
        proof {
            reveal_strlit("1");
        }
        "1"
    } else if d == 2 {
        proof {
            reveal_strlit("2");
        }
        "2"
    } else if d == 3 {
        proof {
            reveal_strlit("3");
        }
        "3"
    } else if d == 4 {
        proof {
            reveal_strlit("4");
        }
        "4"
    } else if d == 5 {
        proof {
            reveal_strlit("5");
        }
        "5"
    } else if d == 6 {
        proof {
            reveal_strlit("6");
        }
        "6"
    } else if d == 7 {
        proof {
            reveal_strlit("7");
        }
        "7"
    } else if d == 8 {
        proof {
            reveal_strlit("8");
        }
        "8"
    } else {
        proof {
            reveal_strlit("9");
        }
        "9"
    }
}

/// Appends the decimal digits of `n` to `s`.
fn append_nat_digits(s: &mut String, n: u32)
    ensures
        final(s)@ == old(s)@ + nat_digits(n as nat),
    decreases n,
{
    if n >= 10 {
        append_nat_digits(s, n / 10);
    }
    s.append(digit_str(n % 10));
    proof {
        if n >= 10 {
            assert(nat_digits(n as nat) == nat_digits((n / 10) as nat).push(digit_char((n % 10) as int)));
            assert(s@ =~= old(s)@ + nat_digits(n as nat));
        } else {
            assert(s@ =~= old(s)@ + nat_digits(n as nat));
        }
    }
}

/// Appends the decimal notation of `n` to `s`, as `format!("{}", n)` writes it.
pub fn append_decimal(s: &mut String, n: i32)
    ensures
        final(s)@ == old(s)@ + decimal(n as int),
{
    if n < 0 {
        proof {
            reveal_strlit("-");
        }
        s.append("-");
        let wide: i64 = n as i64;
        let magnitude: u32 = (-wide) as u32;
        append_nat_digits(s, magnitude);
        assert(s@ =~= old(s)@ + decimal(n as int));
    } else {
        let magnitude: u32 = n as u32;
        append_nat_digits(s, magnitude);
    }
}

/// The decimal notation of `n` as a new string.
pub fn i32_to_decimal(n: i32) -> (r: String)
    ensures
        r@ == decimal(n as int),
{
    let mut s = String::new();
    append_decimal(&mut s, n);
    assert(s@ =~= decimal(n as int));
    s
}

/// Whether two string slices hold the same characters.
pub fn str_equal(a: &str, b: &str) -> (r: bool)
    ensures
        r == (a@ == b@),
{
    let x = a.as_bytes();
    let y = b.as_bytes();
    let n: usize = x.len();
    if n != y.len() {
        return false;
    }
    let mut i: usize = 0;
    while i < n
        invariant
            n == x@.len(),
            n == y@.len(),
            x@ == a.spec_bytes(),
            y@ == b.spec_bytes(),
            i <= n,
            forall|k: int| 0 <= k < i ==> x@[k] == y@[k],
        decreases n - i,
    {
        if x[i] != y[i] {
            return false;
        }
        i = i + 1;
    }
    proof {
        assert(x@ =~= y@);
        vstd::utf8::encode_utf8_decode_utf8(a@);
        vstd::utf8::encode_utf8_decode_utf8(b@);
    }
    true
}

/// A new string that holds `a` followed by `b`.
pub fn concat(a: &str, b: &str) -> (r: String)
    ensures
        r@ == a@ + b@,
{
    let mut s = a.to_owned();
    s.append(b);
    s
}

} // verus!
