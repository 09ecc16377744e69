//! Text primitives shared by the generators: appending characters and
//! rendering numbers in decimal.

use vstd::prelude::*;
use vstd::string::*;

verus! {

/// `String::push` of the standard library: the string afterwards is the
/// string before with the one character added at its end.
pub assume_specification[ String::push ](s: &mut String, c: char)
    ensures
        final(s)@ == old(s)@.push(c),
;

/// Whether two string slices hold the same characters.
pub fn str_eq(a: &str, b: &str) -> (same: bool)
    ensures
        same == (a@ == b@),
{
    a.to_owned() == b.to_owned()
}

/// The character that stands for a single decimal digit.
pub open spec fn digit_char(d: nat) -> char {
    if d == 0 {
        '0'
    } else if d == 1 {
        '1'
    } else if d == 2 {
        '2'
    } else if d == 3 {
        '3'
    } else if d == 4 {
        '4'
    } else if d == 5 {
        '5'
    } else if d == 6 {
        '6'
    } else if d == 7 {
        '7'
    } else if d == 8 {
        '8'
    } else {
        '9'
    }
}

/// A number in decimal, most significant digit first, without leading zeros.
pub open spec fn decimal(n: nat) -> Seq<char>
    decreases n,
{
    if n < 10 {
        seq![digit_char(n)]
    } else {
        decimal(n / 10).push(digit_char(n % 10))
    }
}

/// Whether a character is one of the ten decimal digits.
pub open spec fn is_digit(c: char) -> bool {
    exists|d: nat| d < 10 && c == digit_char(d)
}

fn digit(d: u64) -> (c: char)
    requires
        d < 10,
    ensures
        c == digit_char(d as nat),
{
    if d == 0 {
        '0'
    } else if d == 1 {
        '1'
    } else if d == 2 {
        '2'
    } else if d == 3 {
        '3'
    } else if d == 4 {
        '4'
    } else if d == 5 {
        '5'
    } else if d == 6 {
        '6'
    } else if d == 7 {
        '7'
    } else if d == 8 {
        '8'
    } else {
        '9'
    }
}

/// Appends `n` in decimal to `out`.
pub fn push_decimal(out: &mut String, n: u64)
    ensures
        final(out)@ == old(out)@ + decimal(n as nat),
    decreases n,
{
    if n >= 10 {
        push_decimal(out, n / 10);
    }
    out.push(digit(n % 10));
    proof {
        if n >= 10 {
            assert(old(out)@ + decimal(n as nat) =~= (old(out)@ + decimal((n / 10) as nat)).push(
                digit_char((n % 10) as nat),
            ));
        } else {
            assert(old(out)@ + decimal(n as nat) =~= old(out)@.push(digit_char(n as nat)));
        }
    }
}

/// `n` in decimal as a string of its own.
pub fn decimal_string(n: u64) -> (s: String)
    ensures
        s@ == decimal(n as nat),
{
    let mut s = String::new();
    push_decimal(&mut s, n);
    assert(Seq::<char>::empty() + decimal(n as nat) =~= decimal(n as nat));
    s
}

/// Every character of a decimal rendering is a digit, and there is at least
/// one of them.
pub proof fn lemma_decimal_digits(n: nat)
    ensures
        decimal(n).len() >= 1,
        forall|i: int| 0 <= i < decimal(n).len() ==> is_digit(#[trigger] decimal(n)[i]),
    decreases n,
{
    if n < 10 {
        assert(is_digit(digit_char(n)));
    } else {
        lemma_decimal_digits(n / 10);
        assert(is_digit(digit_char(n % 10)));
    }
}

/// The last digit of a decimal rendering is the digit of the units, and
/// what stands before it is the rendering of the tens.
proof fn lemma_decimal_last(n: nat)
    ensures
        decimal(n).last() == digit_char(n % 10),
        n >= 10 ==> decimal(n).drop_last() == decimal(n / 10),
        n >= 10 ==> decimal(n).len() >= 2,
        n < 10 ==> decimal(n).len() == 1,
{
    if n >= 10 {
        lemma_decimal_digits(n / 10);
        assert(decimal(n).drop_last() =~= decimal(n / 10));
    }
}

/// Different digits are written with different characters.
proof fn lemma_digit_char_injective(a: nat, b: nat)
    requires
        a < 10,
        b < 10,
        digit_char(a) == digit_char(b),
    ensures
        a == b,
{
}

/// Different numbers have different decimal renderings.
pub proof fn lemma_decimal_injective(a: nat, b: nat)
    requires
        decimal(a) == decimal(b),
    ensures
        a == b,
    decreases a,
{
    lemma_decimal_last(a);
    lemma_decimal_last(b);
    lemma_digit_char_injective(a % 10, b % 10);
    if a >= 10 {
        lemma_decimal_injective(a / 10, b / 10);
    }
}

/// A name that is made of a base, a number and an ending tells its number
/// and its ending, as long as no ending begins with a digit: if two such
/// names over one base are the same text, their numbers are the same and
/// their endings are.
pub proof fn lemma_numbered_names(base: Seq<char>, i: nat, s: Seq<char>, j: nat, t: Seq<char>)
    requires
        s.len() > 0 ==> !is_digit(s[0]),
        t.len() > 0 ==> !is_digit(t[0]),
        base + decimal(i) + s == base + decimal(j) + t,
    ensures
        i == j,
        s == t,
{
    let x = decimal(i);
    let y = decimal(j);
    let left = base + x + s;
    let right = base + y + t;
    lemma_decimal_digits(i);
    lemma_decimal_digits(j);
    assert(left.len() == right.len());
    if x.len() < y.len() {
        assert(s.len() > 0);
        assert(left[(base.len() + x.len()) as int] == s[0]);
        assert(right[(base.len() + x.len()) as int] == y[x.len() as int]);
        assert(false);
    }
    if y.len() < x.len() {
        assert(t.len() > 0);
        assert(right[(base.len() + y.len()) as int] == t[0]);
        assert(left[(base.len() + y.len()) as int] == x[y.len() as int]);
        assert(false);
    }
    assert forall|k: int| 0 <= k < x.len() implies x[k] == y[k] by {
        assert(left[base.len() + k] == x[k]);
        assert(right[base.len() + k] == y[k]);
    }
    assert(x =~= y);
    assert forall|k: int| 0 <= k < s.len() implies s[k] == t[k] by {
        assert(left[base.len() + x.len() + k] == s[k]);
        assert(right[base.len() + y.len() + k] == t[k]);
    }
    assert(s =~= t);
    lemma_decimal_injective(i, j);
}

} // verus!
