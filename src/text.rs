//! Text building blocks: single characters and decimal numbers as strings.
use vstd::prelude::*;

verus! {

/// Relies on `char::to_string`: a string made of exactly that character.
#[verifier::external_body]
pub(crate) fn char_string(c: char) -> (r: String)
    ensures
        r@ == seq![c],
{
    c.to_string()
}

/// The decimal digit `d` (0 to 9) as a character.
pub open spec fn digit_char(d: int) -> char {
    ((48 + d) as u8) as char
}

/// The decimal notation of `n`, without leading zeros.
pub open spec fn decimal(n: nat) -> Seq<char>
    decreases n,
{
    if n < 10 {
        seq![digit_char(n as int)]
    } else {
        decimal(n / 10).push(digit_char((n % 10) as int))
    }
}

/// `n` thousandths with three decimals, such as `4.500`.
pub open spec fn fixed3(n: nat) -> Seq<char> {
    decimal(n / 1000) + seq!['.', digit_char(((n % 1000) / 100) as int), digit_char(((n % 100) / 10) as int), digit_char((n % 10) as int)]
}

/// `n` tenths with one decimal, such as `7.5`.
pub open spec fn fixed1(n: nat) -> Seq<char> {
    decimal(n / 10) + seq!['.', digit_char((n % 10) as int)]
}

fn digit(d: u128) -> (r: char)
    requires
        d < 10,
    ensures
        r == digit_char(d as int),
{
    ((d as u8) + 48) as char
}

/// Appends the decimal notation of `n`.
pub fn push_decimal(s: &mut String, n: u128)
    ensures
        final(s)@ == old(s)@ + decimal(n as nat),
    decreases n,
{
    if n >= 10 {
        push_decimal(s, n / 10);
    }
    let c = char_string(digit(n % 10));
    s.append(c.as_str());
    proof {
        if n >= 10 {
            assert(final(s)@ =~= old(s)@ + decimal(n as nat));
        }
    }
}

/// The decimal notation of `n`.
pub fn decimal_string(n: u128) -> (r: String)
    ensures
        r@ == decimal(n as nat),
{
    let mut s = String::new();
    push_decimal(&mut s, n);
    assert(s@ =~= decimal(n as nat));
    s
}

/// `n` thousandths written with three decimals.
pub fn fixed3_string(n: u128) -> (r: String)
    ensures
        r@ == fixed3(n as nat),
{
    let mut s = decimal_string(n / 1000);
    s.append(".");
    let a = char_string(digit((n % 1000) / 100));
    let b = char_string(digit((n % 100) / 10));
    let c = char_string(digit(n % 10));
    s.append(a.as_str());
    s.append(b.as_str());
    s.append(c.as_str());
    proof {
        reveal_strlit(".");
        assert(s@ =~= fixed3(n as nat));
    }
    s
}

/// `n` tenths written with one decimal.
pub fn fixed1_string(n: u128) -> (r: String)
    ensures
        r@ == fixed1(n as nat),
{
    let mut s = decimal_string(n / 10);
    s.append(".");
    let c = char_string(digit(n % 10));
    s.append(c.as_str());
    proof {
        reveal_strlit(".");
        assert(s@ =~= fixed1(n as nat));
    }
    s
}

} // verus!
