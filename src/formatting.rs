use vstd::prelude::*;

verus! {

/// The character of a decimal digit.
pub open spec fn digit_char(d: nat) -> char
    recommends
        d < 10,
{
    ((d + 48) as u8) as char
}

/// The decimal digits of `n`, most significant first, without leading zeros.
pub open spec fn decimal(n: nat) -> Seq<char>
    decreases n,
{
    if n < 10 {
        seq![digit_char(n)]
    } else {
        decimal(n / 10).push(digit_char(n % 10))
    }
}

/// The decimal form of `i`, with a leading `-` where it is negative.
pub open spec fn signed_decimal(i: int) -> Seq<char> {
    if i < 0 {
        seq!['-'] + decimal((-i) as nat)
    } else {
        decimal(i as nat)
    }
}

/// The quoted and escaped form that `str`'s `Debug` gives of a string.
pub uninterp spec fn str_debug(s: Seq<char>) -> Seq<char>;

/// Relies on `Debug` for `u64`: the decimal digits of the value.
#[verifier::external_body]
pub(crate) fn unsigned_repr(v: u64) -> (r: String)
    ensures
        r@ == decimal(v as nat),
{
    format!("{:?}", v)
}

/// Relies on `Debug` for `i64`: the decimal digits of the value, after a `-`
/// where it is negative.
#[verifier::external_body]
pub(crate) fn signed_repr(v: i64) -> (r: String)
    ensures
        r@ == signed_decimal(v as int),
{
    format!("{:?}", v)
}

/// Relies on `Debug` for `str`: the string in double quotes, with its special
/// characters escaped; the result depends on the characters alone.
#[verifier::external_body]
pub(crate) fn str_repr(s: &str) -> (r: String)
    ensures
        r@ == str_debug(s@),
{
    format!("{:?}", s)
}

} // verus!
