use vstd::prelude::*;

verus! {

/// The decimal digits of `n`.
pub open spec fn decimal(n: nat) -> Seq<char>
    decreases n,
{
    if n < 10 {
        seq![digit(n)]
    } else {
        decimal(n / 10).push(digit(n % 10))
    }
}

pub open spec fn digit(d: nat) -> char {
    ((48 + d) as u8) as char
}

/// The decimal form of `v`, with a leading minus sign when negative.
pub open spec fn signed_decimal(v: int) -> Seq<char> {
    if v < 0 {
        "-"@ + decimal((-v) as nat)
    } else {
        decimal(v as nat)
    }
}

/// `usize::to_string`: the decimal representation of `n`.
#[verifier::external_body]
pub(crate) fn decimal_text(n: usize) -> (r: String)
    ensures
        r@ == decimal(n as nat),
{
    n.to_string()
}

/// `i64::to_string`: the decimal representation of `v`.
#[verifier::external_body]
pub(crate) fn signed_text(v: i64) -> (r: String)
    ensures
        r@ == signed_decimal(v as int),
{
    v.to_string()
}

} // verus!
