use vstd::prelude::*;

verus! {

/// The character of a decimal digit `d < 10`.
pub open spec fn digit_char(d: nat) -> char {
    seq!['0', '1', '2', '3', '4', '5', '6', '7', '8', '9'][d as int]
}

/// The decimal digits of `n`, most significant first, with no sign or suffix.
pub open spec fn decimal(n: nat) -> Seq<char>
    decreases n,
{
    if n < 10 {
        seq![digit_char(n)]
    } else {
        decimal(n / 10) + seq![digit_char(n % 10)]
    }
}

/// Relies on proc_macro2::Literal::usize_unsuffixed: the literal it builds
/// prints as the decimal digits of the value, with no type suffix.
#[verifier::external_body]
pub(crate) fn index_literal(idx: usize) -> (r: String)
    ensures
        r@ == decimal(idx as nat),
{
    proc_macro2::Literal::usize_unsuffixed(idx).to_string()
}

} // verus!
