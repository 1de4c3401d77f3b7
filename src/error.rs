//! The error raised when an engine call reports a failure status.

use vstd::prelude::*;

verus! {

/// The decimal digit character for `d < 10`.
pub open spec fn digit_char(d: nat) -> char {
    seq!['0', '1', '2', '3', '4', '5', '6', '7', '8', '9'][d as int]
}

/// The decimal numeral of `n`, without leading zeros.
pub open spec fn decimal_digits(n: nat) -> Seq<char>
    decreases n,
{
    if n < 10 {
        seq![digit_char(n)]
    } else {
        decimal_digits(n / 10).push(digit_char(n % 10))
    }
}

/// The decimal numeral of `n`, with a leading `-` when it is negative.
pub open spec fn decimal(n: int) -> Seq<char> {
    if n < 0 {
        seq!['-'] + decimal_digits((-n) as nat)
    } else {
        decimal_digits(n as nat)
    }
}

/// Relies on i32's `Display`, through `to_string`: the decimal numeral, with
/// a leading `-` for a negative value.
#[verifier::external_body]
fn i32_decimal(n: i32) -> (r: String)
    ensures
        r@ == decimal(n as int),
{
    n.to_string()
}

/// A failure status returned by the engine, kept as its decimal text.
#[derive(Debug)]
pub struct StrayPhotonsError {
    pub details: String,
}

impl StrayPhotonsError {
    /// The error for status code `err`.
    pub fn new(err: i32) -> (r: StrayPhotonsError)
        ensures
            r.details@ == decimal(err as int),
    {
        StrayPhotonsError { details: i32_decimal(err) }
    }

    /// The text of the error: the status code in decimal.
    pub fn description(&self) -> (r: &str)
        ensures
            r@ == self.details@,
    {
        self.details.as_str()
    }
}

} // verus!
