use vstd::prelude::*;

verus! {

/// A fixed-point decimal number, worth `mantissa / 10^scale`.
#[derive(Clone, Copy, Debug, PartialEq, Eq, Structural)]
pub struct Decimal {
    pub mantissa: i128,
    pub scale: u32,
}

/// What `rust_decimal` makes of a decimal text: its mantissa and scale, or
/// nothing where the text is not a decimal.
pub uninterp spec fn decimal_parse_of(s: Seq<char>) -> Option<(i128, u32)>;

/// Relies on `FromStr` for `rust_decimal::Decimal`, with its `mantissa` and
/// `scale`: the outcome depends on the text alone.
#[verifier::external_body]
fn parse_decimal_parts(s: &str) -> (r: Option<(i128, u32)>)
    ensures
        r == decimal_parse_of(s@),
{
    match s.parse::<rust_decimal::Decimal>() {
        Ok(d) => Some((d.mantissa(), d.scale())),
        Err(_) => None,
    }
}

/// The decimal that a client-supplied text stands for, if any.
pub open spec fn parsed_decimal(s: Seq<char>) -> Option<Decimal> {
    match decimal_parse_of(s) {
        Some((m, sc)) => Some(Decimal { mantissa: m, scale: sc }),
        None => None,
    }
}

/// Parses a client-supplied decimal text; `None` where it is malformed.
pub fn parse_decimal(s: &str) -> (r: Option<Decimal>)
    ensures
        r == parsed_decimal(s@),
{
    match parse_decimal_parts(s) {
        Some((m, sc)) => Some(Decimal { mantissa: m, scale: sc }),
        None => None,
    }
}

impl Decimal {
    /// The whole number `n`, at scale zero.
    pub fn from_integer(n: i128) -> (r: Decimal)
        ensures
            r.mantissa == n,
            r.scale == 0,
    {
        Decimal { mantissa: n, scale: 0 }
    }
}

} // verus!
