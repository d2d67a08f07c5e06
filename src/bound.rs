use vstd::prelude::*;

verus! {

/// The bound used when none is given, or when the given one does not parse.
pub const DEFAULT_MAX_NUMBER: u64 = 50000;

/// What `str::trim` leaves of `s`.
pub uninterp spec fn trimmed(s: Seq<char>) -> Seq<char>;

/// Relies on `str::trim`: leading and trailing Unicode white space removed.
#[verifier::external_body]
fn trim(s: &str) -> (r: &str)
    ensures
        r@ == trimmed(s@),
{
    s.trim()
}

/// Every character of `s` is an ASCII digit, and there is at least one.
pub open spec fn is_decimal(s: Seq<char>) -> bool {
    s.len() >= 1 && forall|i: int| 0 <= i < s.len() ==> '0' <= #[trigger] s[i] && s[i] <= '9'
}

/// The number that the decimal digits `s` write.
pub open spec fn decimal_value(s: Seq<char>) -> int
    decreases s.len(),
{
    if s.len() == 0 {
        0
    } else {
        decimal_value(s.drop_last()) * 10 + (s.last() as u32 - '0' as u32)
    }
}

/// A `u64` in base 10: an optional `+` and then digits only, of a value
/// that fits.
pub open spec fn parsed_u64(s: Seq<char>) -> Option<u64> {
    let digits = if s.len() >= 1 && s[0] == '+' { s.skip(1) } else { s };
    if is_decimal(digits) && decimal_value(digits) <= u64::MAX {
        Some(decimal_value(digits) as u64)
    } else {
        None
    }
}

/// Relies on `u64`'s `FromStr`, which accepts an optional `+` followed by
/// decimal digits whose value fits, and nothing else.
#[verifier::external_body]
fn parse_u64(s: &str) -> (r: Option<u64>)
    ensures
        r == parsed_u64(s@),
{
    s.parse::<u64>().ok()
}

/// The particle bound given by an optional command-line argument: the
/// argument read as a `u64` once white space around it is removed, or
/// `DEFAULT_MAX_NUMBER` when it is missing or does not parse.
pub fn max_number_from_arg(arg: Option<&str>) -> (r: u64)
    ensures
        r == match arg {
            Some(a) => match parsed_u64(trimmed(a@)) {
                Some(v) => v,
                None => DEFAULT_MAX_NUMBER,
            },
            None => DEFAULT_MAX_NUMBER,
        },
{
    match arg {
        Some(a) => match parse_u64(trim(a)) {
            Some(v) => v,
            None => DEFAULT_MAX_NUMBER,
        },
        None => DEFAULT_MAX_NUMBER,
    }
}

} // verus!
