use vstd::prelude::*;

verus! {

/// Why a volume argument was refused.
#[derive(Debug, Clone, Copy, PartialEq, Eq, Structural)]
pub enum VolumeError {
    /// Not a decimal number from 0 to 255.
    Invalid,
    /// A number, but above the caller's maximum.
    OutOfRange,
}

/// Whether every character of `d` is an ASCII digit.
pub open spec fn all_digits(d: Seq<char>) -> bool {
    forall|i: int| 0 <= i < d.len() ==> '0' <= #[trigger] d[i] <= '9'
}

/// The number that the decimal digits `d` denote.
pub open spec fn digits_value(d: Seq<char>) -> int
    decreases d.len(),
{
    if d.len() == 0 {
        0
    } else {
        digits_value(d.drop_last()) * 10 + (d.last() as int - '0' as int)
    }
}

/// The `u8` that `s` denotes: an optional `+`, then one or more decimal digits
/// whose value is at most 255.
pub open spec fn decimal_u8(s: Seq<char>) -> Option<u8> {
    let d = if s.len() > 0 && s[0] == '+' {
        s.drop_first()
    } else {
        s
    };
    if d.len() > 0 && all_digits(d) && digits_value(d) <= 255 {
        Some(digits_value(d) as u8)
    } else {
        None
    }
}

/// Relies on `u8`'s `FromStr`: an optional `+` and decimal digits, within range.
#[verifier::external_body]
fn parse_u8(s: &str) -> (r: Option<u8>)
    ensures
        r == decimal_u8(s@),
{
    s.parse::<u8>().ok()
}

/// Reads a volume from 0 to `max`. The device does not check the range
/// itself, and callers differ on it, so each caller names its own maximum.
pub fn parse_volume(s: &str, max: u8) -> (r: Result<u8, VolumeError>)
    ensures
        match decimal_u8(s@) {
            None => r == Err::<u8, VolumeError>(VolumeError::Invalid),
            Some(v) => if v <= max {
                r == Ok::<u8, VolumeError>(v)
            } else {
                r == Err::<u8, VolumeError>(VolumeError::OutOfRange)
            },
        },
{
    match parse_u8(s) {
        None => Err(VolumeError::Invalid),
        Some(v) => if v <= max {
            Ok(v)
        } else {
            Err(VolumeError::OutOfRange)
        },
    }
}

} // verus!
