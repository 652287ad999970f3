use vstd::prelude::*;

verus! {

/// Signals that the mathematical result of an operation does not fit in the
/// unsigned 8-bit range. The operations here never wrap silently: a result
/// that cannot be represented is reported as this fault instead.
#[derive(Clone, Copy, Debug, PartialEq, Eq, Structural)]
pub struct OverflowFault;

/// Adds the two operands and one more.
///
/// Returns `x + y + 1` whenever that value fits in a `u8`, and faults with
/// `OverflowFault` otherwise.
pub fn sum_plus_one(x: u8, y: u8) -> (r: Result<u8, OverflowFault>)
    ensures
        x + y + 1 <= 255 ==> r == Ok::<u8, OverflowFault>((x + y + 1) as u8),
        x + y + 1 > 255 ==> r == Err::<u8, OverflowFault>(OverflowFault),
{
    let sum: u16 = x as u16 + y as u16 + 1;
    if sum <= 255 {
        Ok(sum as u8)
    } else {
        Err(OverflowFault)
    }
}

/// Subtracts the second operand and one more from the first, clamped at zero.
///
/// When `x <= y` the result is `0`; this covers equality as well, by design.
/// Otherwise the result is `x - y - 1`, which cannot underflow since
/// `x > y` puts `x - y` at `1` or more.
pub fn sub_less_one(x: u8, y: u8) -> (r: u8)
    ensures
        x <= y ==> r == 0,
        x > y ==> r == x - y - 1,
{
    if x <= y {
        return 0;
    }

    x - y - 1
}

} // verus!
