use vstd::prelude::*;

verus! {

/// The outcome of halving an item: either the half of an even item, or the
/// odd item handed back as not divisible in the middle.
#[derive(Clone, Copy, Debug, PartialEq, Eq, Structural)]
pub enum HalfOutcome {
    Halved(u8),
    NotEven(u8),
}

/// Halves an even item; an odd item cannot be split in the middle and is
/// reported back unchanged.
pub fn half_item(item: u8) -> (r: HalfOutcome)
    ensures
        item % 2 == 0 ==> r == HalfOutcome::Halved((item / 2) as u8),
        item % 2 != 0 ==> r == HalfOutcome::NotEven(item),
{
    if item % 2 == 0 {
        HalfOutcome::Halved(item / 2)
    } else {
        HalfOutcome::NotEven(item)
    }
}

} // verus!
