use vstd::prelude::*;

verus! {

/// The stages an order moves through.
#[derive(Debug)]
pub enum Order {
    OrderDone,
    PaymentDone,
    OrderSent,
    OrderDelivery,
}

/// Hands the value back when it is a single digit, and nothing otherwise.
pub fn get_number(x: u8) -> (r: Option<u8>)
    ensures
        x < 10 ==> r == Some(x),
        x >= 10 ==> r == Option::<u8>::None,
{
    if x < 10 {
        Some(x)
    } else {
        None
    }
}

} // verus!
