use vstd::prelude::*;

verus! {

/// A US coin.
#[derive(PartialEq, Eq, Structural, Debug, Clone, Copy)]
pub enum Coin {
    Penny,
    Nickel,
    Dime,
    Quarter,
}

/// The value of a coin in cents.
pub fn value_in_cents(coin: Coin) -> (r: u8)
    ensures
        coin is Penny ==> r == 1,
        coin is Nickel ==> r == 5,
        coin is Dime ==> r == 10,
        coin is Quarter ==> r == 25,
{
    match coin {
        Coin::Penny => 1,
        Coin::Nickel => 5,
        Coin::Dime => 10,
        Coin::Quarter => 25,
    }
}

} // verus!
