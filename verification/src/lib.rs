use vstd::prelude::*;

verus! {

/// A state whose design a quarter can carry.
#[derive(Debug, Clone, Copy, PartialEq, Eq, Structural)]
pub enum UsState {
    Alabama,
    Alaska,
}

/// A United States coin denomination. A quarter records the state whose
/// design it carries; the state does not change the coin's value.
#[derive(Debug, Clone, Copy, PartialEq, Eq, Structural)]
pub enum Coin {
    Penny,
    Nickel,
    Dime,
    Quarter(UsState),
}

/// The face value of a coin in cents: one for a penny, five for a nickel,
/// ten for a dime, and twenty-five for a quarter, whatever its state.
pub open spec fn spec_value_in_cents(coin: Coin) -> u32 {
    match coin {
        Coin::Penny => 1,
        Coin::Nickel => 5,
        Coin::Dime => 10,
        Coin::Quarter(_) => 25,
    }
}

/// Returns the face value of `coin` in cents.
pub fn value_in_cents(coin: Coin) -> (cents: u32)
    ensures
        cents == spec_value_in_cents(coin),
{
    match coin {
        Coin::Penny => 1,
        Coin::Nickel => 5,
        Coin::Dime => 10,
        Coin::Quarter(_) => 25,
    }
}

/// Adds one to a present value and propagates absence: `None` maps to
/// `None`, and `Some(i)` maps to `Some(i + 1)`. The largest representable
/// value is excluded, so the sum never overflows.
pub fn plus_one(x: Option<i32>) -> (r: Option<i32>)
    requires
        x matches Some(i) ==> i < i32::MAX,
    ensures
        x is None ==> r is None,
        x matches Some(i) ==> r == Some((i + 1) as i32),
{
    match x {
        None => None,
        Some(i) => Some(i + 1),
    }
}

/// The value of a quarter does not depend on which state it carries:
/// any two quarters are worth the same twenty-five cents.
pub proof fn lemma_quarter_value_uniform(a: UsState, b: UsState)
    ensures
        spec_value_in_cents(Coin::Quarter(a)) == spec_value_in_cents(Coin::Quarter(b)),
{
}

} // verus!
