//! Coins and their value in cents, matched one variant at a time.

use vstd::prelude::*;

verus! {

/// The four common coins.
pub enum Coin {
    Penny,
    Nickel,
    Dime,
    Quarter,
}

/// The states a quarter can come from.
#[derive(Debug)]
pub enum UsState {
    Alabama,
    Alaska,
}

/// The four common coins, where a quarter names the state it shows.
pub enum CoinState {
    Penny,
    Nickel,
    Dime,
    Quarter(UsState),
}

/// The value of a coin in cents.
pub fn value_in_cents(coin: Coin) -> (r: u8)
    ensures
        r == match coin {
            Coin::Penny => 1u8,
            Coin::Nickel => 5u8,
            Coin::Dime => 10u8,
            Coin::Quarter => 25u8,
        },
{
    match coin {
        Coin::Penny => 1,
        Coin::Nickel => 5,
        Coin::Dime => 10,
        Coin::Quarter => 25,
    }
}

/// The value of a coin in cents; a quarter is worth the same whatever state
/// it shows.
pub fn value_in_cents_state(coin: CoinState) -> (r: u8)
    ensures
        r == match coin {
            CoinState::Penny => 1u8,
            CoinState::Nickel => 5u8,
            CoinState::Dime => 10u8,
            CoinState::Quarter(_) => 25u8,
        },
{
    match coin {
        CoinState::Penny => 1,
        CoinState::Nickel => 5,
        CoinState::Dime => 10,
        CoinState::Quarter(_state) => 25,
    }
}

/// Adds one to the value inside an option, if there is one.
pub fn plus_one(x: Option<i32>) -> (r: Option<i32>)
    requires
        x matches Some(i) ==> i + 1 <= i32::MAX,
    ensures
        x is None ==> r is None,
        x matches Some(i) ==> r == Some((i + 1) as i32),
{
    match x {
        None => None,
        Some(i) => Some(i + 1),
    }
}

} // verus!
