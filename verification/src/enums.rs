//! Small enumerations: IP address kinds, messages, and option arithmetic.

use vstd::prelude::*;

verus! {

/// The two IP address families.
pub enum IpAddrKind {
    /// Version four.
    V4,
    /// Version six.
    V6,
}

/// An address tagged with its family.
pub struct IpAddr {
    /// The address family.
    pub kind: IpAddrKind,
    /// The textual address.
    pub address: String,
}

/// An address carrying its text directly in the variant.
pub enum IpAddrRevised {
    /// A version-four address.
    V4(String),
    /// A version-six address.
    V6(String),
}

/// Route a packet towards an address family.
pub fn route(ip_kind: IpAddrKind) {
    let _ = ip_kind;
}

/// A message for a window system.
pub enum Message {
    /// Close the window.
    Quit,
    /// Move the window to a position.
    Move {
        /// Horizontal position.
        x: i32,
        /// Vertical position.
        y: i32,
    },
    /// Write a label.
    Write(String),
    /// Change the colour.
    ChangeColor(i32, i32, i32),
}

impl Message {
    /// Deliver the message.
    pub fn call(&self) {
        let _ = self;
    }
}

/// A state commemorated on a quarter.
#[derive(Debug)]
pub enum UsState {
    /// The state of Alabama.
    Alabama,
    /// The state of Alaska.
    Alaska,
}

/// A coin of United States currency.
pub enum Coin {
    /// One cent.
    Penny,
    /// Five cents.
    Nickel,
    /// Ten cents, in its two minting sizes.
    Dime {
        /// The larger minting.
        big: String,
        /// The smaller minting.
        small: String,
    },
    /// Twenty-five cents, with a state on the back.
    Quarter(UsState),
}

/// The worth of a coin, in cents. Announcing lucky pennies and state
/// quarters is the caller's affair.
pub fn value_in_cents(coin: Coin) -> (v: u8)
    ensures
        v == match coin {
            Coin::Penny => 1u8,
            Coin::Nickel => 5u8,
            Coin::Dime { .. } => 10u8,
            Coin::Quarter(_) => 25u8,
        },
{
    match coin {
        Coin::Penny => 1,
        Coin::Nickel => 5,
        Coin::Dime { big: _, small: _ } => 10,
        Coin::Quarter(_) => 25,
    }
}

/// One more than the given number, passing absence through.
#[allow(non_snake_case)]
pub fn addOne(value: Option<i32>) -> (r: Option<i32>)
    requires
        value matches Some(n) ==> n < i32::MAX,
    ensures
        r == match value {
            Some(num) => Some((num + 1) as i32),
            None => None::<i32>,
        },
{
    match value {
        Some(num) => Some(num + 1),
        None => None,
    }
}

} // verus!
