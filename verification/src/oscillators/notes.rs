//! Key numbers of the A notes on the 88-key scale.
use vstd::prelude::*;

verus! {

pub const A0: u8 = 1;

pub const A1: u8 = 13;

pub const A2: u8 = 25;

pub const A3: u8 = 37;

pub const A4: u8 = 49;

pub const A5: u8 = 61;

pub const A6: u8 = 73;

pub const A7: u8 = 85;

} // verus!
