//! The functions exposed to Dart by the integration bindings.

use vstd::prelude::*;

verus! {

/// The API with byte arithmetic.
pub struct AsyncApi;

impl AsyncApi {
    /// Adds two bytes.
    pub fn add(x: u8, y: u8) -> (r: u8)
        requires
            x + y <= u8::MAX,
        ensures
            r == x + y,
    {
        x + y
    }

    /// Subtracts two bytes.
    pub fn sub(x: u8, y: u8) -> (r: u8)
        requires
            y <= x,
        ensures
            r == x - y,
    {
        x - y
    }
}

/// The API with a constant.
pub struct Api2;

impl Api2 {
    /// Returns 12.
    pub fn get_the_byte() -> (r: u8)
        ensures
            r == 12,
    {
        12
    }
}

} // verus!
