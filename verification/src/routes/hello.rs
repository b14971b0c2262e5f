//! The greeting endpoint.

use vstd::prelude::*;

verus! {

/// The body of the greeting.
pub fn hello_handler() -> (r: &'static str)
    ensures
        r@ == "Hello Rust World"@,
{
    "Hello Rust World"
}

} // verus!
