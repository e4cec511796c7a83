//! An interactive terminal list browser: a view model holding a list of
//! text items and a selection cursor, a pure input dispatcher that turns
//! key events into state changes or a termination signal, a proportional
//! three-region layout, and a pure render planner that turns the view
//! model into draw instructions.

use vstd::prelude::*;

pub mod input;
pub mod layout;
pub mod model;
pub mod render;
pub mod session;

verus! {

/// Adds two integers.
pub fn add(a: i32, b: i32) -> (r: i32)
    requires
        i32::MIN <= a + b <= i32::MAX,
    ensures
        r == a + b,
{
    a + b
}

} // verus!
