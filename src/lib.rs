use vstd::prelude::*;

pub mod grid;
pub mod sequence;
pub mod shader;

verus! {

/// Sum of two counters; the caller keeps the sum within `u32`.
pub fn add(a: u32, b: u32) -> (r: u32)
    requires
        a + b <= u32::MAX,
    ensures
        r == a + b,
{
    a + b
}

} // verus!
