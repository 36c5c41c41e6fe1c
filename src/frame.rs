//! What can be handed to the output: an ordered run of lights.

use crate::value::LedValue;
use vstd::prelude::*;

verus! {

/// A run of lights, in ring order, that can be written to the output.
pub trait LedWritable {
    /// The lights, in ring order.
    spec fn lights(&self) -> Seq<LedValue>;

    fn as_array(&self) -> (r: &[LedValue])
        ensures
            r@ == self.lights(),
    ;
}

/// `count` lights, all of them `value`.
pub fn filled(value: LedValue, count: usize) -> (r: Vec<LedValue>)
    ensures
        r@ == Seq::new(count as nat, |i: int| value),
{
    let mut r: Vec<LedValue> = Vec::with_capacity(count);
    let mut i: usize = 0;
    while i < count
        invariant
            i <= count,
            r@ == Seq::new(i as nat, |k: int| value),
        decreases count - i,
    {
        r.push(value);
        i = i + 1;
        assert(r@ =~= Seq::new(i as nat, |k: int| value));
    }
    r
}

} // verus!
