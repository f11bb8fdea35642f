//! Values of the foreign library's object graph. None of them owns what it
//! names: each is borrowed from the module or context that produced it.

use vstd::prelude::*;
use vstd::std_specs::convert::FromSpec;

pub mod basic_block;
pub mod chain;
pub mod function;
pub mod metadata;
pub mod parameter;

verus! {

/// Wraps each handle of a buffer that the foreign library filled, in the
/// order of the buffer.
pub fn wrap_handles<U: From<usize>>(handles: &[usize]) -> (r: Vec<U>)
    ensures
        r@.len() == handles@.len(),
        U::obeys_from_spec() ==> forall|i: int|
            0 <= i < handles@.len() ==> #[trigger] r@[i] == U::from_spec(handles@[i]),
{
    let mut out: Vec<U> = Vec::new();
    let mut i: usize = 0;
    while i < handles.len()
        invariant
            i <= handles@.len(),
            out@.len() == i,
            U::obeys_from_spec() ==> forall|k: int|
                0 <= k < i ==> #[trigger] out@[k] == U::from_spec(handles@[k]),
        decreases handles@.len() - i,
    {
        out.push(U::from(handles[i]));
        i += 1;
    }
    out
}

} // verus!
