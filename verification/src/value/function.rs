//! Functions of a module.

use vstd::prelude::*;
use vstd::std_specs::convert::FromSpecImpl;

use crate::value::basic_block::{BasicBlockIterator, EntryBlock};
use crate::value::parameter::Parameter;
use crate::value::wrap_handles;

verus! {

/// A function, borrowed from the module that holds it.
#[derive(Debug)]
pub struct Function {
    pub ptr: usize,
}

impl From<usize> for Function {
    fn from(ptr: usize) -> (r: Self) {
        Function { ptr: ptr }
    }
}

impl FromSpecImpl<usize> for Function {
    open spec fn obeys_from_spec() -> bool {
        true
    }

    open spec fn from_spec(ptr: usize) -> Self {
        Function { ptr: ptr }
    }
}

impl From<Function> for usize {
    fn from(wrap: Function) -> (r: usize) {
        wrap.ptr
    }
}

impl FromSpecImpl<Function> for usize {
    open spec fn obeys_from_spec() -> bool {
        true
    }

    open spec fn from_spec(wrap: Function) -> usize {
        wrap.ptr
    }
}

impl Function {
    /// Whether the handle is present.
    pub open spec fn wf(&self) -> bool {
        self.ptr != crate::NULL_HANDLE
    }
}

impl Function {
    /// The parameters of the function, from the handles that the foreign
    /// library gave for the indices from zero up, in that order.
    pub fn parameters(&self, raw: &[usize]) -> (params: Vec<Parameter>)
        ensures
            params@.len() == raw@.len(),
            forall|i: int| 0 <= i < raw@.len() ==> #[trigger] params@[i].ptr == raw@[i],
    {
        wrap_handles::<Parameter>(raw)
    }

    /// The entry block, from the handle that the foreign library gave.
    pub fn entry_block(&self, bb: usize) -> (r: EntryBlock)
        ensures
            r.ptr == bb,
    {
        EntryBlock::from(bb)
    }

    /// A walk over the basic blocks, from the first that the foreign library
    /// gave.
    pub fn basic_blocks<'a>(&'a self, first: usize) -> (r: BasicBlockIterator<'a>)
        ensures
            r.cursor() == first,
            r.parent() == *self,
    {
        BasicBlockIterator::from(self, first)
    }

    /// Whether the function has a personality function, from the flag that
    /// the foreign library gave.
    pub fn has_personality_fn(&self, flag: i32) -> (r: bool)
        ensures
            r == (flag != 0),
    {
        flag != 0
    }

    /// The personality function, from the handle that the foreign library
    /// gave: none where it gave the null handle.
    pub fn personality_fn(&self, v: usize) -> (r: Option<Function>)
        ensures
            r == (if v == crate::NULL_HANDLE {
                None
            } else {
                Some(Function { ptr: v })
            }),
            r matches Some(f) ==> f.wf(),
    {
        if v == crate::NULL_HANDLE {
            None
        } else {
            Some(Function::from(v))
        }
    }
}

} // verus!
