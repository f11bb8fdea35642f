//! Basic blocks of a function.

use vstd::prelude::*;
use vstd::std_specs::convert::FromSpecImpl;

use crate::value::chain::{chain_step, step};
use crate::value::function::Function;

verus! {

/// A basic block, borrowed from the module that holds its function.
#[derive(Debug)]
pub struct BasicBlock {
    pub ptr: usize,
}

impl From<usize> for BasicBlock {
    fn from(ptr: usize) -> (r: Self) {
        BasicBlock { ptr: ptr }
    }
}

impl FromSpecImpl<usize> for BasicBlock {
    open spec fn obeys_from_spec() -> bool {
        true
    }

    open spec fn from_spec(ptr: usize) -> Self {
        BasicBlock { ptr: ptr }
    }
}

impl From<BasicBlock> for usize {
    fn from(wrap: BasicBlock) -> (r: usize) {
        wrap.ptr
    }
}

impl FromSpecImpl<BasicBlock> for usize {
    open spec fn obeys_from_spec() -> bool {
        true
    }

    open spec fn from_spec(wrap: BasicBlock) -> usize {
        wrap.ptr
    }
}

impl BasicBlock {
    /// Whether the handle is present.
    pub open spec fn wf(&self) -> bool {
        self.ptr != crate::NULL_HANDLE
    }
}

/// A walk over the basic blocks of a function: forward only, once only. The function
/// is borrowed for as long as the walk is held.
#[derive(Debug)]
pub struct BasicBlockIterator<'a> {
    next_: usize,
    parent: &'a Function,
}

impl<'a> BasicBlockIterator<'a> {
    /// The handle that the next step yields; the null handle at the end.
    pub closed spec fn cursor(&self) -> usize {
        self.next_
    }

    /// The function whose chain is walked.
    pub closed spec fn parent(&self) -> Function {
        *self.parent
    }

    /// A walk over the chain of `f` that starts at `first`, the first handle
    /// as the foreign library gave it for `f`: the null handle for an empty
    /// chain.
    pub fn from(f: &'a Function, first: usize) -> (r: Self)
        ensures
            r.cursor() == first,
            r.parent() == *f,
    {
        BasicBlockIterator { next_: first, parent: f }
    }

    /// The handle whose successor the next step needs from the foreign
    /// library; none at the end, where nothing is to be asked.
    pub fn pending(&self) -> (r: Option<usize>)
        ensures
            r == (if self.cursor() == crate::NULL_HANDLE {
                None
            } else {
                Some(self.cursor())
            }),
    {
        if self.next_ == crate::NULL_HANDLE {
            None
        } else {
            Some(self.next_)
        }
    }

    /// One step. At the end of the chain it yields nothing, now and ever
    /// after, and `successor` is not looked at. Elsewhere it yields the item
    /// at the cursor and moves the cursor to `successor`, which is what the
    /// foreign library gave as the one after that item.
    pub fn next(&mut self, successor: usize) -> (r: Option<BasicBlock>)
        ensures
            final(self).cursor() == chain_step(old(self).cursor(), successor).1,
            final(self).parent() == old(self).parent(),
            r == match chain_step(old(self).cursor(), successor).0 {
                Some(handle) => Some(BasicBlock { ptr: handle }),
                None => None,
            },
            r matches Some(item) ==> item.wf(),
    {
        match step(&mut self.next_, successor) {
            Some(cur) => Some(BasicBlock::from(cur)),
            None => None,
        }
    }
}

/// The basic block at which a function is entered.
#[derive(Debug)]
pub struct EntryBlock {
    pub ptr: usize,
}

impl From<usize> for EntryBlock {
    fn from(ptr: usize) -> (r: Self) {
        EntryBlock { ptr: ptr }
    }
}

impl FromSpecImpl<usize> for EntryBlock {
    open spec fn obeys_from_spec() -> bool {
        true
    }

    open spec fn from_spec(ptr: usize) -> Self {
        EntryBlock { ptr: ptr }
    }
}

impl From<EntryBlock> for usize {
    fn from(wrap: EntryBlock) -> (r: usize) {
        wrap.ptr
    }
}

impl FromSpecImpl<EntryBlock> for usize {
    open spec fn obeys_from_spec() -> bool {
        true
    }

    open spec fn from_spec(wrap: EntryBlock) -> usize {
        wrap.ptr
    }
}

} // verus!
