//! Parameters of a function.

use vstd::prelude::*;
use vstd::std_specs::convert::FromSpecImpl;

use crate::value::chain::{chain_step, step};
use crate::value::function::Function;

verus! {

/// A parameter, borrowed from the module that holds its function.
#[derive(Debug)]
pub struct Parameter {
    pub ptr: usize,
}

impl From<usize> for Parameter {
    fn from(ptr: usize) -> (r: Self) {
        Parameter { ptr: ptr }
    }
}

impl FromSpecImpl<usize> for Parameter {
    open spec fn obeys_from_spec() -> bool {
        true
    }

    open spec fn from_spec(ptr: usize) -> Self {
        Parameter { ptr: ptr }
    }
}

impl From<Parameter> for usize {
    fn from(wrap: Parameter) -> (r: usize) {
        wrap.ptr
    }
}

impl FromSpecImpl<Parameter> for usize {
    open spec fn obeys_from_spec() -> bool {
        true
    }

    open spec fn from_spec(wrap: Parameter) -> usize {
        wrap.ptr
    }
}

impl Parameter {
    /// Whether the handle is present.
    pub open spec fn wf(&self) -> bool {
        self.ptr != crate::NULL_HANDLE
    }
}

/// A walk over the parameters of a function: forward only, once only. The function
/// is borrowed for as long as the walk is held.
#[derive(Debug)]
pub struct ParameterIterator<'a> {
    next_: usize,
    parent: &'a Function,
}

impl<'a> ParameterIterator<'a> {
    /// The handle that the next step yields; the null handle at the end.
    pub closed spec fn cursor(&self) -> usize {
        self.next_
    }

    /// The function whose chain is walked.
    pub closed spec fn parent(&self) -> Function {
        *self.parent
    }

    /// A walk over the chain of `f` that starts at `first`, the first handle
    /// as the foreign library gave it for `f`: the null handle for an empty
    /// chain.
    pub fn from(f: &'a Function, first: usize) -> (r: Self)
        ensures
            r.cursor() == first,
            r.parent() == *f,
    {
        ParameterIterator { next_: first, parent: f }
    }

    /// The handle whose successor the next step needs from the foreign
    /// library; none at the end, where nothing is to be asked.
    pub fn pending(&self) -> (r: Option<usize>)
        ensures
            r == (if self.cursor() == crate::NULL_HANDLE {
                None
            } else {
                Some(self.cursor())
            }),
    {
        if self.next_ == crate::NULL_HANDLE {
            None
        } else {
            Some(self.next_)
        }
    }

    /// One step. At the end of the chain it yields nothing, now and ever
    /// after, and `successor` is not looked at. Elsewhere it yields the item
    /// at the cursor and moves the cursor to `successor`, which is what the
    /// foreign library gave as the one after that item.
    pub fn next(&mut self, successor: usize) -> (r: Option<Parameter>)
        ensures
            final(self).cursor() == chain_step(old(self).cursor(), successor).1,
            final(self).parent() == old(self).parent(),
            r == match chain_step(old(self).cursor(), successor).0 {
                Some(handle) => Some(Parameter { ptr: handle }),
                None => None,
            },
            r matches Some(item) ==> item.wf(),
    {
        match step(&mut self.next_, successor) {
            Some(cur) => Some(Parameter::from(cur)),
            None => None,
        }
    }
}

} // verus!
