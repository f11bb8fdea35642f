//! A safety layer over a C-ABI compiler-infrastructure library.
//!
//! The foreign library hands out opaque handles. This crate holds the rules
//! that make them safe to use: which handle may be wrapped, when a reply of
//! the foreign library means success, how the diagnostic log is filled and
//! drained, how a linked chain of handles is walked, and how a buffer of
//! operand handles is sized and read back. A handle is held as a `usize`
//! that is never interpreted, only compared with the null sentinel and
//! passed back.
#![allow(dead_code)]

use vstd::prelude::*;

pub mod context;
pub mod diagnostic;
pub mod io;
pub mod memory;
pub mod module;
pub mod utils;
pub mod value;

verus! {

/// The sentinel by which the foreign library says that a handle is absent.
pub const NULL_HANDLE: usize = 0;

/// The call that gives an owned object back to the foreign library. Each
/// kind of owner has its own, and takes the owner's handle.
#[derive(Debug, Clone, Copy, PartialEq, Eq, Structural)]
pub enum Disposal {
    Context(usize),
    Module(usize),
    MemoryBuffer(usize),
    Message(usize),
}

/// A type that has an underlying handle.
pub trait PtrTrait<T> {
    /// The handle that the value wraps.
    spec fn handle(&self) -> T;

    /// The handle, to read.
    fn as_ptr(&self) -> (r: &T)
        ensures
            *r == self.handle(),
    ;

    /// The handle, to read and to replace: what is written through the
    /// reference is the handle afterwards.
    fn as_mut_ptr(&mut self) -> (r: &mut T)
        ensures
            *r == old(self).handle(),
            final(self).handle() == *final(r),
    ;
}

} // verus!
