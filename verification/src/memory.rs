//! Buffers of bytes that the foreign library owns.

use vstd::prelude::*;
use vstd::std_specs::convert::FromSpecImpl;

use crate::utils::Message;
use crate::Disposal;

verus! {

/// A byte buffer of the foreign library, holding the contents of a file or a
/// serialized module.
#[derive(Debug)]
pub struct MemoryBuffer {
    pub ptr: usize,
}

impl From<usize> for MemoryBuffer {
    fn from(ptr: usize) -> (r: Self) {
        MemoryBuffer { ptr: ptr }
    }
}

impl FromSpecImpl<usize> for MemoryBuffer {
    open spec fn obeys_from_spec() -> bool {
        true
    }

    open spec fn from_spec(ptr: usize) -> Self {
        MemoryBuffer { ptr: ptr }
    }
}

impl From<MemoryBuffer> for usize {
    fn from(wrap: MemoryBuffer) -> (r: usize) {
        wrap.ptr
    }
}

impl FromSpecImpl<MemoryBuffer> for usize {
    open spec fn obeys_from_spec() -> bool {
        true
    }

    open spec fn from_spec(wrap: MemoryBuffer) -> usize {
        wrap.ptr
    }
}

/// What reading a file into a buffer comes to, from the status, the buffer
/// handle and the message handle that the foreign library gave.
pub open spec fn read_outcome(status: i32, mbuf: usize, msg: usize) -> Result<MemoryBuffer, Message> {
    if status == 0 {
        Ok(MemoryBuffer { ptr: mbuf })
    } else {
        Err(Message { ptr: msg })
    }
}

impl MemoryBuffer {
    /// Whether the buffer stands for an object of the foreign library.
    pub open spec fn wf(&self) -> bool {
        self.ptr != crate::NULL_HANDLE
    }

    /// Gives the buffer up: what is left of it is the one call that releases
    /// it.
    pub fn release(self) -> (d: Disposal)
        ensures
            d == Disposal::MemoryBuffer(self.ptr),
    {
        Disposal::MemoryBuffer(self.ptr)
    }

    /// The result of asking the foreign library for a buffer with the
    /// contents of a file: the buffer where the status is zero, else the
    /// foreign library's message, as it came.
    pub fn from_file(status: i32, mbuf: usize, msg: usize) -> (r: Result<MemoryBuffer, Message>)
        ensures
            r == read_outcome(status, mbuf, msg),
    {
        if status == 0 {
            Ok(MemoryBuffer { ptr: mbuf })
        } else {
            Err(Message::from(msg))
        }
    }
}

} // verus!
