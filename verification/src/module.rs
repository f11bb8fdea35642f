//! Modules of the foreign library.

use vstd::prelude::*;
use vstd::std_specs::convert::FromSpecImpl;
use vstd::string::StringSliceAdditionalSpecFns;
use vstd::utf8::{decode_utf8, encode_utf8, encode_utf8_decode_utf8, encode_utf8_valid_utf8, valid_utf8};

use crate::context::Context;
use crate::diagnostic::{drained, Diagnostic};
use crate::memory::MemoryBuffer;
use crate::utils::{decode_lossy, lossy_utf8, Message};
use crate::Disposal;

verus! {

/// A module that may own the buffer it was made from. A module that was
/// created lazily reads from that buffer, so the buffer has to stay until
/// the module is gone.
#[derive(Debug)]
pub struct Module {
    pub ptr: usize,
    pub buf: Option<MemoryBuffer>,
}

impl From<usize> for Module {
    fn from(ptr: usize) -> (r: Self) {
        Module { ptr: ptr, buf: None }
    }
}

impl FromSpecImpl<usize> for Module {
    open spec fn obeys_from_spec() -> bool {
        true
    }

    open spec fn from_spec(ptr: usize) -> Self {
        Module { ptr: ptr, buf: None }
    }
}

impl From<Module> for usize {
    fn from(v: Module) -> (r: usize) {
        v.ptr
    }
}

impl FromSpecImpl<Module> for usize {
    open spec fn obeys_from_spec() -> bool {
        true
    }

    open spec fn from_spec(v: Module) -> usize {
        v.ptr
    }
}

/// Errors that constructing a module from a file can raise.
#[derive(Debug)]
pub enum ErrModuleFromFile {
    /// The file could not be read into a buffer; the text is the foreign
    /// library's own.
    ReadFile(String),
    /// The buffer could not be parsed; these are all the diagnostics that the
    /// attempt left in the log.
    CreateModule(Vec<Diagnostic>),
}

/// What the foreign library answered when asked to parse a buffer.
#[derive(Debug, Clone, Copy)]
pub struct ParseReply {
    pub status: i32,
    pub module: usize,
}

/// What the foreign library is handed to set the identifier of a module: the
/// name by its bytes and their number, not as a C string, so that nothing in
/// the name ends it early.
#[derive(Debug)]
pub struct IdentifierRequest<'a> {
    pub module: usize,
    pub name: &'a [u8],
}

/// What verifying a module comes to, from the status and the message handle
/// that the foreign verifier gave.
pub open spec fn verify_outcome(status: i32, msg: usize) -> Result<(), Message> {
    if status == 0 || msg == crate::NULL_HANDLE {
        Ok(())
    } else {
        Err(Message { ptr: msg })
    }
}

/// The calls that release a module and what it owns, in order.
pub open spec fn module_disposals(m: Module) -> Seq<Disposal> {
    match m.buf {
        Some(b) => seq![Disposal::Module(m.ptr), Disposal::MemoryBuffer(b.ptr)],
        None => seq![Disposal::Module(m.ptr)],
    }
}

impl Module {
    /// Whether the module stands for an object of the foreign library, and
    /// its buffer too, if it owns one.
    pub open spec fn wf(&self) -> bool {
        &&& self.ptr != crate::NULL_HANDLE
        &&& self.buf matches Some(b) ==> b.wf()
    }

    /// The result of loading a module from a file. `loaded` is the text of
    /// the foreign library's message where the file could not be read, else
    /// its answer to the request to parse the buffer. A failed read gives
    /// `ReadFile` with that text and leaves the log alone; a failed parse
    /// gives `CreateModule` with all that waits in the log, and empties it.
    pub fn from_file(ctx: &mut Context, loaded: Result<ParseReply, String>) -> (r: Result<
        Module,
        ErrModuleFromFile,
    >)
        ensures
            final(ctx).ptr == old(ctx).ptr,
            final(ctx).ctx.state() == old(ctx).ctx.state(),
            match loaded {
                Err(text) => {
                    &&& r matches Err(ErrModuleFromFile::ReadFile(t))
                    &&& t == text
                    &&& final(ctx).ctx.log() == old(ctx).ctx.log()
                },
                Ok(reply) => if reply.status == 0 {
                    &&& r == Ok::<Module, ErrModuleFromFile>(
                        Module { ptr: reply.module, buf: None },
                    )
                    &&& final(ctx).ctx.log() == old(ctx).ctx.log()
                } else {
                    &&& r matches Err(ErrModuleFromFile::CreateModule(d))
                    &&& d@ == drained(old(ctx).ctx.log()).0
                    &&& final(ctx).ctx.log() == drained(old(ctx).ctx.log()).1
                },
            },
    {
        let reply = match loaded {
            Ok(reply) => reply,
            Err(text) => {
                return Err(ErrModuleFromFile::ReadFile(text));
            },
        };
        let m = match ctx.new_module_from_buf(reply.status, reply.module) {
            Ok(m) => m,
            Err(diag) => {
                return Err(ErrModuleFromFile::CreateModule(diag));
            },
        };
        Ok(m)
    }

    /// A lazily created module with the buffer that it reads from.
    pub fn from_lazy_ref(ptr: usize, buf: MemoryBuffer) -> (m: Self)
        ensures
            m == (Module { ptr: ptr, buf: Some(buf) }),
            m.wf() <==> ptr != crate::NULL_HANDLE && buf.wf(),
    {
        Module { ptr: ptr, buf: Some(buf) }
    }

    /// The module for the handle that the foreign library made for a name.
    /// It owns no buffer.
    pub fn from_name(raw: usize) -> (m: Self)
        ensures
            m == (Module { ptr: raw, buf: None }),
            m.wf() <==> raw != crate::NULL_HANDLE,
    {
        Module { ptr: raw, buf: None }
    }

    /// The result of verifying the module, from what the foreign verifier
    /// gave. A zero status is success, and so is a missing message; anything
    /// else is a failure, told by the verifier's own message.
    pub fn verify(&self, status: i32, msg: usize) -> (r: Result<(), Message>)
        ensures
            r == verify_outcome(status, msg),
    {
        if status == 0 || msg == crate::NULL_HANDLE {
            Ok(())
        } else {
            Err(Message::from(msg))
        }
    }

    /// Set the identifier of the module to `name`: the request that does so,
    /// for this module, with the UTF-8 bytes of the name.
    pub fn set_identifier<'a>(&self, name: &'a str) -> (r: IdentifierRequest<'a>)
        ensures
            r.module == self.ptr,
            r.name@ == name.spec_bytes(),
    {
        IdentifierRequest { module: self.ptr, name: name.as_bytes() }
    }

    /// The buffer that the foreign library serialized the module into, from
    /// the handle that it gave. The buffer is owned by whoever holds it.
    pub fn as_buffer(&self, raw: usize) -> (b: MemoryBuffer)
        ensures
            b.ptr == raw,
            b.wf() <==> raw != crate::NULL_HANDLE,
    {
        MemoryBuffer::from(raw)
    }

    /// The text that the foreign library printed the module as, from the
    /// handle that it gave. The message is owned by whoever holds it.
    pub fn as_message(&self, raw: usize) -> (m: Message)
        ensures
            m.ptr == raw,
            m.wf() <==> raw != crate::NULL_HANDLE,
    {
        Message::from(raw)
    }

    /// Gives the module up: what is left of it are the calls that release
    /// what it owned, in the order in which they are to be made. The module
    /// goes first; the buffer that it may read from goes after it.
    pub fn release(self) -> (calls: Vec<Disposal>)
        ensures
            calls@ == module_disposals(self),
    {
        let mut calls: Vec<Disposal> = Vec::new();
        calls.push(Disposal::Module(self.ptr));
        match self.buf {
            Some(b) => {
                calls.push(b.release());
            },
            None => {},
        }
        calls
    }

    /// The identifier of the module, from the bytes of the name in the
    /// length that the foreign library gave: decoded, with each invalid
    /// sequence replaced. A NUL among the bytes does not end the name.
    pub fn identifier(&self, name: &[u8]) -> (id: String)
        ensures
            id@ == lossy_utf8(name@),
            valid_utf8(name@) ==> id@ == decode_utf8(name@),
    {
        decode_lossy(name)
    }
}

/// An identifier is read back as it was set: the bytes that `set_identifier`
/// sends for a name are valid UTF-8, so `identifier` decodes them without
/// loss, and what it decodes is the name.
pub proof fn lemma_identifier_round_trip(name: Seq<char>)
    ensures
        valid_utf8(encode_utf8(name)),
        decode_utf8(encode_utf8(name)) == name,
{
    encode_utf8_valid_utf8(name);
    encode_utf8_decode_utf8(name);
}

} // verus!
