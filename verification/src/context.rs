//! The context: the root that modules and metadata are made from, and the
//! owner of its diagnostic log.

use vstd::prelude::*;
use vstd::string::StringSliceAdditionalSpecFns;

use crate::diagnostic::{
    drained, message_disposals, register, BridgeState, Diagnostic, DiagnosticHandlerCtx,
};
use crate::module::Module;
use crate::utils::c_uint_len;
use crate::value::metadata::{MetadataString, NamedMetadata, ResolvedNamedMetadata};
use crate::Disposal;

verus! {

/// A context of the foreign library together with the log that its
/// diagnostics go to.
#[derive(Debug)]
pub struct Context {
    pub ptr: usize,
    pub ctx: DiagnosticHandlerCtx,
}

/// What the foreign library is handed to intern a text as a metadata string:
/// the text by its bytes, and their number as the foreign call takes it, in
/// 32 bits. The foreign library copies the bytes.
#[derive(Debug)]
pub struct InternRequest<'a> {
    pub context: usize,
    pub text: &'a [u8],
    pub len: u32,
}

impl Context {
    /// Whether the context stands for an object of the foreign library.
    pub open spec fn wf(&self) -> bool {
        self.ptr != crate::NULL_HANDLE
    }

    /// The context for a handle that the foreign library has just allocated,
    /// with an empty log that is bound to it.
    pub fn new(ptr: usize) -> (r: Self)
        ensures
            r.ptr == ptr,
            r.wf() <==> ptr != crate::NULL_HANDLE,
            r.ctx.log() == Seq::<Diagnostic>::empty(),
            r.ctx.state() == BridgeState::Registered,
    {
        let mut r = Context { ptr: ptr, ctx: DiagnosticHandlerCtx::new() };
        r.register_diagnostic_handler();
        r
    }

    /// A context for the handle of the foreign library's shared default
    /// context, with an empty log of its own that is bound to it. Every such
    /// value binds the one callback slot of that handle anew, so only the
    /// latest receives what is reported.
    pub fn get_global(ptr: usize) -> (r: Self)
        ensures
            r.ptr == ptr,
            r.wf() <==> ptr != crate::NULL_HANDLE,
            r.ctx.log() == Seq::<Diagnostic>::empty(),
            r.ctx.state() == BridgeState::Registered,
    {
        let mut r = Context { ptr: ptr, ctx: DiagnosticHandlerCtx::new() };
        r.register_diagnostic_handler();
        r
    }

    /// Gives the context up: what is left of it are the calls that release
    /// what it owned, in the order in which they are to be made. The context
    /// goes first, then the messages of the diagnostics that nobody drained.
    pub fn release(self) -> (calls: Vec<Disposal>)
        ensures
            calls@ == seq![Disposal::Context(self.ptr)] + message_disposals(self.ctx.log()),
    {
        let mut calls: Vec<Disposal> = Vec::new();
        calls.push(Disposal::Context(self.ptr));
        let mut rest = self.ctx.release();
        calls.append(&mut rest);
        calls
    }

    fn register_diagnostic_handler(&mut self)
        ensures
            final(self).ptr == old(self).ptr,
            final(self).ctx.log() == old(self).ctx.log(),
            final(self).ctx.state() == BridgeState::Registered,
    {
        register(self);
    }

    /// The module for the handle that the foreign library made in this
    /// context. It owns no buffer.
    pub fn new_module(&self, raw_m: usize) -> (m: Module)
        ensures
            m == (Module { ptr: raw_m, buf: None }),
            m.wf() <==> raw_m != crate::NULL_HANDLE,
    {
        Module::from(raw_m)
    }

    /// The result of parsing a buffer in this context. A zero status gives
    /// the module and leaves the log as it is. Any other status gives every
    /// diagnostic that waits in the log, oldest first, and empties the log.
    pub fn new_module_from_buf(&mut self, status: i32, module: usize) -> (r: Result<
        Module,
        Vec<Diagnostic>,
    >)
        ensures
            final(self).ptr == old(self).ptr,
            final(self).ctx.state() == old(self).ctx.state(),
            status == 0 ==> r == Ok::<Module, Vec<Diagnostic>>(Module { ptr: module, buf: None })
                && final(self).ctx.log() == old(self).ctx.log(),
            status != 0 ==> (r matches Err(d) && d@ == drained(old(self).ctx.log()).0)
                && final(self).ctx.log() == drained(old(self).ctx.log()).1,
    {
        if status == 0 {
            Ok(Module::from(module))
        } else {
            Err(self.ctx.drain())
        }
    }

    /// The resolved node for the handle that the foreign library gave when
    /// asked to fold the nodes of a named metadata into one: none where it
    /// gave the null handle.
    pub fn resolve_named_metadata(&self, nmd: &NamedMetadata, folded: usize) -> (r: Option<
        ResolvedNamedMetadata,
    >)
        ensures
            r == (if folded == crate::NULL_HANDLE {
                None
            } else {
                Some(ResolvedNamedMetadata { ptr: folded })
            }),
            r matches Some(node) ==> node.wf(),
    {
        if folded == crate::NULL_HANDLE {
            None
        } else {
            Some(ResolvedNamedMetadata::from(folded))
        }
    }

    /// The request that interns `name` in this context.
    pub fn metadata_string_request<'a>(&self, name: &'a str) -> (r: InternRequest<'a>)
        ensures
            r.context == self.ptr,
            r.text@ == name.spec_bytes(),
            r.len == name.spec_bytes().len() as u32,
            name.spec_bytes().len() <= u32::MAX ==> r.len == name.spec_bytes().len(),
    {
        let text = name.as_bytes();
        InternRequest { context: self.ptr, text: text, len: c_uint_len(text.len()) }
    }

    /// The metadata string for the handle that the foreign library gave when
    /// asked to intern a text: none where it gave the null handle.
    pub fn metadata_string(&self, interned: usize) -> (r: Option<MetadataString>)
        ensures
            r == (if interned == crate::NULL_HANDLE {
                None
            } else {
                Some(MetadataString { ptr: interned })
            }),
            r matches Some(string) ==> string.wf(),
    {
        if interned == crate::NULL_HANDLE {
            None
        } else {
            Some(MetadataString::from(interned))
        }
    }
}

} // verus!
