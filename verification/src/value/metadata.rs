//! Metadata nodes, their operands and metadata strings.

use vstd::prelude::*;
use vstd::std_specs::convert::{FromSpec, FromSpecImpl};
use vstd::utf8::{decode_utf8, valid_utf8};

use crate::utils::{decode_lossy, lossy_utf8};
use crate::value::wrap_handles;
use crate::PtrTrait;

verus! {

/// An individual value of the foreign library.
#[derive(Debug)]
pub struct Raw {
    pub ptr: usize,
}

impl From<usize> for Raw {
    fn from(ptr: usize) -> (r: Self) {
        Raw { ptr: ptr }
    }
}

impl FromSpecImpl<usize> for Raw {
    open spec fn obeys_from_spec() -> bool {
        true
    }

    open spec fn from_spec(ptr: usize) -> Self {
        Raw { ptr: ptr }
    }
}

impl From<Raw> for usize {
    fn from(wrap: Raw) -> (r: usize) {
        wrap.ptr
    }
}

impl FromSpecImpl<Raw> for usize {
    open spec fn obeys_from_spec() -> bool {
        true
    }

    open spec fn from_spec(wrap: Raw) -> usize {
        wrap.ptr
    }
}

/// A node inside a named metadata.
#[derive(Debug)]
pub struct NamedMetadataNode {
    pub ptr: usize,
}

impl From<usize> for NamedMetadataNode {
    fn from(ptr: usize) -> (r: Self) {
        NamedMetadataNode { ptr: ptr }
    }
}

impl FromSpecImpl<usize> for NamedMetadataNode {
    open spec fn obeys_from_spec() -> bool {
        true
    }

    open spec fn from_spec(ptr: usize) -> Self {
        NamedMetadataNode { ptr: ptr }
    }
}

impl From<NamedMetadataNode> for usize {
    fn from(wrap: NamedMetadataNode) -> (r: usize) {
        wrap.ptr
    }
}

impl FromSpecImpl<NamedMetadataNode> for usize {
    open spec fn obeys_from_spec() -> bool {
        true
    }

    open spec fn from_spec(wrap: NamedMetadataNode) -> usize {
        wrap.ptr
    }
}

/// The nodes that a named metadata consists of, as a module lists them. A
/// context folds them into one resolved node.
#[derive(Debug)]
pub struct NamedMetadata {
    pub nodes: Vec<NamedMetadataNode>,
}

/// The handles of the nodes, in order.
pub open spec fn node_handles(nodes: Seq<NamedMetadataNode>) -> Seq<usize> {
    nodes.map_values(|n: NamedMetadataNode| n.ptr)
}

/// What the foreign library is handed to fold the nodes of a named metadata
/// into one.
#[derive(Debug)]
pub struct FoldRequest {
    pub nodes: Vec<usize>,
    pub count: u32,
}

impl NamedMetadata {
    /// The request that folds these nodes: their handles in order, and their
    /// number as the foreign call takes it, in 32 bits.
    pub fn fold_request(&self) -> (r: FoldRequest)
        ensures
            r.nodes@ == node_handles(self.nodes@),
            r.count == self.nodes@.len() as u32,
            self.nodes@.len() <= u32::MAX ==> r.count == self.nodes@.len(),
    {
        let mut handles: Vec<usize> = Vec::new();
        let mut i: usize = 0;
        while i < self.nodes.len()
            invariant
                i <= self.nodes@.len(),
                handles@ == node_handles(self.nodes@.take(i as int)),
            decreases self.nodes@.len() - i,
        {
            handles.push(self.nodes[i].ptr);
            assert(node_handles(self.nodes@.take(i + 1)) =~= node_handles(
                self.nodes@.take(i as int),
            ).push(self.nodes@[i as int].ptr));
            i += 1;
        }
        assert(self.nodes@.take(i as int) =~= self.nodes@);
        let count: u32 = crate::utils::c_uint_len(self.nodes.len());
        FoldRequest { nodes: handles, count: count }
    }
}

/// A named metadata whose nodes a context has folded into one node.
#[derive(Debug)]
pub struct ResolvedNamedMetadata {
    pub ptr: usize,
}

impl From<usize> for ResolvedNamedMetadata {
    fn from(ptr: usize) -> (r: Self) {
        ResolvedNamedMetadata { ptr: ptr }
    }
}

impl FromSpecImpl<usize> for ResolvedNamedMetadata {
    open spec fn obeys_from_spec() -> bool {
        true
    }

    open spec fn from_spec(ptr: usize) -> Self {
        ResolvedNamedMetadata { ptr: ptr }
    }
}

impl From<ResolvedNamedMetadata> for usize {
    fn from(wrap: ResolvedNamedMetadata) -> (r: usize) {
        wrap.ptr
    }
}

impl FromSpecImpl<ResolvedNamedMetadata> for usize {
    open spec fn obeys_from_spec() -> bool {
        true
    }

    open spec fn from_spec(wrap: ResolvedNamedMetadata) -> usize {
        wrap.ptr
    }
}

impl PtrTrait<usize> for ResolvedNamedMetadata {
    open spec fn handle(&self) -> usize {
        self.ptr
    }

    fn as_ptr(&self) -> (r: &usize) {
        &self.ptr
    }

    fn as_mut_ptr(&mut self) -> (r: &mut usize) {
        &mut self.ptr
    }
}

impl ResolvedNamedMetadata {
    /// Whether the handle is present.
    pub open spec fn wf(&self) -> bool {
        self.ptr != crate::NULL_HANDLE
    }
}

impl ResolvedNamedMetadata {
    /// Obtain the operands, from the count that the foreign library gave for
    /// this node and the buffer that it filled: none for a count of zero,
    /// else one operand for each slot, in the order of the buffer.
    pub fn get_operands(&self, count: u32, filled: &[usize]) -> (r: Option<Vec<Operand>>)
        requires
            count != 0 ==> filled@.len() == count,
        ensures
            count == 0 <==> r is None,
            r matches Some(ops) ==> ops@.len() == count && forall|i: int|
                0 <= i < count ==> #[trigger] ops@[i].ptr == filled@[i],
    {
        get_operands::<Operand>(count, filled)
    }
}

/// An operand of a resolved named metadata. Each is a node that wraps values.
#[derive(Debug)]
pub struct Operand {
    pub ptr: usize,
}

impl From<usize> for Operand {
    fn from(ptr: usize) -> (r: Self) {
        Operand { ptr: ptr }
    }
}

impl FromSpecImpl<usize> for Operand {
    open spec fn obeys_from_spec() -> bool {
        true
    }

    open spec fn from_spec(ptr: usize) -> Self {
        Operand { ptr: ptr }
    }
}

impl From<Operand> for usize {
    fn from(wrap: Operand) -> (r: usize) {
        wrap.ptr
    }
}

impl FromSpecImpl<Operand> for usize {
    open spec fn obeys_from_spec() -> bool {
        true
    }

    open spec fn from_spec(wrap: Operand) -> usize {
        wrap.ptr
    }
}

impl Operand {
    /// The operand as the node that it is.
    pub fn as_node(&self) -> (m: Metadata)
        ensures
            m.ptr == self.ptr,
    {
        Metadata::from(self.ptr)
    }
}

/// An unnamed metadata node.
#[derive(Debug)]
pub struct Metadata {
    pub ptr: usize,
}

impl From<usize> for Metadata {
    fn from(ptr: usize) -> (r: Self) {
        Metadata { ptr: ptr }
    }
}

impl FromSpecImpl<usize> for Metadata {
    open spec fn obeys_from_spec() -> bool {
        true
    }

    open spec fn from_spec(ptr: usize) -> Self {
        Metadata { ptr: ptr }
    }
}

impl From<Metadata> for usize {
    fn from(wrap: Metadata) -> (r: usize) {
        wrap.ptr
    }
}

impl FromSpecImpl<Metadata> for usize {
    open spec fn obeys_from_spec() -> bool {
        true
    }

    open spec fn from_spec(wrap: Metadata) -> usize {
        wrap.ptr
    }
}

impl PtrTrait<usize> for Metadata {
    open spec fn handle(&self) -> usize {
        self.ptr
    }

    fn as_ptr(&self) -> (r: &usize) {
        &self.ptr
    }

    fn as_mut_ptr(&mut self) -> (r: &mut usize) {
        &mut self.ptr
    }
}

impl Metadata {
    /// Obtain the operands, from the count that the foreign library gave for
    /// this node and the buffer that it filled: none for a count of zero,
    /// else one operand for each slot, in the order of the buffer.
    pub fn get_operands(&self, count: u32, filled: &[usize]) -> (r: Option<Vec<Operand2>>)
        requires
            count != 0 ==> filled@.len() == count,
        ensures
            count == 0 <==> r is None,
            r matches Some(ops) ==> ops@.len() == count && forall|i: int|
                0 <= i < count ==> #[trigger] ops@[i].ptr == filled@[i],
    {
        get_operands::<Operand2>(count, filled)
    }
}

/// An operand of an unnamed metadata node.
#[derive(Debug)]
pub struct Operand2 {
    pub ptr: usize,
}

impl From<usize> for Operand2 {
    fn from(ptr: usize) -> (r: Self) {
        Operand2 { ptr: ptr }
    }
}

impl FromSpecImpl<usize> for Operand2 {
    open spec fn obeys_from_spec() -> bool {
        true
    }

    open spec fn from_spec(ptr: usize) -> Self {
        Operand2 { ptr: ptr }
    }
}

impl From<Operand2> for usize {
    fn from(wrap: Operand2) -> (r: usize) {
        wrap.ptr
    }
}

impl FromSpecImpl<Operand2> for usize {
    open spec fn obeys_from_spec() -> bool {
        true
    }

    open spec fn from_spec(wrap: Operand2) -> usize {
        wrap.ptr
    }
}

/// A string that a context has interned as metadata.
#[derive(Debug)]
pub struct MetadataString {
    pub ptr: usize,
}

impl From<usize> for MetadataString {
    fn from(ptr: usize) -> (r: Self) {
        MetadataString { ptr: ptr }
    }
}

impl FromSpecImpl<usize> for MetadataString {
    open spec fn obeys_from_spec() -> bool {
        true
    }

    open spec fn from_spec(ptr: usize) -> Self {
        MetadataString { ptr: ptr }
    }
}

impl From<MetadataString> for usize {
    fn from(wrap: MetadataString) -> (r: usize) {
        wrap.ptr
    }
}

impl FromSpecImpl<MetadataString> for usize {
    open spec fn obeys_from_spec() -> bool {
        true
    }

    open spec fn from_spec(wrap: MetadataString) -> usize {
        wrap.ptr
    }
}

impl MetadataString {
    /// Whether the handle is present.
    pub open spec fn wf(&self) -> bool {
        self.ptr != crate::NULL_HANDLE
    }
}

impl MetadataString {
    /// The text of the metadata string, from the address that the foreign
    /// library gave and the bytes that stand there in the length it gave:
    /// none for the null address, else the bytes decoded, with each invalid
    /// sequence replaced.
    pub fn as_string(&self, raw: usize, content: &[u8]) -> (r: Option<String>)
        ensures
            raw == crate::NULL_HANDLE <==> r is None,
            r matches Some(text) ==> text@ == lossy_utf8(content@) && (valid_utf8(content@)
                ==> text@ == decode_utf8(content@)),
    {
        if raw == crate::NULL_HANDLE {
            return None;
        }
        Some(decode_lossy(content))
    }
}

/// What the foreign library is handed to write out the operands of a node.
#[derive(Debug)]
pub struct OperandRequest {
    pub node: usize,
    pub buffer: Vec<usize>,
}

/// The request for the operands of `node`, from the count that the foreign
/// library gave for it: none for a count of zero, else the node's handle and
/// a buffer of exactly `count` slots, each holding the null handle, for the
/// foreign library to fill.
pub fn operand_request<T: PtrTrait<usize>>(node: &T, count: u32) -> (r: Option<OperandRequest>)
    ensures
        count == 0 <==> r is None,
        r matches Some(req) ==> req.node == node.handle() && req.buffer@ == Seq::new(
            count as nat,
            |i: int| crate::NULL_HANDLE,
        ),
{
    if count == 0 {
        return None;
    }
    let mut buffer: Vec<usize> = Vec::new();
    let mut i: u32 = 0;
    while i < count
        invariant
            i <= count,
            buffer@ == Seq::new(i as nat, |k: int| crate::NULL_HANDLE),
        decreases count - i,
    {
        buffer.push(crate::NULL_HANDLE);
        assert(buffer@ =~= Seq::new((i + 1) as nat, |k: int| crate::NULL_HANDLE));
        i += 1;
    }
    Some(OperandRequest { node: *node.as_ptr(), buffer: buffer })
}

/// Obtain a node's operands as values of the type that is asked for, from the
/// count that the foreign library gave and the buffer that it filled: none
/// for a count of zero, else each slot converted, in the order of the buffer.
pub fn get_operands<U: From<usize>>(count: u32, filled: &[usize]) -> (r: Option<Vec<U>>)
    requires
        count != 0 ==> filled@.len() == count,
    ensures
        count == 0 <==> r is None,
        r matches Some(ops) ==> ops@.len() == count && (U::obeys_from_spec() ==> forall|i: int|
            0 <= i < count ==> #[trigger] ops@[i] == U::from_spec(filled@[i])),
{
    if count == 0 {
        return None;
    }
    Some(wrap_handles::<U>(filled))
}

} // verus!
