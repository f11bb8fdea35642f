use rellvm::context::Context;
use rellvm::value::basic_block::{BasicBlock, BasicBlockIterator, EntryBlock};
use rellvm::value::chain::step;
use rellvm::value::function::Function;
use rellvm::value::metadata::{
    get_operands, operand_request, Metadata, MetadataString, NamedMetadata, NamedMetadataNode,
    Operand, Operand2, Raw, ResolvedNamedMetadata,
};
use rellvm::value::parameter::{Parameter, ParameterIterator};
use rellvm::value::wrap_handles;
use rellvm::PtrTrait;

fn successor(chain: &[usize], cur: usize) -> usize {
    let at = chain.iter().position(|h| *h == cur).unwrap();
    if at + 1 < chain.len() {
        chain[at + 1]
    } else {
        0
    }
}

#[test]
fn value_wrappers_convert_to_and_from_their_handle() {
    assert_eq!(usize::from(Function::from(0x10)), 0x10);
    assert_eq!(usize::from(Parameter::from(0x11)), 0x11);
    assert_eq!(usize::from(BasicBlock::from(0x12)), 0x12);
    assert_eq!(usize::from(EntryBlock::from(0x13)), 0x13);
    assert_eq!(usize::from(Raw::from(0x14)), 0x14);
    assert_eq!(usize::from(NamedMetadataNode::from(0x15)), 0x15);
    assert_eq!(usize::from(ResolvedNamedMetadata::from(0x16)), 0x16);
    assert_eq!(usize::from(Operand::from(0x17)), 0x17);
    assert_eq!(usize::from(Metadata::from(0x18)), 0x18);
    assert_eq!(usize::from(Operand2::from(0x19)), 0x19);
    assert_eq!(usize::from(MetadataString::from(0x1a)), 0x1a);
    assert_eq!(Function::from(0).ptr, 0);
}

#[test]
fn step_yields_the_cursor_and_moves_on() {
    let mut cursor: usize = 0x10;
    assert_eq!(step(&mut cursor, 0x20), Some(0x10));
    assert_eq!(cursor, 0x20);
    assert_eq!(step(&mut cursor, 0), Some(0x20));
    assert_eq!(cursor, 0);
    assert_eq!(step(&mut cursor, 0x30), None);
    assert_eq!(cursor, 0);
}

#[test]
fn parameter_walk_yields_each_parameter_once_in_order() {
    let chain: [usize; 3] = [0x100, 0x200, 0x300];
    let f = Function::from(0x10);
    let mut it = ParameterIterator::from(&f, chain[0]);
    let mut seen: Vec<usize> = Vec::new();
    while let Some(cur) = it.pending() {
        let next = successor(&chain, cur);
        match it.next(next) {
            Some(p) => seen.push(p.ptr),
            None => panic!("a pending item is yielded"),
        }
    }
    assert_eq!(seen, vec![0x100, 0x200, 0x300]);
}

#[test]
fn parameter_walk_stays_exhausted() {
    let f = Function::from(0x10);
    let mut it = ParameterIterator::from(&f, 0x100);
    assert_eq!(it.pending(), Some(0x100));
    assert!(it.next(0).is_some());
    assert_eq!(it.pending(), None);
    assert!(it.next(0).is_none());
    assert!(it.next(0x100).is_none());
    assert!(it.next(0x200).is_none());
    assert_eq!(it.pending(), None);
}

#[test]
fn walk_over_an_empty_chain_yields_nothing() {
    let f = Function::from(0x10);
    let mut params = ParameterIterator::from(&f, 0);
    assert_eq!(params.pending(), None);
    assert!(params.next(0x100).is_none());
    let mut blocks = BasicBlockIterator::from(&f, 0);
    assert_eq!(blocks.pending(), None);
    assert!(blocks.next(0x100).is_none());
}

#[test]
fn basic_block_walk_yields_each_block_once_in_order() {
    let chain: [usize; 2] = [0x500, 0x400];
    let f = Function::from(0x10);
    let mut it = f.basic_blocks(chain[0]);
    let mut seen: Vec<usize> = Vec::new();
    while let Some(cur) = it.pending() {
        let next = successor(&chain, cur);
        match it.next(next) {
            Some(b) => seen.push(b.ptr),
            None => panic!("a pending item is yielded"),
        }
    }
    assert_eq!(seen, vec![0x500, 0x400]);
    assert!(it.next(0x500).is_none());
}

#[test]
fn parameters_keep_the_order_of_the_indices() {
    let f = Function::from(0x10);
    let params = f.parameters(&[0x300, 0x100, 0x200]);
    assert_eq!(params.len(), 3);
    assert_eq!(params[0].ptr, 0x300);
    assert_eq!(params[1].ptr, 0x100);
    assert_eq!(params[2].ptr, 0x200);
    assert!(f.parameters(&[]).is_empty());
}

#[test]
fn entry_block_wraps_the_given_handle() {
    let f = Function::from(0x10);
    assert_eq!(f.entry_block(0x500).ptr, 0x500);
}

#[test]
fn personality_fn_is_absent_for_the_null_handle() {
    let f = Function::from(0x10);
    assert!(f.personality_fn(0).is_none());
    match f.personality_fn(0x20) {
        Some(p) => assert_eq!(p.ptr, 0x20),
        None => panic!("a handle that is present is a function"),
    }
}

#[test]
fn has_personality_fn_reads_the_flag() {
    let f = Function::from(0x10);
    assert!(!f.has_personality_fn(0));
    assert!(f.has_personality_fn(1));
    assert!(f.has_personality_fn(-1));
}

#[test]
fn node_without_operands_has_none() {
    let node = ResolvedNamedMetadata::from(0x16);
    assert!(node.get_operands(0, &[]).is_none());
    assert!(node.get_operands(0, &[0x1, 0x2]).is_none());
    let inner = Metadata::from(0x18);
    assert!(inner.get_operands(0, &[]).is_none());
    assert!(operand_request(&node, 0).is_none());
}

#[test]
fn node_with_operands_gives_them_in_order() {
    let node = ResolvedNamedMetadata::from(0x16);
    let ops = node.get_operands(3, &[0x30, 0x10, 0x20]).unwrap();
    assert_eq!(ops.len(), 3);
    assert_eq!(ops[0].ptr, 0x30);
    assert_eq!(ops[1].ptr, 0x10);
    assert_eq!(ops[2].ptr, 0x20);

    let inner = ops[0].as_node();
    assert_eq!(inner.ptr, 0x30);
    let nested = inner.get_operands(1, &[0x40]).unwrap();
    assert_eq!(nested.len(), 1);
    assert_eq!(nested[0].ptr, 0x40);
}

#[test]
fn generic_extraction_serves_any_wrapper() {
    let raws: Vec<Raw> = get_operands::<Raw>(2, &[0x1, 0x2]).unwrap();
    assert_eq!(raws.len(), 2);
    assert_eq!(raws[0].ptr, 0x1);
    assert_eq!(raws[1].ptr, 0x2);
    assert!(get_operands::<Raw>(0, &[]).is_none());
    let wrapped: Vec<Operand2> = wrap_handles::<Operand2>(&[0x7, 0x8, 0x9]);
    assert_eq!(wrapped.len(), 3);
    assert_eq!(wrapped[2].ptr, 0x9);
}

#[test]
fn operand_request_sizes_the_buffer_to_the_count() {
    let node = Metadata::from(0x18);
    let req = operand_request(&node, 4).unwrap();
    assert_eq!(req.node, 0x18);
    assert_eq!(req.buffer, vec![0usize, 0, 0, 0]);
    let one = operand_request(&node, 1).unwrap();
    assert_eq!(one.buffer.len(), 1);
}

#[test]
fn fold_request_lists_the_nodes_in_order() {
    let nmd = NamedMetadata {
        nodes: vec![
            NamedMetadataNode::from(0x30),
            NamedMetadataNode::from(0x10),
            NamedMetadataNode::from(0x20),
        ],
    };
    let req = nmd.fold_request();
    assert_eq!(req.nodes, vec![0x30usize, 0x10, 0x20]);
    assert_eq!(req.count, 3);
    let empty = NamedMetadata { nodes: Vec::new() };
    let none = empty.fold_request();
    assert!(none.nodes.is_empty());
    assert_eq!(none.count, 0);
}

#[test]
fn resolve_named_metadata_is_absent_for_the_null_handle() {
    let ctx = Context::new(0x6000);
    let nmd = NamedMetadata { nodes: vec![NamedMetadataNode::from(0x30)] };
    assert!(ctx.resolve_named_metadata(&nmd, 0).is_none());
    match ctx.resolve_named_metadata(&nmd, 0x16) {
        Some(r) => assert_eq!(r.ptr, 0x16),
        None => panic!("a handle that is present is a node"),
    }
}

#[test]
fn metadata_string_is_absent_for_the_null_handle() {
    let ctx = Context::new(0x6000);
    assert!(ctx.metadata_string(0).is_none());
    match ctx.metadata_string(0x1a) {
        Some(s) => assert_eq!(s.ptr, 0x1a),
        None => panic!("a handle that is present is a string"),
    }
}

#[test]
fn metadata_string_text_is_absent_for_the_null_address() {
    let s = MetadataString::from(0x1a);
    assert_eq!(s.as_string(0, b"ignored"), None);
    assert_eq!(s.as_string(0, b""), None);
}

#[test]
fn metadata_string_text_keeps_the_given_bytes() {
    let s = MetadataString::from(0x1a);
    assert_eq!(s.as_string(0x9000, b"test\0"), Some(String::from("test\0")));
    assert_eq!(s.as_string(0x9000, b""), Some(String::new()));
    assert_eq!(s.as_string(0x9000, &[0xf0, 0x9f]), Some(String::from("\u{fffd}")));
}

#[test]
fn ptr_trait_reads_and_writes_the_handle() {
    let mut node = ResolvedNamedMetadata::from(0x16);
    assert_eq!(*node.as_ptr(), 0x16);
    *node.as_mut_ptr() = 0x26;
    assert_eq!(node.ptr, 0x26);
    let mut inner = Metadata::from(0x18);
    assert_eq!(*inner.as_ptr(), 0x18);
    *inner.as_mut_ptr() = 0x28;
    assert_eq!(*inner.as_ptr(), 0x28);
}
