use objgen::builder::FunctionBuilder;
use objgen::ir::Inst;
use objgen::types::{BlockId, CallConv, CodegenError, IrSignature, IrType, Variable};

fn int_sig(params: usize, returns: usize) -> IrSignature {
    IrSignature {
        params: vec![IrType::I64; params],
        returns: vec![IrType::I64; returns],
        call_conv: CallConv::SystemV,
    }
}

/// A two-predecessor diamond where `v` is defined differently in each arm:
/// the read in the join block must resolve to a fresh block parameter wired
/// from both predecessor branches, not to either arm's value directly.
#[test]
fn diamond_resolves_to_block_param() {
    let mut b = FunctionBuilder::new(int_sig(1, 1));
    let entry = b.create_block();
    let then_blk = b.create_block();
    let else_blk = b.create_block();
    let join = b.create_block();

    b.switch_to_block(entry).unwrap();
    let cond = b.append_block_param(entry, IrType::I64).unwrap();
    let v = Variable(0);
    b.declare_var(v, IrType::I64);
    b.ins_branch(cond, then_blk, vec![], else_blk, vec![]);

    b.switch_to_block(then_blk).unwrap();
    let c1 = b.ins_iconst(IrType::I64, 1);
    b.def_var(v, c1).unwrap();
    b.ins_jump(join, vec![]);

    b.switch_to_block(else_blk).unwrap();
    let c2 = b.ins_iconst(IrType::I64, 2);
    b.def_var(v, c2).unwrap();
    b.ins_jump(join, vec![]);

    b.switch_to_block(join).unwrap();
    let merged = b.use_var(v).unwrap();
    assert_ne!(merged, c1);
    assert_ne!(merged, c2);
    b.ins_return(vec![merged]);

    b.seal_all_blocks();
    let body = b.finalize().expect("fully sealed, terminated diamond finalizes");

    // the join block gained one parameter carrying the merged value
    assert_eq!(body.blocks[join.0].params.len(), 1);
    assert_eq!(body.blocks[join.0].params[0].0, merged);
    assert_eq!(body.blocks[join.0].params[0].1, IrType::I64);
    // each predecessor branch was wired with its own arm's value
    match &body.blocks[then_blk.0].insts[1] {
        Inst::Jump { target, args } => {
            assert_eq!(target.0, join.0);
            assert_eq!(args.as_slice(), &[c1]);
        },
        other => panic!("then arm must end in a jump, found {:?}", other.is_terminator()),
    }
    match &body.blocks[else_blk.0].insts[1] {
        Inst::Jump { target, args } => {
            assert_eq!(target.0, join.0);
            assert_eq!(args.as_slice(), &[c2]);
        },
        _ => panic!("else arm must end in a jump"),
    }
    // and the return uses the merged parameter
    match &body.blocks[join.0].insts[0] {
        Inst::Return { args } => assert_eq!(args.as_slice(), &[merged]),
        _ => panic!("join block must end in a return"),
    }
}

/// Finalizing with any block unsealed fails with `UnsealedBlock`; sealing
/// everything first lets the same graph finalize.
#[test]
fn unsealed_block_rejected_sealed_accepted() {
    let build = |seal: bool| {
        let mut b = FunctionBuilder::new(int_sig(1, 1));
        let entry = b.create_block();
        let then_blk = b.create_block();
        let else_blk = b.create_block();
        let join = b.create_block();
        b.switch_to_block(entry).unwrap();
        let cond = b.append_block_param(entry, IrType::I64).unwrap();
        b.ins_branch(cond, then_blk, vec![], else_blk, vec![]);
        b.switch_to_block(then_blk).unwrap();
        let c1 = b.ins_iconst(IrType::I64, 1);
        b.ins_jump(join, vec![c1]);
        b.switch_to_block(else_blk).unwrap();
        let c2 = b.ins_iconst(IrType::I64, 2);
        b.ins_jump(join, vec![c2]);
        b.switch_to_block(join).unwrap();
        let p = b.append_block_param(join, IrType::I64).unwrap();
        b.ins_return(vec![p]);
        if seal {
            b.seal_all_blocks();
        }
        b.finalize()
    };
    assert_eq!(build(false).err(), Some(CodegenError::UnsealedBlock));
    assert!(build(true).is_ok());
}

/// A block whose last appended instruction is not a return or branch makes
/// `finalize` fail with `UnterminatedBlock`.
#[test]
fn unterminated_block_rejected() {
    let mut b = FunctionBuilder::new(int_sig(0, 0));
    let entry = b.create_block();
    b.switch_to_block(entry).unwrap();
    b.ins_iconst(IrType::I64, 7);
    b.seal_all_blocks();
    assert_eq!(b.finalize().err(), Some(CodegenError::UnterminatedBlock));
}

/// An empty block is also unterminated.
#[test]
fn empty_block_rejected() {
    let mut b = FunctionBuilder::new(int_sig(0, 0));
    let _ = b.create_block();
    b.seal_all_blocks();
    assert_eq!(b.finalize().err(), Some(CodegenError::UnterminatedBlock));
}

/// Switching to a block of another function fails with `InvalidBlock`.
#[test]
fn foreign_block_rejected() {
    let mut b = FunctionBuilder::new(int_sig(0, 0));
    assert_eq!(b.switch_to_block(BlockId(3)).err(), Some(CodegenError::InvalidBlock));
    assert_eq!(b.seal_block(BlockId(3)).err(), Some(CodegenError::InvalidBlock));
    assert_eq!(
        b.append_block_param(BlockId(3), IrType::I64).err(),
        Some(CodegenError::InvalidBlock)
    );
}

/// Using or defining a variable that was never declared fails with
/// `UndefinedVariable`; without a selected block it is `InvalidBlock`.
#[test]
fn variable_lifecycle_errors() {
    let mut b = FunctionBuilder::new(int_sig(0, 0));
    assert_eq!(b.use_var(Variable(0)).err(), Some(CodegenError::InvalidBlock));
    let entry = b.create_block();
    b.switch_to_block(entry).unwrap();
    assert_eq!(b.use_var(Variable(0)).err(), Some(CodegenError::UndefinedVariable));
    let c = b.ins_iconst(IrType::I64, 1);
    assert_eq!(b.def_var(Variable(0), c).err(), Some(CodegenError::UndefinedVariable));
}

/// A read on a path no definition reaches fails at finalization.
#[test]
fn unreachable_read_rejected() {
    let mut b = FunctionBuilder::new(int_sig(0, 0));
    let entry = b.create_block();
    b.switch_to_block(entry).unwrap();
    b.declare_var(Variable(0), IrType::I64);
    let _ = b.use_var(Variable(0)).unwrap();
    b.ins_return(vec![]);
    b.seal_all_blocks();
    assert_eq!(b.finalize().err(), Some(CodegenError::UndefinedVariable));
}

/// Reading a variable twice in one block yields the same value.
#[test]
fn variable_reads_are_memoized() {
    let mut b = FunctionBuilder::new(int_sig(0, 0));
    let entry = b.create_block();
    b.switch_to_block(entry).unwrap();
    b.declare_var(Variable(0), IrType::I64);
    let c = b.ins_iconst(IrType::I64, 5);
    b.def_var(Variable(0), c).unwrap();
    let r1 = b.use_var(Variable(0)).unwrap();
    let r2 = b.use_var(Variable(0)).unwrap();
    assert_eq!(r1, r2);
    assert_eq!(r1, c);
}

/// Entry-block parameters must match the signature's parameters positionally.
#[test]
fn entry_parameter_mismatch_rejected() {
    let mut b = FunctionBuilder::new(int_sig(1, 0));
    let entry = b.create_block();
    b.switch_to_block(entry).unwrap();
    b.ins_return(vec![]);
    b.seal_all_blocks();
    assert_eq!(b.finalize().err(), Some(CodegenError::TypeMismatch));
}

/// Return values must match the signature's return types.
#[test]
fn return_arity_mismatch_rejected() {
    let mut b = FunctionBuilder::new(int_sig(0, 1));
    let entry = b.create_block();
    b.switch_to_block(entry).unwrap();
    b.ins_return(vec![]);
    b.seal_all_blocks();
    assert_eq!(b.finalize().err(), Some(CodegenError::TypeMismatch));
}
