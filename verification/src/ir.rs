//! The finished intermediate representation of one function body: blocks of
//! instructions over explicit SSA values, with its well-formedness predicate.

use vstd::prelude::*;

use crate::types::{BlockId, DataRef, FuncRefId, IrSignature, IrType, ValueId};

verus! {

/// One instruction. Operands and results are SSA value handles.
#[allow(inconsistent_fields)]
pub enum Inst {
    /// Materialize an integer constant of the given type.
    Iconst { ty: IrType, imm: i64, result: ValueId },
    /// Call a previously referenced function. `result` is present exactly
    /// when the callee's signature has one return type.
    Call { func_ref: FuncRefId, args: Vec<ValueId>, result: Option<ValueId> },
    /// Resolve a referenced data object to a pointer-sized address.
    GlobalAddr { data_ref: DataRef, ty: IrType, result: ValueId },
    /// Return from the function with the given values.
    Return { args: Vec<ValueId> },
    /// Unconditional branch with block arguments.
    Jump { target: BlockId, args: Vec<ValueId> },
    /// Two-way conditional branch with block arguments on each edge.
    Branch {
        cond: ValueId,
        then_target: BlockId,
        then_args: Vec<ValueId>,
        else_target: BlockId,
        else_args: Vec<ValueId>,
    },
}

impl Inst {
    /// Whether this instruction ends a block. A call that falls through is
    /// not a terminator; return and branches are.
    pub open spec fn spec_is_terminator(self) -> bool {
        match self {
            Inst::Return { .. } => true,
            Inst::Jump { .. } => true,
            Inst::Branch { .. } => true,
            _ => false,
        }
    }

    /// Executable terminator test.
    pub fn is_terminator(&self) -> (r: bool)
        ensures
            r == self.spec_is_terminator(),
    {
        match self {
            Inst::Return { .. } => true,
            Inst::Jump { .. } => true,
            Inst::Branch { .. } => true,
            _ => false,
        }
    }
}

/// One block of a finished body: its parameter values with their types, and
/// its instructions.
pub struct BodyBlock {
    pub params: Vec<(ValueId, IrType)>,
    pub insts: Vec<Inst>,
}

/// A finished, variable-free function body, as produced by
/// `FunctionBuilder::finalize` and consumed by `Module::define_function`.
pub struct FuncBody {
    pub sig: IrSignature,
    pub blocks: Vec<BodyBlock>,
    /// Type of every SSA value, indexed by `ValueId`.
    pub values: Vec<IrType>,
    /// Referenced functions: the declared handle and its signature.
    pub func_refs: Vec<(crate::types::FuncId, IrSignature)>,
    /// Referenced data objects.
    pub data_refs: Vec<crate::types::DataId>,
}

/// The types of a block parameter list.
pub open spec fn param_types(params: Seq<(ValueId, IrType)>) -> Seq<IrType> {
    params.map_values(|p: (ValueId, IrType)| p.1)
}

/// An argument list matches an expected type list when the lengths agree and
/// every argument is a value of the expected type.
pub open spec fn args_match(values: Seq<IrType>, args: Seq<ValueId>, expected: Seq<IrType>) -> bool {
    &&& args.len() == expected.len()
    &&& forall|j: int|
        0 <= j < args.len() ==> (#[trigger] args[j]).0 < values.len() && values[args[j].0 as int]
            == expected[j]
}

/// Local well-formedness of one instruction against the body's tables.
pub open spec fn inst_wf(body: FuncBody, inst: Inst) -> bool {
    match inst {
        Inst::Iconst { ty, imm, result } => result.0 < body.values@.len() && body.values@[result.0 as int] == ty,
        Inst::Call { func_ref, args, result } => {
            &&& func_ref.0 < body.func_refs@.len()
            &&& args_match(body.values@, args@, body.func_refs@[func_ref.0 as int].1.params@)
            &&& match result {
                Option::None => body.func_refs@[func_ref.0 as int].1.returns@.len() == 0,
                Option::Some(rv) => body.func_refs@[func_ref.0 as int].1.returns@.len() == 1
                    && rv.0 < body.values@.len() && body.values@[rv.0 as int]
                    == body.func_refs@[func_ref.0 as int].1.returns@[0],
            }
        },
        Inst::GlobalAddr { data_ref, ty, result } => {
            &&& data_ref.0 < body.data_refs@.len()
            &&& result.0 < body.values@.len()
            &&& body.values@[result.0 as int] == ty
        },
        Inst::Return { args } => args_match(body.values@, args@, body.sig.returns@),
        Inst::Jump { target, args } => {
            &&& target.0 < body.blocks@.len()
            &&& args_match(body.values@, args@, param_types(body.blocks@[target.0 as int].params@))
        },
        Inst::Branch { cond, then_target, then_args, else_target, else_args } => {
            &&& cond.0 < body.values@.len()
            &&& then_target.0 < body.blocks@.len()
            &&& args_match(
                body.values@,
                then_args@,
                param_types(body.blocks@[then_target.0 as int].params@),
            )
            &&& else_target.0 < body.blocks@.len()
            &&& args_match(
                body.values@,
                else_args@,
                param_types(body.blocks@[else_target.0 as int].params@),
            )
        },
    }
}

/// Well-formedness of one block: every block parameter value is in range,
/// the block is non-empty, exactly its last instruction is a terminator, and
/// every instruction is locally well formed.
pub open spec fn block_wf(body: FuncBody, b: int) -> bool {
    let blk = body.blocks@[b];
    &&& forall|j: int|
        0 <= j < blk.params@.len() ==> (#[trigger] blk.params@[j]).0.0 < body.values@.len()
            && body.values@[blk.params@[j].0.0 as int] == blk.params@[j].1
    &&& blk.insts@.len() >= 1
    &&& blk.insts@[blk.insts@.len() - 1].spec_is_terminator()
    &&& forall|i: int|
        0 <= i < blk.insts@.len() - 1 ==> !(#[trigger] blk.insts@[i]).spec_is_terminator()
    &&& forall|i: int| 0 <= i < blk.insts@.len() ==> inst_wf(body, #[trigger] blk.insts@[i])
}

/// Well-formedness of a finished body: there is an entry block whose
/// parameters match the signature's parameter types positionally, and every
/// block is well formed.
pub open spec fn body_wf(body: FuncBody) -> bool {
    &&& body.blocks@.len() >= 1
    &&& param_types(body.blocks@[0].params@) == body.sig.params@
    &&& forall|b: int| 0 <= b < body.blocks@.len() ==> block_wf(body, b)
}

/// Checks that an argument list carries values of the expected types.
fn check_args(values: &Vec<IrType>, args: &Vec<ValueId>, expected: &Vec<IrType>) -> (r: bool)
    ensures
        r == args_match(values@, args@, expected@),
{
    if args.len() != expected.len() {
        return false;
    }
    let mut j: usize = 0;
    while j < args.len()
        invariant
            j <= args@.len(),
            args@.len() == expected@.len(),
            forall|k: int|
                0 <= k < j ==> (#[trigger] args@[k]).0 < values@.len() && values@[args@[k].0 as int]
                    == expected@[k],
        decreases args@.len() - j,
    {
        let a = args[j];
        if a.0 >= values.len() {
            return false;
        }
        if values[a.0] != expected[j] {
            return false;
        }
        j = j + 1;
    }
    true
}

/// Checks that an argument list matches a target block's parameter types.
fn check_args_params(values: &Vec<IrType>, args: &Vec<ValueId>, params: &Vec<(ValueId, IrType)>) -> (r:
    bool)
    ensures
        r == args_match(values@, args@, param_types(params@)),
{
    proof {
        assert(param_types(params@).len() == params@.len());
    }
    if args.len() != params.len() {
        return false;
    }
    let mut j: usize = 0;
    while j < args.len()
        invariant
            j <= args@.len(),
            args@.len() == params@.len(),
            forall|k: int|
                0 <= k < j ==> (#[trigger] args@[k]).0 < values@.len() && values@[args@[k].0 as int]
                    == param_types(params@)[k],
        decreases args@.len() - j,
    {
        let a = args[j];
        if a.0 >= values.len() {
            return false;
        }
        if values[a.0] != params[j].1 {
            proof {
                assert(param_types(params@)[j as int] == params@[j as int].1);
            }
            return false;
        }
        proof {
            assert(param_types(params@)[j as int] == params@[j as int].1);
        }
        j = j + 1;
    }
    true
}

/// Checks that every block parameter value is in range and carries its
/// recorded type.
fn check_params(values: &Vec<IrType>, params: &Vec<(ValueId, IrType)>) -> (r: bool)
    ensures
        r == (forall|j: int|
            0 <= j < params@.len() ==> (#[trigger] params@[j]).0.0 < values@.len()
                && values@[params@[j].0.0 as int] == params@[j].1),
{
    let mut j: usize = 0;
    while j < params.len()
        invariant
            j <= params@.len(),
            forall|k: int|
                0 <= k < j ==> (#[trigger] params@[k]).0.0 < values@.len() && values@[params@[
                    k].0.0 as int] == params@[k].1,
        decreases params@.len() - j,
    {
        let p = params[j];
        if p.0.0 >= values.len() {
            return false;
        }
        if values[p.0.0] != p.1 {
            return false;
        }
        j = j + 1;
    }
    true
}

/// Checks one instruction against the body's tables.
fn check_inst(body: &FuncBody, inst: &Inst) -> (r: bool)
    ensures
        r == inst_wf(*body, *inst),
{
    match inst {
        Inst::Iconst { ty, imm: _, result } => {
            result.0 < body.values.len() && body.values[result.0] == *ty
        },
        Inst::Call { func_ref, args, result } => {
            if func_ref.0 >= body.func_refs.len() {
                return false;
            }
            if !check_args(&body.values, args, &body.func_refs[func_ref.0].1.params) {
                return false;
            }
            match result {
                Option::None => body.func_refs[func_ref.0].1.returns.len() == 0,
                Option::Some(rv) => {
                    body.func_refs[func_ref.0].1.returns.len() == 1 && rv.0 < body.values.len()
                        && body.values[rv.0] == body.func_refs[func_ref.0].1.returns[0]
                },
            }
        },
        Inst::GlobalAddr { data_ref, ty, result } => {
            data_ref.0 < body.data_refs.len() && result.0 < body.values.len()
                && body.values[result.0] == *ty
        },
        Inst::Return { args } => check_args(&body.values, args, &body.sig.returns),
        Inst::Jump { target, args } => {
            if target.0 >= body.blocks.len() {
                return false;
            }
            check_args_params(&body.values, args, &body.blocks[target.0].params)
        },
        Inst::Branch { cond, then_target, then_args, else_target, else_args } => {
            if cond.0 >= body.values.len() {
                return false;
            }
            if then_target.0 >= body.blocks.len() {
                return false;
            }
            if !check_args_params(&body.values, then_args, &body.blocks[then_target.0].params) {
                return false;
            }
            if else_target.0 >= body.blocks.len() {
                return false;
            }
            check_args_params(&body.values, else_args, &body.blocks[else_target.0].params)
        },
    }
}

/// Checks a whole body for well-formedness; returns exactly `body_wf`.
pub fn check_body(body: &FuncBody) -> (r: bool)
    ensures
        r == body_wf(*body),
{
    if body.blocks.len() == 0 {
        return false;
    }
    // entry block parameters against the signature, positionally
    proof {
        assert(param_types(body.blocks@[0].params@).len() == body.blocks@[0].params@.len());
    }
    if body.blocks[0].params.len() != body.sig.params.len() {
        return false;
    }
    let mut j: usize = 0;
    while j < body.sig.params.len()
        invariant
            j <= body.sig.params@.len(),
            body.blocks@.len() >= 1,
            body.blocks@[0].params@.len() == body.sig.params@.len(),
            forall|k: int|
                0 <= k < j ==> param_types(body.blocks@[0].params@)[k] == body.sig.params@[k],
        decreases body.sig.params@.len() - j,
    {
        if body.blocks[0].params[j].1 != body.sig.params[j] {
            proof {
                assert(param_types(body.blocks@[0].params@)[j as int]
                    == body.blocks@[0].params@[j as int].1);
            }
            return false;
        }
        proof {
            assert(param_types(body.blocks@[0].params@)[j as int] == body.blocks@[0].params@[
                j as int].1);
        }
        j = j + 1;
    }
    proof {
        assert(param_types(body.blocks@[0].params@) =~= body.sig.params@);
    }
    // every block: non-empty, terminator exactly last, instructions well formed
    let mut b: usize = 0;
    while b < body.blocks.len()
        invariant
            b <= body.blocks@.len(),
            body.blocks@.len() >= 1,
            param_types(body.blocks@[0].params@) == body.sig.params@,
            forall|k: int| 0 <= k < b ==> block_wf(*body, k),
        decreases body.blocks@.len() - b,
    {
        if !check_params(&body.values, &body.blocks[b].params) {
            proof {
                assert(!block_wf(*body, b as int));
            }
            return false;
        }
        let n = body.blocks[b].insts.len();
        if n == 0 {
            proof {
                assert(!block_wf(*body, b as int));
            }
            return false;
        }
        if !body.blocks[b].insts[n - 1].is_terminator() {
            proof {
                assert(!block_wf(*body, b as int));
            }
            return false;
        }
        let mut i: usize = 0;
        while i < n
            invariant
                b < body.blocks@.len(),
                n == body.blocks@[b as int].insts@.len(),
                n >= 1,
                i <= n,
                body.blocks@[b as int].insts@[n - 1].spec_is_terminator(),
                forall|k: int|
                    0 <= k < i && k < n - 1 ==> !(#[trigger] body.blocks@[b as int].insts@[
                        k]).spec_is_terminator(),
                forall|k: int|
                    0 <= k < i ==> inst_wf(*body, #[trigger] body.blocks@[b as int].insts@[k]),
            decreases n - i,
        {
            if i < n - 1 && body.blocks[b].insts[i].is_terminator() {
                proof {
                    assert(!block_wf(*body, b as int));
                }
                return false;
            }
            if !check_inst(body, &body.blocks[b].insts[i]) {
                proof {
                    assert(!inst_wf(*body, body.blocks@[b as int].insts@[i as int]));
                    assert(!block_wf(*body, b as int));
                }
                return false;
            }
            i = i + 1;
        }
        proof {
            assert(block_wf(*body, b as int));
        }
        b = b + 1;
    }
    true
}

} // verus!
