//! Function builder: constructs one function's IR as a session over blocks,
//! SSA values and named variables, and finalizes it into a `FuncBody` after
//! resolving every variable read through the sealed predecessor graph.

use vstd::prelude::*;

use crate::ir::{check_body, BodyBlock, FuncBody, Inst};
use crate::types::{
    BlockId, CodegenError, DataId, DataRef, FuncId, FuncRefId, IrSignature, IrType, ValueId, Variable,
};

verus! {

broadcast use vstd::std_specs::vec::axiom_spec_len;

/// Where one SSA value comes from.
pub enum ValueDef {
    /// Parameter `index` of block `block`.
    BlockParam { block: usize, index: usize },
    /// Result of an instruction of block `block`.
    InstResult { block: usize },
    /// Placeholder for a variable read that resolution has not reached yet.
    Pending { block: usize, var: u32 },
    /// Resolved to another value during finalization.
    Alias { alias_of: usize },
}

/// One SSA value: its type and its definition.
pub struct ValueData {
    pub ty: IrType,
    pub def: ValueDef,
}

/// One block under construction.
pub struct BlockData {
    /// Parameter values of the block, with their types.
    pub params: Vec<(ValueId, IrType)>,
    /// Instructions appended so far.
    pub insts: Vec<Inst>,
    /// Whether the set of predecessors is complete.
    pub sealed: bool,
    /// Known predecessor edges: block, index of its branch instruction, and
    /// which edge of that instruction (0 = jump / then, 1 = else).
    pub preds: Vec<(usize, usize, u8)>,
    /// Current variable bindings in this block; later entries shadow earlier
    /// ones.
    pub defs: Vec<(u32, ValueId)>,
}

/// Looks a variable up in a binding list; the latest entry wins.
pub open spec fn defs_lookup(defs: Seq<(u32, ValueId)>, v: u32) -> Option<ValueId>
    decreases defs.len(),
{
    if defs.len() == 0 {
        Option::None
    } else if defs[defs.len() - 1].0 == v {
        Option::Some(defs[defs.len() - 1].1)
    } else {
        defs_lookup(defs.drop_last(), v)
    }
}

/// Looks a declared variable's type up; the latest declaration wins.
pub open spec fn vars_lookup(vars: Seq<(u32, IrType)>, v: u32) -> Option<IrType>
    decreases vars.len(),
{
    if vars.len() == 0 {
        Option::None
    } else if vars[vars.len() - 1].0 == v {
        Option::Some(vars[vars.len() - 1].1)
    } else {
        vars_lookup(vars.drop_last(), v)
    }
}

/// Executable lookup of a variable binding.
fn defs_lookup_exec(defs: &Vec<(u32, ValueId)>, v: u32) -> (r: Option<ValueId>)
    ensures
        r == defs_lookup(defs@, v),
{
    let mut i: usize = defs.len();
    proof {
        assert(defs@.take(defs@.len() as int) =~= defs@);
    }
    while i > 0
        invariant
            i <= defs@.len(),
            defs_lookup(defs@, v) == defs_lookup(defs@.take(i as int), v),
        decreases i,
    {
        proof {
            assert(defs@.take(i as int).drop_last() =~= defs@.take(i - 1));
            assert(defs@.take(i as int)[i - 1] == defs@[i - 1]);
        }
        i = i - 1;
        if defs[i].0 == v {
            return Some(defs[i].1);
        }
    }
    None
}

/// Executable lookup of a declared variable's type.
fn vars_lookup_exec(vars: &Vec<(u32, IrType)>, v: u32) -> (r: Option<IrType>)
    ensures
        r == vars_lookup(vars@, v),
{
    let mut i: usize = vars.len();
    proof {
        assert(vars@.take(vars@.len() as int) =~= vars@);
    }
    while i > 0
        invariant
            i <= vars@.len(),
            vars_lookup(vars@, v) == vars_lookup(vars@.take(i as int), v),
        decreases i,
    {
        proof {
            assert(vars@.take(i as int).drop_last() =~= vars@.take(i - 1));
            assert(vars@.take(i as int)[i - 1] == vars@[i - 1]);
        }
        i = i - 1;
        if vars[i].0 == v {
            return Some(vars[i].1);
        }
    }
    None
}

/// A block ends in a terminator.
pub open spec fn spec_terminated(bd: BlockData) -> bool {
    bd.insts@.len() >= 1 && bd.insts@[bd.insts@.len() - 1].spec_is_terminator()
}

/// Whether a branch instruction's given edge targets the given block.
pub open spec fn edge_targets(inst: Inst, edge: u8, target: int) -> bool {
    match inst {
        Inst::Jump { target: t, .. } => edge == 0 && t.0 == target,
        Inst::Branch { then_target, else_target, .. } => (edge == 0 && then_target.0 == target) || (
        edge == 1 && else_target.0 == target),
        _ => false,
    }
}

/// No value is an alias or an unresolved placeholder.
pub open spec fn seq_clean(values: Seq<ValueData>) -> bool {
    forall|k: int|
        0 <= k < values.len() ==> !((#[trigger] values[k]).def is Alias) && !(values[k].def
            is Pending)
}

/// The cleanliness condition of one value slot of a builder: no aliases, and
/// every placeholder is recorded as a pending read.
pub open spec fn values_clean_at(fb: FunctionBuilder, v: int) -> bool {
    match fb.values@[v].def {
        ValueDef::Alias { .. } => false,
        ValueDef::Pending { .. } => exists|k: int|
            0 <= k < fb.pendings@.len() && (#[trigger] fb.pendings@[k]).2.0 == v,
        _ => true,
    }
}

/// A session constructing one function's IR. Obtain a builder with
/// [`FunctionBuilder::new`], construct blocks and instructions, then call
/// [`FunctionBuilder::finalize`].
pub struct FunctionBuilder {
    pub sig: IrSignature,
    pub blocks: Vec<BlockData>,
    pub values: Vec<ValueData>,
    /// Declared variables; later entries shadow earlier ones.
    pub vars: Vec<(u32, IrType)>,
    /// Unresolved variable reads: block, variable, placeholder value.
    pub pendings: Vec<(usize, u32, ValueId)>,
    /// Block that instruction appends currently target.
    pub current: Option<usize>,
    /// Module functions referenced from this function.
    pub func_refs: Vec<(FuncId, IrSignature)>,
    /// Module data objects referenced from this function.
    pub data_refs: Vec<DataId>,
}

impl FunctionBuilder {
    /// The block instruction appends currently target.
    pub open spec fn cur(self) -> int {
        match self.current {
            Option::Some(c) => c as int,
            Option::None => -1,
        }
    }

    /// One predecessor record of block `target` is consistent: it points at a
    /// branch instruction of an existing block, and that edge targets
    /// `target`.
    pub open spec fn pred_ok(self, target: int, p: (usize, usize, u8)) -> bool {
        &&& p.0 < self.blocks@.len()
        &&& p.1 < self.blocks@[p.0 as int].insts@.len()
        &&& edge_targets(self.blocks@[p.0 as int].insts@[p.1 as int], p.2, target)
    }

    /// Structural consistency of one block's tables.
    pub open spec fn block_wf_at(self, b: int) -> bool {
        let bd = self.blocks@[b];
        &&& forall|j: int|
            0 <= j < bd.params@.len() ==> (#[trigger] bd.params@[j]).0.0 < self.values@.len()
        &&& forall|j: int|
            0 <= j < bd.defs@.len() ==> (#[trigger] bd.defs@[j]).1.0 < self.values@.len()
        &&& forall|j: int| 0 <= j < bd.preds@.len() ==> self.pred_ok(b, #[trigger] bd.preds@[j])
    }

    /// Bounds of one pending variable read.
    pub open spec fn pending_ok(self, p: (usize, u32, ValueId)) -> bool {
        p.0 < self.blocks@.len() && p.2.0 < self.values@.len()
    }

    /// Core structural invariant, also maintained while resolution rewrites
    /// values.
    pub open spec fn wf_core(self) -> bool {
        &&& (self.current matches Some(c) ==> c < self.blocks@.len())
        &&& forall|b: int| 0 <= b < self.blocks@.len() ==> self.block_wf_at(b)
        &&& forall|k: int| 0 <= k < self.pendings@.len() ==> self.pending_ok(#[trigger] self.pendings@[k])
    }

    /// Before finalization no value is an alias, and every placeholder is
    /// recorded as a pending read.
    pub open spec fn values_clean(self) -> bool {
        forall|v: int| 0 <= v < self.values@.len() ==> #[trigger] values_clean_at(self, v)
    }

    /// Well-formedness of a builder between public calls.
    pub open spec fn wf(self) -> bool {
        self.wf_core() && self.values_clean()
    }

    /// Instructions may currently be appended: a block is selected and it is
    /// not yet terminated.
    pub open spec fn can_append(self) -> bool {
        match self.current {
            Option::Some(c) => c < self.blocks@.len() && !spec_terminated(self.blocks@[c as int]),
            Option::None => false,
        }
    }

    /// A fresh builder for a function with the given signature.
    pub fn new(sig: IrSignature) -> (r: FunctionBuilder)
        ensures
            r.wf(),
            r.sig@ == sig@,
            r.blocks@.len() == 0,
            r.values@.len() == 0,
            r.vars@.len() == 0,
            r.pendings@.len() == 0,
            r.current is None,
            r.func_refs@.len() == 0,
            r.data_refs@.len() == 0,
    {
        FunctionBuilder {
            sig,
            blocks: Vec::new(),
            values: Vec::new(),
            vars: Vec::new(),
            pendings: Vec::new(),
            current: None,
            func_refs: Vec::new(),
            data_refs: Vec::new(),
        }
    }

    /// Creates a new, unsealed, empty block and returns its handle.
    pub fn create_block(&mut self) -> (r: BlockId)
        requires
            old(self).wf(),
        ensures
            final(self).wf(),
            r.0 == old(self).blocks@.len(),
            final(self).blocks@.len() == old(self).blocks@.len() + 1,
            forall|i: int|
                0 <= i < old(self).blocks@.len() ==> final(self).blocks@[i] == old(self).blocks@[i],
            final(self).blocks@[r.0 as int].params@.len() == 0,
            final(self).blocks@[r.0 as int].insts@.len() == 0,
            !final(self).blocks@[r.0 as int].sealed,
            final(self).blocks@[r.0 as int].preds@.len() == 0,
            final(self).blocks@[r.0 as int].defs@.len() == 0,
            final(self).sig == old(self).sig,
            final(self).values == old(self).values,
            final(self).vars == old(self).vars,
            final(self).pendings == old(self).pendings,
            final(self).current == old(self).current,
            final(self).func_refs == old(self).func_refs,
            final(self).data_refs == old(self).data_refs,
    {
        let r = BlockId(self.blocks.len());
        self.blocks.push(
            BlockData {
                params: Vec::new(),
                insts: Vec::new(),
                sealed: false,
                preds: Vec::new(),
                defs: Vec::new(),
            },
        );
        proof {
            assert forall|b: int| 0 <= b < self.blocks@.len() implies self.block_wf_at(b) by {
                if b < old(self).blocks@.len() {
                    assert(old(self).block_wf_at(b));
                    assert forall|j: int|
                        0 <= j < self.blocks@[b].preds@.len() implies self.pred_ok(
                        b,
                        #[trigger] self.blocks@[b].preds@[j],
                    ) by {
                        assert(old(self).pred_ok(b, old(self).blocks@[b].preds@[j]));
                    }
                }
            }
            assert forall|k: int| 0 <= k < self.pendings@.len() implies self.pending_ok(
                #[trigger] self.pendings@[k],
            ) by {
                assert(old(self).pending_ok(old(self).pendings@[k]));
            }
            assert forall|v: int| 0 <= v < self.values@.len() implies values_clean_at(*self, v) by {
                assert(values_clean_at(*old(self), v));
            }
        }
        r
    }

    /// Makes subsequent instruction appends target `b`. Fails with
    /// `InvalidBlock` exactly when `b` does not belong to this function.
    pub fn switch_to_block(&mut self, b: BlockId) -> (r: Result<(), CodegenError>)
        requires
            old(self).wf(),
        ensures
            final(self).wf(),
            b.0 < old(self).blocks@.len() ==> r == Result::<(), CodegenError>::Ok(()) && *final(self) == (FunctionBuilder { current: Some(b.0), ..*old(self) }),
            b.0 >= old(self).blocks@.len() ==> r == Result::<(), CodegenError>::Err(
                CodegenError::InvalidBlock,
            ) && *final(self) == *old(self),
    {
        if b.0 < self.blocks.len() {
            self.current = Some(b.0);
            proof {
                preserve_wf(*old(self), *self);
            }
            Ok(())
        } else {
            Err(CodegenError::InvalidBlock)
        }
    }

    /// Marks `b`'s predecessor set complete. Sealing a block before all its
    /// predecessor branches exist is a caller error that is not detected
    /// here: variable reads may then resolve without those predecessors.
    /// Fails with `InvalidBlock` exactly when `b` does not belong to this
    /// function.
    pub fn seal_block(&mut self, b: BlockId) -> (r: Result<(), CodegenError>)
        requires
            old(self).wf(),
        ensures
            final(self).wf(),
            b.0 >= old(self).blocks@.len() ==> r == Result::<(), CodegenError>::Err(
                CodegenError::InvalidBlock,
            ) && *final(self) == *old(self),
            b.0 < old(self).blocks@.len() ==> {
                &&& r == Result::<(), CodegenError>::Ok(())
                &&& final(self).blocks@ == old(self).blocks@.update(
                    b.0 as int,
                    BlockData { sealed: true, ..old(self).blocks@[b.0 as int] },
                )
                &&& final(self).sig == old(self).sig
                &&& final(self).values == old(self).values
                &&& final(self).vars == old(self).vars
                &&& final(self).pendings == old(self).pendings
                &&& final(self).current == old(self).current
                &&& final(self).func_refs == old(self).func_refs
                &&& final(self).data_refs == old(self).data_refs
            },
    {
        if b.0 < self.blocks.len() {
            let blk = &mut self.blocks[b.0];
            blk.sealed = true;
            proof {
                assert(self.blocks@ =~= old(self).blocks@.update(
                    b.0 as int,
                    BlockData { sealed: true, ..old(self).blocks@[b.0 as int] },
                ));
                preserve_wf(*old(self), *self);
            }
            Ok(())
        } else {
            Err(CodegenError::InvalidBlock)
        }
    }

    /// Seals every block of the function.
    pub fn seal_all_blocks(&mut self)
        requires
            old(self).wf(),
        ensures
            final(self).wf(),
            final(self).blocks@.len() == old(self).blocks@.len(),
            forall|i: int|
                0 <= i < final(self).blocks@.len() ==> final(self).blocks@[i] == (BlockData {
                    sealed: true,
                    ..old(self).blocks@[i]
                }),
            final(self).sig == old(self).sig,
            final(self).values == old(self).values,
            final(self).vars == old(self).vars,
            final(self).pendings == old(self).pendings,
            final(self).current == old(self).current,
            final(self).func_refs == old(self).func_refs,
            final(self).data_refs == old(self).data_refs,
    {
        let n = self.blocks.len();
        let mut i: usize = 0;
        while i < n
            invariant
                n == self.blocks@.len(),
                n == old(self).blocks@.len(),
                i <= n,
                forall|k: int|
                    0 <= k < i ==> self.blocks@[k] == (BlockData {
                        sealed: true,
                        ..old(self).blocks@[k]
                    }),
                forall|k: int| i <= k < n ==> self.blocks@[k] == old(self).blocks@[k],
                self.sig == old(self).sig,
                self.values == old(self).values,
                self.vars == old(self).vars,
                self.pendings == old(self).pendings,
                self.current == old(self).current,
                self.func_refs == old(self).func_refs,
                self.data_refs == old(self).data_refs,
            decreases n - i,
        {
            let blk = &mut self.blocks[i];
            blk.sealed = true;
            i = i + 1;
        }
        proof {
            preserve_wf(*old(self), *self);
        }
    }

    /// Adds an incoming value slot of type `ty` to block `b` and returns the
    /// new value. Fails with `InvalidBlock` exactly when `b` does not belong
    /// to this function.
    pub fn append_block_param(&mut self, b: BlockId, ty: IrType) -> (r: Result<
        ValueId,
        CodegenError,
    >)
        requires
            old(self).wf(),
        ensures
            final(self).wf(),
            b.0 >= old(self).blocks@.len() ==> r == Result::<ValueId, CodegenError>::Err(
                CodegenError::InvalidBlock,
            ) && *final(self) == *old(self),
            b.0 < old(self).blocks@.len() ==> {
                &&& r == Result::<ValueId, CodegenError>::Ok(ValueId(old(self).values@.len() as usize))
                &&& final(self).values@ == old(self).values@.push(
                    ValueData {
                        ty,
                        def: ValueDef::BlockParam {
                            block: b.0,
                            index: old(self).blocks@[b.0 as int].params@.len() as usize,
                        },
                    },
                )
                &&& final(self).blocks@.len() == old(self).blocks@.len()
                &&& final(self).blocks@[b.0 as int].params@ == old(self).blocks@[b.0 as int].params@.push((ValueId(old(self).values@.len() as usize), ty))
                &&& final(self).blocks@[b.0 as int].insts == old(self).blocks@[b.0 as int].insts
                &&& final(self).blocks@[b.0 as int].sealed == old(self).blocks@[b.0 as int].sealed
                &&& final(self).blocks@[b.0 as int].preds == old(self).blocks@[b.0 as int].preds
                &&& final(self).blocks@[b.0 as int].defs == old(self).blocks@[b.0 as int].defs
                &&& forall|i: int|
                    0 <= i < final(self).blocks@.len() && i != b.0 ==> final(self).blocks@[i] == old(self).blocks@[i]
                &&& final(self).sig == old(self).sig
                &&& final(self).vars == old(self).vars
                &&& final(self).pendings == old(self).pendings
                &&& final(self).current == old(self).current
                &&& final(self).func_refs == old(self).func_refs
                &&& final(self).data_refs == old(self).data_refs
            },
    {
        if b.0 >= self.blocks.len() {
            return Err(CodegenError::InvalidBlock);
        }
        let nv = ValueId(self.values.len());
        let idx = self.blocks[b.0].params.len();
        let blk = &mut self.blocks[b.0];
        blk.params.push((nv, ty));
        self.values.push(ValueData { ty, def: ValueDef::BlockParam { block: b.0, index: idx } });
        proof {
            preserve_wf(*old(self), *self);
        }
        Ok(nv)
    }

    /// Declares (or re-declares) variable `v` with type `ty`. A variable must
    /// be declared before it is defined or used.
    pub fn declare_var(&mut self, v: Variable, ty: IrType)
        requires
            old(self).wf(),
        ensures
            final(self).wf(),
            final(self).vars@ == old(self).vars@.push((v.0, ty)),
            *final(self) == (FunctionBuilder { vars: final(self).vars, ..*old(self) }),
    {
        self.vars.push((v.0, ty));
        proof {
            preserve_wf(*old(self), *self);
        }
    }

    /// Binds variable `v` to `val` in the current block. Fails with
    /// `InvalidBlock` when no block is selected, `UndefinedVariable` when `v`
    /// was never declared, and `TypeMismatch` when `val` is not a value of
    /// the variable's declared type.
    pub fn def_var(&mut self, v: Variable, val: ValueId) -> (r: Result<(), CodegenError>)
        requires
            old(self).wf(),
        ensures
            final(self).wf(),
            old(self).current is None ==> r == Result::<(), CodegenError>::Err(
                CodegenError::InvalidBlock,
            ) && *final(self) == *old(self),
            old(self).current is Some && vars_lookup(old(self).vars@, v.0) is None ==> r
                == Result::<(), CodegenError>::Err(CodegenError::UndefinedVariable) && *final(self)
                == *old(self),
            old(self).current is Some && vars_lookup(old(self).vars@, v.0) is Some && !(val.0 < old(self).values@.len() && old(self).values@[val.0 as int].ty == vars_lookup(
                old(self).vars@,
                v.0,
            ).unwrap()) ==> r == Result::<(), CodegenError>::Err(CodegenError::TypeMismatch)
                && *final(self) == *old(self),
            old(self).current is Some && vars_lookup(old(self).vars@, v.0) is Some && val.0 < old(self).values@.len() && old(self).values@[val.0 as int].ty == vars_lookup(
                old(self).vars@,
                v.0,
            ).unwrap() ==> {
                &&& r == Result::<(), CodegenError>::Ok(())
                &&& final(self).blocks@.len() == old(self).blocks@.len()
                &&& final(self).blocks@[old(self).cur()].defs@ == old(self).blocks@[old(self).cur()].defs@.push((v.0, val))
                &&& final(self).blocks@[old(self).cur()].params == old(self).blocks@[old(self).cur()].params
                &&& final(self).blocks@[old(self).cur()].insts == old(self).blocks@[old(self).cur()].insts
                &&& final(self).blocks@[old(self).cur()].sealed == old(self).blocks@[old(self).cur()].sealed
                &&& final(self).blocks@[old(self).cur()].preds == old(self).blocks@[old(self).cur()].preds
                &&& forall|i: int|
                    0 <= i < final(self).blocks@.len() && i != old(self).cur() ==> final(self).blocks@[i] == old(self).blocks@[i]
                &&& final(self).sig == old(self).sig
                &&& final(self).values == old(self).values
                &&& final(self).vars == old(self).vars
                &&& final(self).pendings == old(self).pendings
                &&& final(self).current == old(self).current
                &&& final(self).func_refs == old(self).func_refs
                &&& final(self).data_refs == old(self).data_refs
            },
    {
        let c = match self.current {
            Some(c) => c,
            None => {
                return Err(CodegenError::InvalidBlock);
            },
        };
        let ty = match vars_lookup_exec(&self.vars, v.0) {
            Some(t) => t,
            None => {
                return Err(CodegenError::UndefinedVariable);
            },
        };
        if !(val.0 < self.values.len()) {
            return Err(CodegenError::TypeMismatch);
        }
        if self.values[val.0].ty != ty {
            return Err(CodegenError::TypeMismatch);
        }
        let blk = &mut self.blocks[c];
        blk.defs.push((v.0, val));
        proof {
            preserve_wf(*old(self), *self);
        }
        Ok(())
    }

    /// Reads variable `v` in the current block, returning the value bound to
    /// it there, or a placeholder that finalization resolves through the
    /// sealed predecessor graph. Fails with `InvalidBlock` when no block is
    /// selected and `UndefinedVariable` when `v` was never declared. Reads
    /// are memoized: reading the same variable twice in one block yields the
    /// same value.
    pub fn use_var(&mut self, v: Variable) -> (r: Result<ValueId, CodegenError>)
        requires
            old(self).wf(),
        ensures
            final(self).wf(),
            old(self).current is None ==> r == Result::<ValueId, CodegenError>::Err(
                CodegenError::InvalidBlock,
            ) && *final(self) == *old(self),
            old(self).current is Some && vars_lookup(old(self).vars@, v.0) is None ==> r
                == Result::<ValueId, CodegenError>::Err(CodegenError::UndefinedVariable) && *final(self) == *old(self),
            old(self).current is Some && vars_lookup(old(self).vars@, v.0) is Some && defs_lookup(
                old(self).blocks@[old(self).cur()].defs@,
                v.0,
            ) is Some ==> r == Result::<ValueId, CodegenError>::Ok(
                defs_lookup(old(self).blocks@[old(self).cur()].defs@, v.0).unwrap(),
            ) && *final(self) == *old(self),
            old(self).current is Some && vars_lookup(old(self).vars@, v.0) is Some && defs_lookup(
                old(self).blocks@[old(self).cur()].defs@,
                v.0,
            ) is None ==> {
                &&& r == Result::<ValueId, CodegenError>::Ok(ValueId(old(self).values@.len() as usize))
                &&& final(self).values@ == old(self).values@.push(
                    ValueData {
                        ty: vars_lookup(old(self).vars@, v.0).unwrap(),
                        def: ValueDef::Pending {
                            block: old(self).cur() as usize,
                            var: v.0,
                        },
                    },
                )
                &&& final(self).pendings@ == old(self).pendings@.push(
                    (old(self).cur() as usize, v.0, ValueId(old(self).values@.len() as usize)),
                )
                &&& final(self).blocks@.len() == old(self).blocks@.len()
                &&& final(self).blocks@[old(self).cur()].defs@ == old(self).blocks@[old(self).cur()].defs@.push((v.0, ValueId(old(self).values@.len() as usize)))
                &&& final(self).blocks@[old(self).cur()].params == old(self).blocks@[old(self).cur()].params
                &&& final(self).blocks@[old(self).cur()].insts == old(self).blocks@[old(self).cur()].insts
                &&& final(self).blocks@[old(self).cur()].sealed == old(self).blocks@[old(self).cur()].sealed
                &&& final(self).blocks@[old(self).cur()].preds == old(self).blocks@[old(self).cur()].preds
                &&& forall|i: int|
                    0 <= i < final(self).blocks@.len() && i != old(self).cur() ==> final(self).blocks@[i] == old(self).blocks@[i]
                &&& final(self).sig == old(self).sig
                &&& final(self).vars == old(self).vars
                &&& final(self).current == old(self).current
                &&& final(self).func_refs == old(self).func_refs
                &&& final(self).data_refs == old(self).data_refs
            },
    {
        let c = match self.current {
            Some(c) => c,
            None => {
                return Err(CodegenError::InvalidBlock);
            },
        };
        let ty = match vars_lookup_exec(&self.vars, v.0) {
            Some(t) => t,
            None => {
                return Err(CodegenError::UndefinedVariable);
            },
        };
        if let Some(existing) = defs_lookup_exec(&self.blocks[c].defs, v.0) {
            return Ok(existing);
        }
        let nv = ValueId(self.values.len());
        self.values.push(ValueData { ty, def: ValueDef::Pending { block: c, var: v.0 } });
        let blk = &mut self.blocks[c];
        blk.defs.push((v.0, nv));
        self.pendings.push((c, v.0, nv));
        proof {
            assert forall|b: int| 0 <= b < self.blocks@.len() implies self.block_wf_at(b) by {
                assert(old(self).block_wf_at(b));
                assert forall|j: int|
                    0 <= j < self.blocks@[b].preds@.len() implies self.pred_ok(
                    b,
                    #[trigger] self.blocks@[b].preds@[j],
                ) by {
                    assert(old(self).pred_ok(b, old(self).blocks@[b].preds@[j]));
                }
            }
            assert forall|k: int| 0 <= k < self.pendings@.len() implies self.pending_ok(
                #[trigger] self.pendings@[k],
            ) by {
                if k < old(self).pendings@.len() {
                    assert(old(self).pending_ok(old(self).pendings@[k]));
                }
            }
            assert forall|val: int| 0 <= val < self.values@.len() implies values_clean_at(
                *self,
                val,
            ) by {
                if val < old(self).values@.len() {
                    assert(values_clean_at(*old(self), val));
                    if old(self).values@[val].def is Pending {
                        let k = choose|k: int|
                            0 <= k < old(self).pendings@.len() && (#[trigger] old(self).pendings@[k]).2.0 == val;
                        assert(self.pendings@[k].2.0 == val);
                    }
                } else {
                    assert(self.pendings@[self.pendings@.len() - 1].2.0 == val);
                }
            }
        }
        Ok(nv)
    }
}

impl FunctionBuilder {
    /// Appends one instruction to the current block.
    fn push_inst(&mut self, inst: Inst)
        requires
            old(self).wf(),
            old(self).can_append(),
        ensures
            final(self).wf(),
            final(self).blocks@.len() == old(self).blocks@.len(),
            final(self).blocks@[old(self).cur()].insts@ == old(self).blocks@[old(self).cur()].insts@.push(inst),
            final(self).blocks@[old(self).cur()].params == old(self).blocks@[old(self).cur()].params,
            final(self).blocks@[old(self).cur()].sealed == old(self).blocks@[old(self).cur()].sealed,
            final(self).blocks@[old(self).cur()].preds == old(self).blocks@[old(self).cur()].preds,
            final(self).blocks@[old(self).cur()].defs == old(self).blocks@[old(self).cur()].defs,
            forall|i: int|
                0 <= i < final(self).blocks@.len() && i != old(self).cur() ==> final(self).blocks@[i] == old(self).blocks@[i],
            final(self).sig == old(self).sig,
            final(self).values == old(self).values,
            final(self).vars == old(self).vars,
            final(self).pendings == old(self).pendings,
            final(self).current == old(self).current,
            final(self).func_refs == old(self).func_refs,
            final(self).data_refs == old(self).data_refs,
    {
        let c = self.current.unwrap();
        let blk = &mut self.blocks[c];
        blk.insts.push(inst);
        proof {
            assert forall|b: int| 0 <= b < self.blocks@.len() implies self.block_wf_at(b) by {
                assert(old(self).block_wf_at(b));
                assert forall|j: int|
                    0 <= j < self.blocks@[b].preds@.len() implies self.pred_ok(
                    b,
                    #[trigger] self.blocks@[b].preds@[j],
                ) by {
                    let p = self.blocks@[b].preds@[j];
                    assert(old(self).pred_ok(b, p));
                    assert(self.blocks@[p.0 as int].insts@[p.1 as int] == old(self).blocks@[
                        p.0 as int].insts@[p.1 as int]);
                }
            }
            assert forall|k: int| 0 <= k < self.pendings@.len() implies self.pending_ok(
                #[trigger] self.pendings@[k],
            ) by {
                assert(old(self).pending_ok(old(self).pendings@[k]));
            }
            assert forall|v: int| 0 <= v < self.values@.len() implies values_clean_at(*self, v) by {
                assert(values_clean_at(*old(self), v));
            }
        }
    }

    /// Creates a fresh value defined as an instruction result in the current
    /// block.
    fn new_result_value(&mut self, ty: IrType) -> (r: ValueId)
        requires
            old(self).wf(),
            old(self).current matches Some(c) && c < old(self).blocks@.len(),
        ensures
            final(self).wf(),
            r.0 == old(self).values@.len(),
            final(self).values@ == old(self).values@.push(
                ValueData { ty, def: ValueDef::InstResult { block: old(self).cur() as usize } },
            ),
            *final(self) == (FunctionBuilder { values: final(self).values, ..*old(self) }),
    {
        let c = self.current.unwrap();
        let nv = ValueId(self.values.len());
        self.values.push(ValueData { ty, def: ValueDef::InstResult { block: c } });
        proof {
            preserve_wf(*old(self), *self);
        }
        nv
    }

    /// Appends an integer-constant instruction of type `ty` to the current
    /// block and returns its result value.
    pub fn ins_iconst(&mut self, ty: IrType, imm: i64) -> (r: ValueId)
        requires
            old(self).wf(),
            old(self).can_append(),
        ensures
            final(self).wf(),
            final(self).can_append(),
            r.0 == old(self).values@.len(),
            final(self).values@ == old(self).values@.push(
                ValueData { ty, def: ValueDef::InstResult { block: old(self).cur() as usize } },
            ),
            final(self).blocks@.len() == old(self).blocks@.len(),
            final(self).blocks@[old(self).cur()].insts@ == old(self).blocks@[old(self).cur()].insts@.push(Inst::Iconst { ty, imm, result: r }),
            final(self).blocks@[old(self).cur()].params == old(self).blocks@[old(self).cur()].params,
            final(self).blocks@[old(self).cur()].sealed == old(self).blocks@[old(self).cur()].sealed,
            final(self).blocks@[old(self).cur()].preds == old(self).blocks@[old(self).cur()].preds,
            final(self).blocks@[old(self).cur()].defs == old(self).blocks@[old(self).cur()].defs,
            forall|i: int|
                0 <= i < final(self).blocks@.len() && i != old(self).cur() ==> final(self).blocks@[i] == old(self).blocks@[i],
            final(self).sig == old(self).sig,
            final(self).vars == old(self).vars,
            final(self).pendings == old(self).pendings,
            final(self).current == old(self).current,
            final(self).func_refs == old(self).func_refs,
            final(self).data_refs == old(self).data_refs,
    {
        let nv = self.new_result_value(ty);
        self.push_inst(Inst::Iconst { ty, imm, result: nv });
        nv
    }

    /// Appends a call through function reference `f` with the given
    /// arguments. Returns the call's result value exactly when the callee's
    /// signature has one return type. The callee may have at most one return
    /// type, matching the model of a call producing an optional result.
    pub fn ins_call(&mut self, f: FuncRefId, args: Vec<ValueId>) -> (r: Option<ValueId>)
        requires
            old(self).wf(),
            old(self).can_append(),
            f.0 < old(self).func_refs@.len(),
            old(self).func_refs@[f.0 as int].1.returns@.len() <= 1,
        ensures
            final(self).wf(),
            final(self).can_append(),
            old(self).func_refs@[f.0 as int].1.returns@.len() == 0 ==> r is None && final(self).values == old(self).values,
            old(self).func_refs@[f.0 as int].1.returns@.len() == 1 ==> r == Option::Some(
                ValueId(old(self).values@.len() as usize),
            ) && final(self).values@ == old(self).values@.push(
                ValueData {
                    ty: old(self).func_refs@[f.0 as int].1.returns@[0],
                    def: ValueDef::InstResult { block: old(self).cur() as usize },
                },
            ),
            final(self).blocks@.len() == old(self).blocks@.len(),
            final(self).blocks@[old(self).cur()].insts@ == old(self).blocks@[old(self).cur()].insts@.push(Inst::Call { func_ref: f, args, result: r }),
            final(self).blocks@[old(self).cur()].params == old(self).blocks@[old(self).cur()].params,
            final(self).blocks@[old(self).cur()].sealed == old(self).blocks@[old(self).cur()].sealed,
            final(self).blocks@[old(self).cur()].preds == old(self).blocks@[old(self).cur()].preds,
            final(self).blocks@[old(self).cur()].defs == old(self).blocks@[old(self).cur()].defs,
            forall|i: int|
                0 <= i < final(self).blocks@.len() && i != old(self).cur() ==> final(self).blocks@[i] == old(self).blocks@[i],
            final(self).sig == old(self).sig,
            final(self).vars == old(self).vars,
            final(self).pendings == old(self).pendings,
            final(self).current == old(self).current,
            final(self).func_refs == old(self).func_refs,
            final(self).data_refs == old(self).data_refs,
    {
        let nret = self.func_refs[f.0].1.returns.len();
        let result = if nret == 1 {
            let ty = self.func_refs[f.0].1.returns[0];
            Some(self.new_result_value(ty))
        } else {
            None
        };
        self.push_inst(Inst::Call { func_ref: f, args, result });
        result
    }

    /// Appends an instruction that resolves data reference `d` to an address
    /// of type `ty` and returns the address value.
    pub fn ins_global_addr(&mut self, d: DataRef, ty: IrType) -> (r: ValueId)
        requires
            old(self).wf(),
            old(self).can_append(),
            d.0 < old(self).data_refs@.len(),
        ensures
            final(self).wf(),
            final(self).can_append(),
            r.0 == old(self).values@.len(),
            final(self).values@ == old(self).values@.push(
                ValueData { ty, def: ValueDef::InstResult { block: old(self).cur() as usize } },
            ),
            final(self).blocks@.len() == old(self).blocks@.len(),
            final(self).blocks@[old(self).cur()].insts@ == old(self).blocks@[old(self).cur()].insts@.push(Inst::GlobalAddr { data_ref: d, ty, result: r }),
            final(self).blocks@[old(self).cur()].params == old(self).blocks@[old(self).cur()].params,
            final(self).blocks@[old(self).cur()].sealed == old(self).blocks@[old(self).cur()].sealed,
            final(self).blocks@[old(self).cur()].preds == old(self).blocks@[old(self).cur()].preds,
            final(self).blocks@[old(self).cur()].defs == old(self).blocks@[old(self).cur()].defs,
            forall|i: int|
                0 <= i < final(self).blocks@.len() && i != old(self).cur() ==> final(self).blocks@[i] == old(self).blocks@[i],
            final(self).sig == old(self).sig,
            final(self).vars == old(self).vars,
            final(self).pendings == old(self).pendings,
            final(self).current == old(self).current,
            final(self).func_refs == old(self).func_refs,
            final(self).data_refs == old(self).data_refs,
    {
        let nv = self.new_result_value(ty);
        self.push_inst(Inst::GlobalAddr { data_ref: d, ty, result: nv });
        nv
    }

    /// Appends a return instruction with the given values, terminating the
    /// current block.
    pub fn ins_return(&mut self, args: Vec<ValueId>)
        requires
            old(self).wf(),
            old(self).can_append(),
        ensures
            final(self).wf(),
            final(self).blocks@.len() == old(self).blocks@.len(),
            final(self).blocks@[old(self).cur()].insts@ == old(self).blocks@[old(self).cur()].insts@.push(Inst::Return { args }),
            spec_terminated(final(self).blocks@[old(self).cur()]),
            final(self).blocks@[old(self).cur()].params == old(self).blocks@[old(self).cur()].params,
            final(self).blocks@[old(self).cur()].sealed == old(self).blocks@[old(self).cur()].sealed,
            final(self).blocks@[old(self).cur()].preds == old(self).blocks@[old(self).cur()].preds,
            final(self).blocks@[old(self).cur()].defs == old(self).blocks@[old(self).cur()].defs,
            forall|i: int|
                0 <= i < final(self).blocks@.len() && i != old(self).cur() ==> final(self).blocks@[i] == old(self).blocks@[i],
            final(self).sig == old(self).sig,
            final(self).values == old(self).values,
            final(self).vars == old(self).vars,
            final(self).pendings == old(self).pendings,
            final(self).current == old(self).current,
            final(self).func_refs == old(self).func_refs,
            final(self).data_refs == old(self).data_refs,
    {
        self.push_inst(Inst::Return { args });
    }

    /// Appends an unconditional branch to `target` with the given block
    /// arguments, terminating the current block and recording the
    /// predecessor edge on `target`.
    pub fn ins_jump(&mut self, target: BlockId, args: Vec<ValueId>)
        requires
            old(self).wf(),
            old(self).can_append(),
            target.0 < old(self).blocks@.len(),
        ensures
            final(self).wf(),
            final(self).blocks@.len() == old(self).blocks@.len(),
            final(self).blocks@[old(self).cur()].insts@ == old(self).blocks@[old(self).cur()].insts@.push(Inst::Jump { target, args }),
            spec_terminated(final(self).blocks@[old(self).cur()]),
            final(self).blocks@[target.0 as int].preds@ == old(self).blocks@[target.0 as int].preds@.push(
                (
                    old(self).cur() as usize,
                    old(self).blocks@[old(self).cur()].insts@.len() as usize,
                    0u8,
                ),
            ),
            final(self).blocks@[old(self).cur()].params == old(self).blocks@[old(self).cur()].params,
            final(self).blocks@[old(self).cur()].sealed == old(self).blocks@[old(self).cur()].sealed,
            final(self).blocks@[old(self).cur()].defs == old(self).blocks@[old(self).cur()].defs,
            target.0 != old(self).cur() ==> final(self).blocks@[old(self).cur()].preds == old(self).blocks@[old(self).cur()].preds && final(self).blocks@[target.0 as int].params == old(self).blocks@[target.0 as int].params && final(self).blocks@[target.0 as int].insts == old(self).blocks@[target.0 as int].insts && final(self).blocks@[target.0 as int].sealed == old(self).blocks@[target.0 as int].sealed && final(self).blocks@[target.0 as int].defs == old(self).blocks@[target.0 as int].defs,
            forall|i: int|
                0 <= i < final(self).blocks@.len() && i != old(self).cur() && i != target.0
                    ==> final(self).blocks@[i] == old(self).blocks@[i],
            final(self).sig == old(self).sig,
            final(self).values == old(self).values,
            final(self).vars == old(self).vars,
            final(self).pendings == old(self).pendings,
            final(self).current == old(self).current,
            final(self).func_refs == old(self).func_refs,
            final(self).data_refs == old(self).data_refs,
    {
        let c = self.current.unwrap();
        let idx = self.blocks[c].insts.len();
        self.push_inst(Inst::Jump { target, args });
        let tb = &mut self.blocks[target.0];
        tb.preds.push((c, idx, 0u8));
        proof {
            assert forall|b: int| 0 <= b < self.blocks@.len() implies self.block_wf_at(b) by {
                assert(old(self).block_wf_at(b));
                assert forall|j: int|
                    0 <= j < self.blocks@[b].preds@.len() implies self.pred_ok(
                    b,
                    #[trigger] self.blocks@[b].preds@[j],
                ) by {
                    let p = self.blocks@[b].preds@[j];
                    if b == target.0 && j == self.blocks@[b].preds@.len() - 1 {
                        assert(self.blocks@[old(self).cur()].insts@[old(self).blocks@[old(self).cur()].insts@.len() as int] == Inst::Jump { target, args });
                        assert(edge_targets(Inst::Jump { target, args }, 0u8, target.0 as int));
                    } else {
                        assert(old(self).pred_ok(b, p));
                        assert(self.blocks@[p.0 as int].insts@.len() >= old(self).blocks@[
                            p.0 as int].insts@.len());
                        if p.0 == old(self).cur() {
                            assert(self.blocks@[p.0 as int].insts@[p.1 as int] == old(self).blocks@[p.0 as int].insts@[p.1 as int]);
                        } else {
                            assert(self.blocks@[p.0 as int].insts == old(self).blocks@[
                                p.0 as int].insts);
                        }
                    }
                }
            }
            assert forall|k: int| 0 <= k < self.pendings@.len() implies self.pending_ok(
                #[trigger] self.pendings@[k],
            ) by {
                assert(old(self).pending_ok(old(self).pendings@[k]));
            }
            assert forall|v: int| 0 <= v < self.values@.len() implies values_clean_at(*self, v) by {
                assert(values_clean_at(*old(self), v));
            }
        }
    }

    /// Appends a conditional branch on `cond` with block arguments on each
    /// edge, terminating the current block and recording one predecessor
    /// edge on each target.
    pub fn ins_branch(
        &mut self,
        cond: ValueId,
        then_target: BlockId,
        then_args: Vec<ValueId>,
        else_target: BlockId,
        else_args: Vec<ValueId>,
    )
        requires
            old(self).wf(),
            old(self).can_append(),
            then_target.0 < old(self).blocks@.len(),
            else_target.0 < old(self).blocks@.len(),
        ensures
            final(self).wf(),
            final(self).blocks@.len() == old(self).blocks@.len(),
            final(self).blocks@[old(self).cur()].insts@ == old(self).blocks@[old(self).cur()].insts@.push(
                Inst::Branch { cond, then_target, then_args, else_target, else_args },
            ),
            spec_terminated(final(self).blocks@[old(self).cur()]),
            final(self).sig == old(self).sig,
            final(self).values == old(self).values,
            final(self).vars == old(self).vars,
            final(self).pendings == old(self).pendings,
            final(self).current == old(self).current,
            final(self).func_refs == old(self).func_refs,
            final(self).data_refs == old(self).data_refs,
            forall|i: int|
                0 <= i < final(self).blocks@.len() ==> (#[trigger] final(self).blocks@[i]).params
                    == old(self).blocks@[i].params && final(self).blocks@[i].defs == old(self).blocks@[i].defs && final(self).blocks@[i].sealed == old(self).blocks@[i].sealed,
            forall|i: int|
                0 <= i < final(self).blocks@.len() && i != old(self).cur() ==> (#[trigger] final(self).blocks@[i]).insts == old(self).blocks@[i].insts,
            then_target.0 != else_target.0 ==> final(self).blocks@[then_target.0 as int].preds@
                == old(self).blocks@[then_target.0 as int].preds@.push(
                (
                    old(self).cur() as usize,
                    old(self).blocks@[old(self).cur()].insts@.len() as usize,
                    0u8,
                ),
            ) && final(self).blocks@[else_target.0 as int].preds@ == old(self).blocks@[else_target.0 as int].preds@.push(
                (
                    old(self).cur() as usize,
                    old(self).blocks@[old(self).cur()].insts@.len() as usize,
                    1u8,
                ),
            ),
            then_target.0 == else_target.0 ==> final(self).blocks@[then_target.0 as int].preds@
                == old(self).blocks@[then_target.0 as int].preds@.push(
                (
                    old(self).cur() as usize,
                    old(self).blocks@[old(self).cur()].insts@.len() as usize,
                    0u8,
                ),
            ).push(
                (
                    old(self).cur() as usize,
                    old(self).blocks@[old(self).cur()].insts@.len() as usize,
                    1u8,
                ),
            ),
            forall|i: int|
                0 <= i < final(self).blocks@.len() && i != then_target.0 && i != else_target.0
                    ==> (#[trigger] final(self).blocks@[i]).preds == old(self).blocks@[i].preds,
    {
        let c = self.current.unwrap();
        let idx = self.blocks[c].insts.len();
        self.push_inst(Inst::Branch { cond, then_target, then_args, else_target, else_args });
        let tb = &mut self.blocks[then_target.0];
        tb.preds.push((c, idx, 0u8));
        let eb = &mut self.blocks[else_target.0];
        eb.preds.push((c, idx, 1u8));
        proof {
            assert forall|b: int| 0 <= b < self.blocks@.len() implies self.block_wf_at(b) by {
                assert(old(self).block_wf_at(b));
                assert forall|j: int|
                    0 <= j < self.blocks@[b].preds@.len() implies self.pred_ok(
                    b,
                    #[trigger] self.blocks@[b].preds@[j],
                ) by {
                    let p = self.blocks@[b].preds@[j];
                    let new_inst = self.blocks@[old(self).cur()].insts@[old(self).blocks@[old(self).cur()].insts@.len() as int];
                    if j < old(self).blocks@[b].preds@.len() {
                        assert(old(self).pred_ok(b, p));
                        if p.0 == old(self).cur() {
                            assert(self.blocks@[p.0 as int].insts@[p.1 as int] == old(self).blocks@[p.0 as int].insts@[p.1 as int]);
                        } else {
                            assert(self.blocks@[p.0 as int].insts == old(self).blocks@[
                                p.0 as int].insts);
                        }
                    } else {
                        assert(edge_targets(new_inst, p.2, b));
                    }
                }
            }
            assert forall|k: int| 0 <= k < self.pendings@.len() implies self.pending_ok(
                #[trigger] self.pendings@[k],
            ) by {
                assert(old(self).pending_ok(old(self).pendings@[k]));
            }
            assert forall|v: int| 0 <= v < self.values@.len() implies values_clean_at(*self, v) by {
                assert(values_clean_at(*old(self), v));
            }
        }
    }
}

impl FunctionBuilder {
    /// During resolution: the value bound to variable `v` at the end of block
    /// `p`, creating a memoized placeholder (and a new pending read) when `p`
    /// has none.
    fn lookup_or_pend(&mut self, p: usize, ty: IrType, v: u32) -> (r: ValueId)
        requires
            old(self).wf_core(),
            p < old(self).blocks@.len(),
        ensures
            final(self).wf_core(),
            r.0 < final(self).values@.len(),
            final(self).blocks@.len() == old(self).blocks@.len(),
            final(self).values@.len() - old(self).values@.len() == final(self).pendings@.len()
                - old(self).pendings@.len(),
            final(self).values@.len() >= old(self).values@.len(),
            final(self).values@.len() <= old(self).values@.len() + 1,
            forall|i: int|
                0 <= i < old(self).values@.len() ==> final(self).values@[i] == old(self).values@[i],
            forall|k: int|
                0 <= k < old(self).pendings@.len() ==> final(self).pendings@[k] == old(self).pendings@[k],
            forall|i: int|
                0 <= i < final(self).blocks@.len() ==> (#[trigger] final(self).blocks@[i]).insts
                    == old(self).blocks@[i].insts && final(self).blocks@[i].preds == old(self).blocks@[i].preds && final(self).blocks@[i].params == old(self).blocks@[i].params
                    && final(self).blocks@[i].sealed == old(self).blocks@[i].sealed,
            forall|i: int|
                0 <= i < final(self).blocks@.len() && i != p ==> (#[trigger] final(self).blocks@[i]).defs == old(self).blocks@[i].defs,
            final(self).sig == old(self).sig,
            final(self).vars == old(self).vars,
            final(self).current == old(self).current,
            final(self).func_refs == old(self).func_refs,
            final(self).data_refs == old(self).data_refs,
    {
        if let Some(existing) = defs_lookup_exec(&self.blocks[p].defs, v) {
            proof {
                assert(old(self).block_wf_at(p as int));
                lemma_defs_lookup_in_range(*old(self), p as int, v);
            }
            return existing;
        }
        let nv = ValueId(self.values.len());
        self.values.push(ValueData { ty, def: ValueDef::Pending { block: p, var: v } });
        let blk = &mut self.blocks[p];
        blk.defs.push((v, nv));
        self.pendings.push((p, v, nv));
        proof {
            assert forall|b: int| 0 <= b < self.blocks@.len() implies self.block_wf_at(b) by {
                assert(old(self).block_wf_at(b));
                assert forall|j: int|
                    0 <= j < self.blocks@[b].preds@.len() implies self.pred_ok(
                    b,
                    #[trigger] self.blocks@[b].preds@[j],
                ) by {
                    assert(old(self).pred_ok(b, old(self).blocks@[b].preds@[j]));
                }
            }
            assert forall|k: int| 0 <= k < self.pendings@.len() implies self.pending_ok(
                #[trigger] self.pendings@[k],
            ) by {
                if k < old(self).pendings@.len() {
                    assert(old(self).pending_ok(old(self).pendings@[k]));
                }
            }
        }
        nv
    }

    /// Appends `v` as the block argument of one recorded predecessor edge.
    fn push_branch_arg(&mut self, p: usize, idx: usize, edge: u8, v: ValueId) -> (r: Result<
        (),
        CodegenError,
    >)
        requires
            old(self).wf_core(),
            p < old(self).blocks@.len(),
            idx < old(self).blocks@[p as int].insts@.len(),
        ensures
            final(self).wf_core(),
            final(self).blocks@.len() == old(self).blocks@.len(),
            final(self).values == old(self).values,
            final(self).pendings == old(self).pendings,
            final(self).sig == old(self).sig,
            final(self).vars == old(self).vars,
            final(self).current == old(self).current,
            final(self).func_refs == old(self).func_refs,
            final(self).data_refs == old(self).data_refs,
            forall|i: int|
                0 <= i < final(self).blocks@.len() ==> (#[trigger] final(self).blocks@[i]).params
                    == old(self).blocks@[i].params && final(self).blocks@[i].preds == old(self).blocks@[i].preds && final(self).blocks@[i].defs == old(self).blocks@[i].defs
                    && final(self).blocks@[i].sealed == old(self).blocks@[i].sealed && final(self).blocks@[i].insts@.len() == old(self).blocks@[i].insts@.len(),
            forall|i: int|
                0 <= i < final(self).blocks@.len() && i != p ==> (#[trigger] final(self).blocks@[i]).insts == old(self).blocks@[i].insts,
            forall|k: int|
                0 <= k < final(self).blocks@[p as int].insts@.len() && k != idx ==> final(self).blocks@[p as int].insts@[k] == old(self).blocks@[p as int].insts@[k],
            forall|e: u8, t: int|
                edge_targets(final(self).blocks@[p as int].insts@[idx as int], e, t)
                    == edge_targets(old(self).blocks@[p as int].insts@[idx as int], e, t),
            r matches Err(e) ==> e == CodegenError::TypeMismatch,
    {
        let inst = &mut self.blocks[p].insts[idx];
        let r = match inst {
            Inst::Jump { target: _, args } => {
                if edge == 0 {
                    args.push(v);
                    Ok(())
                } else {
                    Err(CodegenError::TypeMismatch)
                }
            },
            Inst::Branch { then_args, else_args, .. } => {
                if edge == 0 {
                    then_args.push(v);
                    Ok(())
                } else if edge == 1 {
                    else_args.push(v);
                    Ok(())
                } else {
                    Err(CodegenError::TypeMismatch)
                }
            },
            _ => Err(CodegenError::TypeMismatch),
        };
        proof {
            assert forall|e: u8, t: int|
                edge_targets(self.blocks@[p as int].insts@[idx as int], e, t) == edge_targets(
                    old(self).blocks@[p as int].insts@[idx as int],
                    e,
                    t,
                ) by {}
            assert forall|b: int| 0 <= b < self.blocks@.len() implies self.block_wf_at(b) by {
                assert(old(self).block_wf_at(b));
                assert forall|j: int|
                    0 <= j < self.blocks@[b].preds@.len() implies self.pred_ok(
                    b,
                    #[trigger] self.blocks@[b].preds@[j],
                ) by {
                    let q = self.blocks@[b].preds@[j];
                    assert(old(self).pred_ok(b, q));
                    if q.0 == p && q.1 == idx {
                    } else if q.0 == p {
                        assert(self.blocks@[p as int].insts@[q.1 as int] == old(self).blocks@[
                            p as int].insts@[q.1 as int]);
                    } else {
                        assert(self.blocks@[q.0 as int].insts == old(self).blocks@[
                            q.0 as int].insts);
                    }
                }
            }
            assert forall|k: int| 0 <= k < self.pendings@.len() implies self.pending_ok(
                #[trigger] self.pendings@[k],
            ) by {
                assert(old(self).pending_ok(old(self).pendings@[k]));
            }
        }
        r
    }

    /// The resolution pass: walks the pending variable reads, inserting block
    /// parameters at join points and wiring predecessor branch arguments, as
    /// the memoized traversal of the sealed predecessor graph.
    fn resolve_pendings(&mut self) -> (r: Result<(), CodegenError>)
        requires
            old(self).wf(),
        ensures
            final(self).wf_core(),
            final(self).blocks@.len() == old(self).blocks@.len(),
            final(self).sig == old(self).sig,
            final(self).vars == old(self).vars,
            final(self).func_refs == old(self).func_refs,
            final(self).data_refs == old(self).data_refs,
            old(self).pendings@.len() == 0 ==> *final(self) == *old(self) && r == Result::<
                (),
                CodegenError,
            >::Ok(()),
            r matches Err(e) ==> (e == CodegenError::UndefinedVariable || e
                == CodegenError::TypeMismatch),
    {
        let mut i: usize = 0;
        while i < self.pendings.len()
            invariant
                self.wf_core(),
                i <= self.pendings@.len(),
                self.blocks@.len() == old(self).blocks@.len(),
                self.sig == old(self).sig,
                self.vars == old(self).vars,
                self.func_refs == old(self).func_refs,
                self.data_refs == old(self).data_refs,
                old(self).pendings@.len() == 0 ==> *self == *old(self),
            decreases usize::MAX - self.values.len(), self.pendings.len() - i,
        {
            proof {
                if old(self).pendings@.len() == 0 {
                    assert(self.pendings@.len() == 0);
                    assert(false);
                }
            }
            let ghost values_at_start = self.values@.len();
            let ghost pendings_at_start = self.pendings@.len();
            let pe = self.pendings[i];
            proof {
                assert(self.pending_ok(self.pendings@[i as int]));
            }
            let b = pe.0;
            let v = pe.1;
            let val = pe.2;
            let ty = self.values[val.0].ty;
            let n_preds = self.blocks[b].preds.len();
            if n_preds == 0 {
                return Err(CodegenError::UndefinedVariable);
            }
            if n_preds == 1 {
                let pred = self.blocks[b].preds[0];
                proof {
                    assert(self.block_wf_at(b as int));
                    assert(self.pred_ok(b as int, self.blocks@[b as int].preds@[0]));
                }
                let pv = self.lookup_or_pend(pred.0, ty, v);
                if pv.0 == val.0 {
                    return Err(CodegenError::UndefinedVariable);
                }
                let ghost mid = *self;
                let slot = &mut self.values[val.0];
                *slot = ValueData { ty, def: ValueDef::Alias { alias_of: pv.0 } };
                proof {
                    preserve_wf_core(mid, *self);
                }
            } else {
                let j = self.blocks[b].params.len();
                let ghost before = *self;
                let blk = &mut self.blocks[b];
                blk.params.push((val, ty));
                let slot = &mut self.values[val.0];
                *slot = ValueData { ty, def: ValueDef::BlockParam { block: b, index: j } };
                proof {
                    assert forall|bb: int| 0 <= bb < self.blocks@.len() implies self.block_wf_at(
                        bb,
                    ) by {
                        assert(before.block_wf_at(bb));
                        assert forall|jj: int|
                            0 <= jj < self.blocks@[bb].preds@.len() implies self.pred_ok(
                            bb,
                            #[trigger] self.blocks@[bb].preds@[jj],
                        ) by {
                            assert(before.pred_ok(bb, before.blocks@[bb].preds@[jj]));
                        }
                    }
                    assert forall|kk: int| 0 <= kk < self.pendings@.len() implies self.pending_ok(
                        #[trigger] self.pendings@[kk],
                    ) by {
                        assert(before.pending_ok(before.pendings@[kk]));
                    }
                }
                let mut k: usize = 0;
                while k < n_preds
                    invariant
                        old(self).pendings@.len() != 0,
                        self.wf_core(),
                        k <= n_preds,
                        b < self.blocks@.len(),
                        n_preds == self.blocks@[b as int].preds@.len(),
                        self.blocks@.len() == old(self).blocks@.len(),
                        self.sig == old(self).sig,
                        self.vars == old(self).vars,
                        self.func_refs == old(self).func_refs,
                        self.data_refs == old(self).data_refs,
                        self.values@.len() - values_at_start == self.pendings@.len()
                            - pendings_at_start,
                        self.values@.len() >= values_at_start,
                        i < self.pendings@.len(),
                    decreases n_preds - k,
                {
                    let pred = self.blocks[b].preds[k];
                    proof {
                        assert(self.block_wf_at(b as int));
                        assert(self.pred_ok(b as int, self.blocks@[b as int].preds@[k as int]));
                    }
                    let pv = self.lookup_or_pend(pred.0, ty, v);
                    match self.push_branch_arg(pred.0, pred.1, pred.2, pv) {
                        Ok(()) => {},
                        Err(e) => {
                            return Err(e);
                        },
                    }
                    k = k + 1;
                }
            }
            i = i + 1;
        }
        Ok(())
    }
}

/// Two instructions are alike: the same operation with the same operands,
/// targets and results, compared through the argument lists' contents.
pub open spec fn inst_like(a: Inst, b: Inst) -> bool {
    match (a, b) {
        (
            Inst::Iconst { ty: t1, imm: i1, result: r1 },
            Inst::Iconst { ty: t2, imm: i2, result: r2 },
        ) => t1 == t2 && i1 == i2 && r1 == r2,
        (
            Inst::Call { func_ref: f1, args: a1, result: r1 },
            Inst::Call { func_ref: f2, args: a2, result: r2 },
        ) => f1 == f2 && a1@ == a2@ && r1 == r2,
        (
            Inst::GlobalAddr { data_ref: d1, ty: t1, result: r1 },
            Inst::GlobalAddr { data_ref: d2, ty: t2, result: r2 },
        ) => d1 == d2 && t1 == t2 && r1 == r2,
        (Inst::Return { args: a1 }, Inst::Return { args: a2 }) => a1@ == a2@,
        (Inst::Jump { target: t1, args: a1 }, Inst::Jump { target: t2, args: a2 }) => t1 == t2
            && a1@ == a2@,
        (
            Inst::Branch {
                cond: c1,
                then_target: tt1,
                then_args: ta1,
                else_target: et1,
                else_args: ea1,
            },
            Inst::Branch {
                cond: c2,
                then_target: tt2,
                then_args: ta2,
                else_target: et2,
                else_args: ea2,
            },
        ) => c1 == c2 && tt1 == tt2 && ta1@ == ta2@ && et1 == et2 && ea1@ == ea2@,
        _ => false,
    }
}

/// The types of a value table.
pub open spec fn val_tys(vs: Seq<ValueData>) -> Seq<IrType> {
    vs.map_values(|vd: ValueData| vd.ty)
}

/// A finished body carries exactly a builder state's assembled content: its
/// signature and reference tables, its value types, and its blocks,
/// instruction by instruction.
pub open spec fn body_like(fb: FunctionBuilder, body: FuncBody) -> bool {
    &&& body.sig == fb.sig
    &&& body.func_refs == fb.func_refs
    &&& body.data_refs == fb.data_refs
    &&& body.values@ == val_tys(fb.values@)
    &&& body.blocks@.len() == fb.blocks@.len()
    &&& forall|x: int|
        0 <= x < fb.blocks@.len() ==> (#[trigger] body.blocks@[x]).params@ == fb.blocks@[
            x].params@ && body.blocks@[x].insts@.len() == fb.blocks@[x].insts@.len() && (forall|
            y: int,
        |
            0 <= y < fb.blocks@[x].insts@.len() ==> inst_like(
                fb.blocks@[x].insts@[y],
                #[trigger] body.blocks@[x].insts@[y],
            ))
}

/// Every body that carries this builder state's assembled content passes the
/// finished-body well-formedness checks: the state as it stands type-checks.
pub open spec fn assembles_wf(fb: FunctionBuilder) -> bool {
    forall|body: FuncBody| #[trigger] body_like(fb, body) ==> crate::ir::body_wf(body)
}

/// Follows alias links from `v` to the defining value, with fuel bounded by
/// the number of values; an unresolved placeholder or a link cycle means the
/// read is on a path no definition reaches. A handle outside the value table
/// is handed back unchanged: the body checker refuses it.
fn resolve_value(values: &Vec<ValueData>, v: ValueId) -> (r: Result<ValueId, CodegenError>)
    ensures
        seq_clean(values@) ==> r == Result::<ValueId, CodegenError>::Ok(v),
        r matches Err(e) ==> e == CodegenError::UndefinedVariable,
{
    let mut cur = v;
    if cur.0 >= values.len() {
        return Ok(cur);
    }
    let mut fuel: usize = values.len();
    while fuel > 0
        invariant
            cur.0 < values@.len(),
            seq_clean(values@) ==> fuel == values@.len() && cur == v,
        decreases fuel,
    {
        match &values[cur.0].def {
            ValueDef::Alias { alias_of } => {
                proof {
                    if seq_clean(values@) {
                        assert(!(values@[cur.0 as int].def is Alias));
                        assert(false);
                    }
                }
                cur = ValueId(*alias_of);
                if cur.0 >= values.len() {
                    return Err(CodegenError::UndefinedVariable);
                }
            },
            ValueDef::Pending { .. } => {
                proof {
                    if seq_clean(values@) {
                        assert(!(values@[cur.0 as int].def is Pending));
                        assert(false);
                    }
                }
                return Err(CodegenError::UndefinedVariable);
            },
            _ => {
                return Ok(cur);
            },
        }
        fuel = fuel - 1;
    }
    proof {
        if seq_clean(values@) {
            assert(fuel == values@.len());
            assert(values@.len() > cur.0 >= 0);
            assert(false);
        }
    }
    Err(CodegenError::UndefinedVariable)
}

/// Resolves every value of an argument list through its aliases.
fn resolve_args(values: &Vec<ValueData>, args: &Vec<ValueId>) -> (r: Result<Vec<ValueId>, CodegenError>)
    ensures
        seq_clean(values@) ==> (r matches Ok(out) && out@ == args@),
        r matches Err(e) ==> e == CodegenError::UndefinedVariable,
{
    let mut out: Vec<ValueId> = Vec::new();
    let mut i: usize = 0;
    while i < args.len()
        invariant
            i <= args@.len(),
            out@.len() == i,
            seq_clean(values@) ==> out@ == args@.take(i as int),
        decreases args@.len() - i,
    {
        match resolve_value(values, args[i]) {
            Ok(rv) => out.push(rv),
            Err(e) => {
                return Err(e);
            },
        }
        proof {
            if seq_clean(values@) {
                assert(out@ =~= args@.take(i + 1));
            }
        }
        i = i + 1;
    }
    proof {
        if seq_clean(values@) {
            assert(out@ =~= args@);
        }
    }
    Ok(out)
}

impl FunctionBuilder {
    /// Freezes the IR: checks that every block is sealed and terminated, runs
    /// the variable-resolution pass over the sealed predecessor graph, and
    /// type-checks the finished body. Fails with `UnsealedBlock` exactly when
    /// a block is unsealed; otherwise with `UnterminatedBlock` exactly when a
    /// block's last appended instruction is not a return or branch; otherwise
    /// with `UndefinedVariable` when a variable read reaches no definition,
    /// or `TypeMismatch` when the finished body violates the declared
    /// signature or block parameter lists. A returned body is well formed.
    #[verifier::loop_isolation(false)]
    #[verifier::rlimit(100)]
    pub fn finalize(self) -> (r: Result<FuncBody, CodegenError>)
        requires
            self.wf(),
        ensures
            (r == Result::<FuncBody, CodegenError>::Err(CodegenError::UnsealedBlock)) <==> (
            exists|b: int| 0 <= b < self.blocks@.len() && !(#[trigger] self.blocks@[b]).sealed),
            (r == Result::<FuncBody, CodegenError>::Err(CodegenError::UnterminatedBlock)) <==> ((
            forall|b: int| 0 <= b < self.blocks@.len() ==> (#[trigger] self.blocks@[b]).sealed) && (
            exists|b: int|
                0 <= b < self.blocks@.len() && !spec_terminated(#[trigger] self.blocks@[b]))),
            r matches Err(e) ==> (e == CodegenError::UnsealedBlock || e
                == CodegenError::UnterminatedBlock || e == CodegenError::UndefinedVariable || e
                == CodegenError::TypeMismatch),
            r == Result::<FuncBody, CodegenError>::Err(CodegenError::UndefinedVariable)
                ==> self.pendings@.len() > 0,
            r matches Ok(body) ==> crate::ir::body_wf(body) && body.sig == self.sig
                && body.blocks@.len() == self.blocks@.len() && body.func_refs == self.func_refs
                && body.data_refs == self.data_refs,
            self.pendings@.len() == 0 ==> (r matches Ok(body) ==> body_like(self, body)),
            (self.pendings@.len() == 0 && (forall|bl: int|
                0 <= bl < self.blocks@.len() ==> (#[trigger] self.blocks@[bl]).sealed) && (forall|
                bl: int,
            | 0 <= bl < self.blocks@.len() ==> spec_terminated(#[trigger] self.blocks@[bl]))
                && assembles_wf(self)) ==> r is Ok,
    {
        let mut this = self;
        // every block must be sealed
        let mut b: usize = 0;
        while b < this.blocks.len()
            invariant
                this == self,
                b <= self.blocks@.len(),
                forall|k: int| 0 <= k < b ==> (#[trigger] self.blocks@[k]).sealed,
            decreases self.blocks@.len() - b,
        {
            if !this.blocks[b].sealed {
                return Err(CodegenError::UnsealedBlock);
            }
            b = b + 1;
        }
        // every block must end in a terminator
        let mut b2: usize = 0;
        while b2 < this.blocks.len()
            invariant
                this == self,
                b2 <= self.blocks@.len(),
                forall|k: int| 0 <= k < b2 ==> spec_terminated(#[trigger] self.blocks@[k]),
            decreases self.blocks@.len() - b2,
        {
            let n = this.blocks[b2].insts.len();
            if n == 0 {
                proof {
                    assert(!spec_terminated(self.blocks@[b2 as int]));
                }
                return Err(CodegenError::UnterminatedBlock);
            }
            if !this.blocks[b2].insts[n - 1].is_terminator() {
                proof {
                    assert(!spec_terminated(self.blocks@[b2 as int]));
                }
                return Err(CodegenError::UnterminatedBlock);
            }
            b2 = b2 + 1;
        }
        // resolve pending variable reads
        let ghost had_pendings = this.pendings@.len() > 0;
        match this.resolve_pendings() {
            Ok(()) => {},
            Err(e) => {
                return Err(e);
            },
        }
        proof {
            if !had_pendings {
                assert(this == self);
                assert forall|k: int| 0 <= k < this.values@.len() implies !((
                #[trigger] this.values@[k]).def is Alias) && !(this.values@[k].def is Pending) by {
                    assert(values_clean_at(self, k));
                }
                assert(seq_clean(this.values@));
            }
        }
        // rewrite operands through aliases into a finished body
        let FunctionBuilder { sig, blocks, values, vars: _, pendings: _, current: _, func_refs, data_refs } =
            this;
        let mut body_blocks: Vec<BodyBlock> = Vec::new();
        let mut bi: usize = 0;
        while bi < blocks.len()
            invariant
                bi <= blocks@.len(),
                body_blocks@.len() == bi,
                self.pendings@.len() == 0 ==> forall|x: int|
                    0 <= x < bi ==> (#[trigger] body_blocks@[x]).params@ == blocks@[x].params@
                        && body_blocks@[x].insts@.len() == blocks@[x].insts@.len() && (forall|
                        y: int,
                    |
                        0 <= y < blocks@[x].insts@.len() ==> inst_like(
                            blocks@[x].insts@[y],
                            #[trigger] body_blocks@[x].insts@[y],
                        )),
            decreases blocks@.len() - bi,
        {
            let src_blk = &blocks[bi];
            let mut nparams: Vec<(ValueId, IrType)> = Vec::new();
            let mut pj: usize = 0;
            while pj < src_blk.params.len()
                invariant
                    pj <= src_blk.params@.len(),
                    nparams@ == src_blk.params@.take(pj as int),
                decreases src_blk.params@.len() - pj,
            {
                nparams.push(src_blk.params[pj]);
                proof {
                    assert(nparams@ =~= src_blk.params@.take(pj + 1));
                }
                pj = pj + 1;
            }
            proof {
                assert(nparams@ =~= src_blk.params@);
            }
            let mut ninsts: Vec<Inst> = Vec::new();
            let mut ii: usize = 0;
            while ii < src_blk.insts.len()
                invariant
                    ii <= src_blk.insts@.len(),
                    ninsts@.len() == ii,
                    self.pendings@.len() == 0 ==> forall|y: int|
                        0 <= y < ii ==> inst_like(
                            src_blk.insts@[y],
                            #[trigger] ninsts@[y],
                        ),
                decreases src_blk.insts@.len() - ii,
            {
                let ninst = match &src_blk.insts[ii] {
                    Inst::Iconst { ty, imm, result } => Inst::Iconst {
                        ty: *ty,
                        imm: *imm,
                        result: *result,
                    },
                    Inst::Call { func_ref, args, result } => {
                        let nargs = match resolve_args(&values, args) {
                            Ok(a) => a,
                            Err(e) => {
                                proof {
                                    if !had_pendings {
                                        assert(e != CodegenError::UndefinedVariable);
                                    }
                                }
                                return Err(e);
                            },
                        };
                        Inst::Call { func_ref: *func_ref, args: nargs, result: *result }
                    },
                    Inst::GlobalAddr { data_ref, ty, result } => Inst::GlobalAddr {
                        data_ref: *data_ref,
                        ty: *ty,
                        result: *result,
                    },
                    Inst::Return { args } => {
                        let nargs = match resolve_args(&values, args) {
                            Ok(a) => a,
                            Err(e) => {
                                proof {
                                    if !had_pendings {
                                        assert(e != CodegenError::UndefinedVariable);
                                    }
                                }
                                return Err(e);
                            },
                        };
                        Inst::Return { args: nargs }
                    },
                    Inst::Jump { target, args } => {
                        let nargs = match resolve_args(&values, args) {
                            Ok(a) => a,
                            Err(e) => {
                                proof {
                                    if !had_pendings {
                                        assert(e != CodegenError::UndefinedVariable);
                                    }
                                }
                                return Err(e);
                            },
                        };
                        Inst::Jump { target: *target, args: nargs }
                    },
                    Inst::Branch { cond, then_target, then_args, else_target, else_args } => {
                        let ncond = match resolve_value(&values, *cond) {
                            Ok(c) => c,
                            Err(e) => {
                                proof {
                                    if !had_pendings {
                                        assert(e != CodegenError::UndefinedVariable);
                                    }
                                }
                                return Err(e);
                            },
                        };
                        let nthen = match resolve_args(&values, then_args) {
                            Ok(a) => a,
                            Err(e) => {
                                proof {
                                    if !had_pendings {
                                        assert(e != CodegenError::UndefinedVariable);
                                    }
                                }
                                return Err(e);
                            },
                        };
                        let nelse = match resolve_args(&values, else_args) {
                            Ok(a) => a,
                            Err(e) => {
                                proof {
                                    if !had_pendings {
                                        assert(e != CodegenError::UndefinedVariable);
                                    }
                                }
                                return Err(e);
                            },
                        };
                        Inst::Branch {
                            cond: ncond,
                            then_target: *then_target,
                            then_args: nthen,
                            else_target: *else_target,
                            else_args: nelse,
                        }
                    },
                };
                proof {
                    if self.pendings@.len() == 0 {
                        assert(inst_like(src_blk.insts@[ii as int], ninst));
                    }
                }
                ninsts.push(ninst);
                ii = ii + 1;
            }
            body_blocks.push(BodyBlock { params: nparams, insts: ninsts });
            bi = bi + 1;
        }
        let mut vtypes: Vec<IrType> = Vec::new();
        let mut vi: usize = 0;
        while vi < values.len()
            invariant
                vi <= values@.len(),
                vtypes@.len() == vi,
                forall|k: int| 0 <= k < vi ==> vtypes@[k] == values@[k].ty,
            decreases values@.len() - vi,
        {
            vtypes.push(values[vi].ty);
            vi = vi + 1;
        }
        proof {
            assert(vtypes@ =~= val_tys(values@));
        }
        let body = FuncBody {
            sig,
            blocks: body_blocks,
            values: vtypes,
            func_refs,
            data_refs,
        };
        proof {
            if self.pendings@.len() == 0 {
                assert(body_like(self, body));
            }
        }
        if !check_body(&body) {
            return Err(CodegenError::TypeMismatch);
        }
        Ok(body)
    }
}

/// Variant of `preserve_wf` for the resolution phase: values may be
/// overwritten in place and no cleanliness is maintained, but all table
/// lengths and branch shapes are as before.
pub proof fn preserve_wf_core(a: FunctionBuilder, b: FunctionBuilder)
    requires
        a.wf_core(),
        b.blocks@.len() == a.blocks@.len(),
        forall|i: int|
            0 <= i < b.blocks@.len() ==> (#[trigger] b.blocks@[i]).insts == a.blocks@[i].insts
                && b.blocks@[i].preds == a.blocks@[i].preds && b.blocks@[i].params == a.blocks@[
                i].params && b.blocks@[i].defs == a.blocks@[i].defs,
        b.values@.len() >= a.values@.len(),
        b.pendings == a.pendings,
        b.current == a.current,
    ensures
        b.wf_core(),
{
    assert forall|bb: int| 0 <= bb < b.blocks@.len() implies b.block_wf_at(bb) by {
        assert(a.block_wf_at(bb));
        assert forall|j: int|
            0 <= j < b.blocks@[bb].preds@.len() implies b.pred_ok(
            bb,
            #[trigger] b.blocks@[bb].preds@[j],
        ) by {
            assert(a.pred_ok(bb, a.blocks@[bb].preds@[j]));
        }
    }
    assert forall|k: int| 0 <= k < b.pendings@.len() implies b.pending_ok(
        #[trigger] b.pendings@[k],
    ) by {
        assert(a.pending_ok(a.pendings@[k]));
    }
}

/// A binding found in a block's table is a value in range.
pub proof fn lemma_defs_lookup_in_range(fb: FunctionBuilder, b: int, v: u32)
    requires
        fb.block_wf_at(b),
        0 <= b < fb.blocks@.len(),
        defs_lookup(fb.blocks@[b].defs@, v) is Some,
    ensures
        defs_lookup(fb.blocks@[b].defs@, v).unwrap().0 < fb.values@.len(),
{
    lemma_defs_lookup_member(fb.blocks@[b].defs@, v, fb.values@.len() as int);
}

/// Helper: a successful lookup returns one of the list's entries, so any
/// bound on all entries applies to it.
pub proof fn lemma_defs_lookup_member(defs: Seq<(u32, ValueId)>, v: u32, bound: int)
    requires
        defs_lookup(defs, v) is Some,
        forall|j: int| 0 <= j < defs.len() ==> (#[trigger] defs[j]).1.0 < bound,
    ensures
        defs_lookup(defs, v).unwrap().0 < bound,
    decreases defs.len(),
{
    if defs.len() > 0 && defs[defs.len() - 1].0 != v {
        lemma_defs_lookup_member(defs.drop_last(), v, bound);
    }
}

/// Re-establishes well-formedness for a state whose blocks changed only in
/// fields that the invariant does not inspect (seals, defs, params growth
/// with in-range values) and whose instruction lists and value/pending
/// tables grew consistently. Stated as a blunt helper: it re-checks the
/// invariant from the old state's, given that instruction lists did not
/// change and tables only grew.
pub proof fn preserve_wf(a: FunctionBuilder, b: FunctionBuilder)
    requires
        a.wf(),
        b.blocks@.len() == a.blocks@.len(),
        forall|i: int|
            0 <= i < b.blocks@.len() ==> (#[trigger] b.blocks@[i]).insts == a.blocks@[i].insts
                && b.blocks@[i].preds == a.blocks@[i].preds,
        b.values@.len() >= a.values@.len(),
        forall|i: int| 0 <= i < a.values@.len() ==> #[trigger] b.values@[i] == a.values@[i],
        forall|v: int|
            a.values@.len() <= v < b.values@.len() ==> !((#[trigger] b.values@[v]).def is Pending)
                && !(b.values@[v].def is Alias),
        forall|i: int, j: int|
            0 <= i < b.blocks@.len() && 0 <= j < b.blocks@[i].params@.len() ==> ((
            #[trigger] b.blocks@[i].params@[j]).0.0 < b.values@.len() || (j < a.blocks@[
                i].params@.len() && b.blocks@[i].params@[j] == a.blocks@[i].params@[j])),
        forall|i: int, j: int|
            0 <= i < b.blocks@.len() && 0 <= j < b.blocks@[i].defs@.len() ==> ((
            #[trigger] b.blocks@[i].defs@[j]).1.0 < b.values@.len() || (j < a.blocks@[
                i].defs@.len() && b.blocks@[i].defs@[j] == a.blocks@[i].defs@[j])),
        b.pendings == a.pendings,
        (b.current matches Some(c) ==> c < b.blocks@.len()),
    ensures
        b.wf(),
{
    assert forall|bb: int| 0 <= bb < b.blocks@.len() implies b.block_wf_at(bb) by {
        assert(a.block_wf_at(bb));
        assert forall|j: int|
            0 <= j < b.blocks@[bb].preds@.len() implies b.pred_ok(
            bb,
            #[trigger] b.blocks@[bb].preds@[j],
        ) by {
            assert(a.pred_ok(bb, a.blocks@[bb].preds@[j]));
        }
        assert forall|j: int|
            0 <= j < b.blocks@[bb].params@.len() implies (#[trigger] b.blocks@[bb].params@[j]).0.0
            < b.values@.len() by {
            if !(b.blocks@[bb].params@[j].0.0 < b.values@.len()) {
                assert(b.blocks@[bb].params@[j] == a.blocks@[bb].params@[j]);
                assert(a.blocks@[bb].params@[j].0.0 < a.values@.len());
            }
        }
        assert forall|j: int|
            0 <= j < b.blocks@[bb].defs@.len() implies (#[trigger] b.blocks@[bb].defs@[j]).1.0
            < b.values@.len() by {
            if !(b.blocks@[bb].defs@[j].1.0 < b.values@.len()) {
                assert(b.blocks@[bb].defs@[j] == a.blocks@[bb].defs@[j]);
                assert(a.blocks@[bb].defs@[j].1.0 < a.values@.len());
            }
        }
    }
    assert forall|k: int| 0 <= k < b.pendings@.len() implies b.pending_ok(
        #[trigger] b.pendings@[k],
    ) by {
        assert(a.pending_ok(a.pendings@[k]));
    }
    assert forall|v: int| 0 <= v < b.values@.len() implies values_clean_at(b, v) by {
        if v < a.values@.len() {
            assert(values_clean_at(a, v));
        }
    }
}

} // verus!
