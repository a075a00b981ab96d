//! The demonstration pipeline: builds one exported entry function that calls
//! an imported symbol with the address of a global string constant and
//! returns a fixed status code, then emits the relocatable object bytes.

use vstd::prelude::*;

use crate::backend::detect_host;
use crate::builder::FunctionBuilder;
use crate::module::Module;
use crate::target::{resolve, TargetFlags};
use crate::builder::{ValueData, ValueDef};
use crate::ir::Inst;
use crate::types::{
    CodegenError, DataId, DataRef, FuncId, FuncRefId, IrLinkage, IrSignature, IrType, ValueId, Variable,
};

verus! {

/// No construction step of the demo can fail: an error can only come from
/// the host having no backend or from the backend refusing the module.
pub open spec fn backend_error_only(e: CodegenError) -> bool {
    e == CodegenError::UnsupportedHost || e == CodegenError::UnsupportedRelocation || e
        == CodegenError::TypeMismatch
}

/// The exact bytes of the demonstration's string constant:
/// `"Hello, World!"` followed by the nul terminator the C library expects.
pub open spec fn hello_bytes() -> Seq<u8> {
    seq![72u8, 101u8, 108u8, 108u8, 111u8, 44u8, 32u8, 87u8, 111u8, 114u8, 108u8, 100u8, 33u8, 0u8]
}

/// Declares the imported `puts` function and the local string constant, and
/// appends to the current block a call of `puts` with the constant's
/// address. Under the stated freshness every step succeeds: the module gains
/// the import `puts(ptr) -> ()` and the defined local data `.str`, and the
/// current block gains exactly an address materialization followed by the
/// call wired to that address.
#[verifier::rlimit(100)]
pub fn generate_hello_world(module: &mut Module, b: &mut FunctionBuilder) -> (r: Result<
    (),
    CodegenError,
>)
    requires
        old(module).wf(),
        !old(module).has_func("puts"@),
        !old(module).has_data("puts"@),
        !old(module).has_func(".str"@),
        !old(module).has_data(".str"@),
        old(b).wf(),
        old(b).can_append(),
    ensures
        final(module).wf(),
        final(b).wf(),
        r == Result::<(), CodegenError>::Ok(()),
        final(b).can_append(),
        final(b).current == old(b).current,
        final(b).pendings == old(b).pendings,
        final(b).sig == old(b).sig,
        final(b).vars == old(b).vars,
        final(b).blocks@.len() == old(b).blocks@.len(),
        forall|i: int|
            0 <= i < final(b).blocks@.len() && i != old(b).cur() ==> final(b).blocks@[i] == old(
                b,
            ).blocks@[i],
        final(b).blocks@[old(b).cur()].params == old(b).blocks@[old(b).cur()].params,
        final(b).blocks@[old(b).cur()].sealed == old(b).blocks@[old(b).cur()].sealed,
        final(b).blocks@[old(b).cur()].preds == old(b).blocks@[old(b).cur()].preds,
        final(b).blocks@[old(b).cur()].defs == old(b).blocks@[old(b).cur()].defs,
        final(b).blocks@[old(b).cur()].insts@.len() == old(b).blocks@[old(b).cur()].insts@.len()
            + 2,
        forall|j: int|
            0 <= j < old(b).blocks@[old(b).cur()].insts@.len() ==> final(b).blocks@[old(
                b,
            ).cur()].insts@[j] == old(b).blocks@[old(b).cur()].insts@[j],
        final(b).blocks@[old(b).cur()].insts@[old(b).blocks@[old(b).cur()].insts@.len() as int]
            == (Inst::GlobalAddr {
            data_ref: DataRef(old(b).data_refs@.len() as usize),
            ty: old(module).target.spec_pointer_type(),
            result: ValueId(old(b).values@.len() as usize),
        }),
        (final(b).blocks@[old(b).cur()].insts@[old(b).blocks@[old(b).cur()].insts@.len() as int + 1]
            matches Inst::Call { func_ref, args, result } && func_ref == FuncRefId(
            old(b).func_refs@.len() as usize,
        ) && args@ =~= seq![ValueId(old(b).values@.len() as usize)] && result is None),
        final(b).values@.len() == old(b).values@.len() + 1,
        forall|i: int| 0 <= i < old(b).values@.len() ==> final(b).values@[i] == old(b).values@[i],
        final(b).values@.last() == (ValueData {
            ty: old(module).target.spec_pointer_type(),
            def: ValueDef::InstResult { block: old(b).cur() as usize },
        }),
        final(b).func_refs@.len() == old(b).func_refs@.len() + 1,
        forall|i: int|
            0 <= i < old(b).func_refs@.len() ==> final(b).func_refs@[i] == old(b).func_refs@[i],
        final(b).func_refs@.last().0 == FuncId(old(module).funcs@.len() as usize),
        final(b).func_refs@.last().1@.params.len() == 1,
        final(b).func_refs@.last().1@.params[0] == old(module).target.spec_pointer_type(),
        final(b).func_refs@.last().1@.returns.len() == 0,
        final(b).data_refs@ == old(b).data_refs@.push(DataId(old(module).datas@.len() as usize)),
        final(module).target == old(module).target,
        final(module).name == old(module).name,
        final(module).funcs@.len() == old(module).funcs@.len() + 1,
        forall|i: int|
            0 <= i < old(module).funcs@.len() ==> final(module).funcs@[i] == old(module).funcs@[i],
        final(module).funcs@.last().name@ == "puts"@,
        final(module).funcs@.last().linkage == IrLinkage::Import,
        final(module).funcs@.last().body is None,
        final(module).funcs@.last().sig@.params.len() == 1,
        final(module).funcs@.last().sig@.params[0] == old(module).target.spec_pointer_type(),
        final(module).funcs@.last().sig@.returns.len() == 0,
        final(module).funcs@.last().sig@.call_conv == old(module).target.default_call_conv,
        final(module).datas@.len() == old(module).datas@.len() + 1,
        forall|i: int|
            0 <= i < old(module).datas@.len() ==> final(module).datas@[i] == old(module).datas@[i],
        final(module).datas@.last().name@ == ".str"@,
        final(module).datas@.last().linkage == IrLinkage::Local,
        !final(module).datas@.last().writable,
        !final(module).datas@.last().thread_local,
        (final(module).datas@.last().init matches Some(p) && p@ == hello_bytes()),
{
    proof {
        reveal_strlit("puts");
        reveal_strlit(".str");
    }
    let ptr_ty = module.target.pointer_type();
    // the signature of the C library's `puts`: one pointer, no results
    let mut puts_params: Vec<IrType> = Vec::new();
    puts_params.push(ptr_ty);
    let puts_sig = IrSignature {
        params: puts_params,
        returns: Vec::new(),
        call_conv: module.target.default_call_conv,
    };
    proof {
        assert forall|i: int| 0 <= i < "puts"@.len() implies "puts"@[i] != '\0' by {
            reveal_strlit("puts");
        }
        assert(!"puts"@.contains('\0'));
    }
    let pre_funcs = module.funcs.len();
    let ghost puts_sig_view = puts_sig@;
    let puts_id = match module.declare_function("puts", IrLinkage::Import, &puts_sig) {
        Ok(id) => id,
        Err(e) => {
            return Err(e);
        },
    };
    proof {
        assert(puts_id.0 == pre_funcs);
        assert(puts_id.0 + 1 == module.funcs@.len());
        assert(module.funcs@.last() == module.funcs@[puts_id.0 as int]);
        assert(module.funcs@[puts_id.0 as int].sig@ == puts_sig_view);
        assert(puts_sig_view.returns.len() == 0);
    }
    let pre_frefs = b.func_refs.len();
    let puts_ref = match module.declare_func_in_func(puts_id, b) {
        Ok(r) => r,
        Err(e) => {
            return Err(e);
        },
    };
    // the global string constant, nul-terminated for the C library
    proof {
        assert forall|i: int| 0 <= i < ".str"@.len() implies ".str"@[i] != '\0' by {
            reveal_strlit(".str");
        }
        assert(!".str"@.contains('\0'));
        reveal_strlit("puts");
        reveal_strlit(".str");
        assert("puts"@[0] != ".str"@[0]);
        assert("puts"@ != ".str"@);
        assert forall|i: int| 0 <= i < module.funcs@.len() implies (
        #[trigger] module.funcs@[i]).name@ != ".str"@ by {
            if i < old(module).funcs@.len() {
                assert(module.funcs@[i] == old(module).funcs@[i]);
                assert(!old(module).has_func(".str"@));
            } else {
                assert(module.funcs@[i].name@ == "puts"@);
            }
        }
        assert(!module.has_func(".str"@));
        assert(!module.has_data(".str"@));
    }
    let ghost m0 = *module;
    let pre_datas = module.datas.len();
    let str_id = match module.declare_data(".str", IrLinkage::Local, false, false) {
        Ok(id) => id,
        Err(e) => {
            return Err(e);
        },
    };
    let mut text: Vec<u8> = Vec::new();
    text.push(72u8);  // H
    text.push(101u8);  // e
    text.push(108u8);  // l
    text.push(108u8);  // l
    text.push(111u8);  // o
    text.push(44u8);  // ,
    text.push(32u8);
    text.push(87u8);  // W
    text.push(111u8);  // o
    text.push(114u8);  // r
    text.push(108u8);  // l
    text.push(100u8);  // d
    text.push(33u8);  // !
    text.push(0u8);
    proof {
        assert(text@ =~= hello_bytes());
        assert(str_id.0 == pre_datas);
        assert(str_id.0 + 1 == module.datas@.len());
        assert(module.datas@.last() == module.datas@[str_id.0 as int]);
        assert(module.datas@[str_id.0 as int].init is None);
        assert(module.datas@[str_id.0 as int].linkage != IrLinkage::Import);
    }
    match module.define_data(str_id, text) {
        Ok(()) => {},
        Err(e) => {
            return Err(e);
        },
    }
    let str_ref = match module.declare_data_in_func(str_id, b) {
        Ok(r) => r,
        Err(e) => {
            return Err(e);
        },
    };
    proof {
        assert(puts_ref.0 == pre_frefs);
        assert(puts_ref.0 < b.func_refs@.len());
        assert(b.func_refs@[puts_ref.0 as int].1@.returns.len() == 0);
    }
    let pre_vals = b.values.len();
    let pre_insts = b.blocks[b.current.unwrap()].insts.len();
    let string_val = b.ins_global_addr(str_ref, ptr_ty);
    let mut call_args: Vec<ValueId> = Vec::new();
    call_args.push(string_val);
    proof {
        assert(string_val == ValueId(pre_vals));
        assert(call_args@ =~= seq![ValueId(pre_vals)]);
    }
    b.ins_call(puts_ref, call_args);
    Ok(())
}

/// The finished body of the demonstration's entry function: one block whose
/// two pointer parameters are the entry arguments, which materializes the
/// string constant's address, calls the referenced import with exactly that
/// address, and returns the result of the integer constant 42 — not either
/// argument.
pub open spec fn demo_body_shape(fb: crate::ir::FuncBody, ptr: IrType) -> bool {
    &&& fb.blocks@.len() == 1
    &&& fb.blocks@[0].params@.len() == 2
    &&& fb.blocks@[0].params@[0] == (ValueId(0), ptr)
    &&& fb.blocks@[0].params@[1] == (ValueId(1), ptr)
    &&& fb.blocks@[0].insts@.len() == 4
    &&& fb.blocks@[0].insts@[0] == (Inst::GlobalAddr {
        data_ref: DataRef(0),
        ty: ptr,
        result: ValueId(2),
    })
    &&& (fb.blocks@[0].insts@[1] matches Inst::Call { func_ref, args, result } && func_ref
        == FuncRefId(0) && args@ =~= seq![ValueId(2)] && result is None)
    &&& fb.blocks@[0].insts@[2] == (Inst::Iconst { ty: ptr, imm: 42, result: ValueId(3) })
    &&& (fb.blocks@[0].insts@[3] matches Inst::Return { args } && args@ =~= seq![ValueId(3)])
    &&& fb.values@ =~= seq![ptr, ptr, ptr, ptr]
    &&& fb.func_refs@.len() == 1
    &&& fb.func_refs@[0].0 == FuncId(1)
    &&& fb.func_refs@[0].1@.params.len() == 1
    &&& fb.func_refs@[0].1@.params[0] == ptr
    &&& fb.func_refs@[0].1@.returns.len() == 0
    &&& fb.data_refs@ =~= seq![DataId(0)]
}

/// The symbol table that the demonstration builds: an exported
/// `main(ptr, ptr) -> ptr`, defined; an imported `puts(ptr) -> ()`; and the
/// defined local read-only data `.str` holding the nul-terminated greeting.
/// The target is resolved with position-independent code enabled.
pub open spec fn demo_module_shape(m: Module) -> bool {
    let ptr = m.target.spec_pointer_type();
    &&& m.target.pic == true
    &&& m.funcs@.len() == 2
    &&& m.funcs@[0].name@ == "main"@
    &&& m.funcs@[0].linkage == IrLinkage::Export
    &&& m.funcs@[0].sig@.params.len() == 2
    &&& m.funcs@[0].sig@.params[0] == ptr
    &&& m.funcs@[0].sig@.params[1] == ptr
    &&& m.funcs@[0].sig@.returns.len() == 1
    &&& m.funcs@[0].sig@.returns[0] == ptr
    &&& m.funcs@[0].sig@.call_conv == m.target.default_call_conv
    &&& (m.funcs@[0].body matches Some(fb) && fb.sig@ == m.funcs@[0].sig@ && crate::ir::body_wf(
        fb,
    ) && demo_body_shape(fb, ptr))
    &&& m.funcs@[1].name@ == "puts"@
    &&& m.funcs@[1].linkage == IrLinkage::Import
    &&& m.funcs@[1].body is None
    &&& m.funcs@[1].sig@.params.len() == 1
    &&& m.funcs@[1].sig@.params[0] == ptr
    &&& m.funcs@[1].sig@.returns.len() == 0
    &&& m.funcs@[1].sig@.call_conv == m.target.default_call_conv
    &&& m.datas@.len() == 1
    &&& m.datas@[0].name@ == ".str"@
    &&& m.datas@[0].linkage == IrLinkage::Local
    &&& !m.datas@[0].writable
    &&& !m.datas@[0].thread_local
    &&& (m.datas@[0].init matches Some(p) && p@ == hello_bytes())
}

/// Builds the demonstration module: an exported `main(ptr, ptr) -> ptr`
/// whose single sealed entry block calls the imported `puts` with the
/// address of the local string constant and returns the constant 42. The
/// construction cannot fail: the one possible error reports that the host
/// has no backend.
#[verifier::rlimit(100)]
pub fn build_demo_module() -> (r: Result<Module, CodegenError>)
    ensures
        r matches Err(e) ==> e == CodegenError::UnsupportedHost,
        r matches Ok(m) ==> m.wf() && !m.spec_has_unresolved() && demo_module_shape(m),
{
    let host = detect_host();
    let target = match resolve(&host, &TargetFlags { pic: true }) {
        Ok(t) => t,
        Err(e) => {
            return Err(e);
        },
    };
    let mut module = Module::new(target, "my_awesome_program");
    let ptr_ty = target.pointer_type();

    let mut main_params: Vec<IrType> = Vec::new();
    main_params.push(ptr_ty);
    main_params.push(ptr_ty);
    let mut main_returns: Vec<IrType> = Vec::new();
    main_returns.push(ptr_ty);
    let cmain_sig = IrSignature {
        params: main_params,
        returns: main_returns,
        call_conv: target.default_call_conv,
    };
    proof {
        assert forall|i: int| 0 <= i < "main"@.len() implies "main"@[i] != '\0' by {
            reveal_strlit("main");
        }
        assert(!"main"@.contains('\0'));
    }
    let cmain_id = match module.declare_function("main", IrLinkage::Export, &cmain_sig) {
        Ok(id) => id,
        Err(e) => {
            return Err(e);
        },
    };
    let mut b = FunctionBuilder::new(cmain_sig.duplicate());

    let entry_block = b.create_block();
    match b.switch_to_block(entry_block) {
        Ok(()) => {},
        Err(e) => {
            return Err(e);
        },
    }
    // the entry block has no predecessor branches to wait for
    match b.seal_block(entry_block) {
        Ok(()) => {},
        Err(e) => {
            return Err(e);
        },
    }
    let arg_argc = match b.append_block_param(entry_block, ptr_ty) {
        Ok(v) => v,
        Err(e) => {
            return Err(e);
        },
    };
    let arg_argv = match b.append_block_param(entry_block, ptr_ty) {
        Ok(v) => v,
        Err(e) => {
            return Err(e);
        },
    };

    let var_argc = Variable(0);
    b.declare_var(var_argc, ptr_ty);
    match b.def_var(var_argc, arg_argc) {
        Ok(()) => {},
        Err(e) => {
            return Err(e);
        },
    }
    let var_argv = Variable(1);
    b.declare_var(var_argv, ptr_ty);
    match b.def_var(var_argv, arg_argv) {
        Ok(()) => {},
        Err(e) => {
            return Err(e);
        },
    }

    proof {
        reveal_strlit("main");
        reveal_strlit("puts");
        reveal_strlit(".str");
        assert("main"@[0] != "puts"@[0]);
        assert("main"@ != "puts"@);
        assert("main"@[0] != ".str"@[0]);
        assert("main"@ != ".str"@);
        assert(!module.has_func("puts"@));
        assert(!module.has_data("puts"@));
        assert(!module.has_func(".str"@));
        assert(!module.has_data(".str"@));
    }
    match generate_hello_world(&mut module, &mut b) {
        Ok(()) => {},
        Err(e) => {
            return Err(e);
        },
    }

    let exit_code = b.ins_iconst(ptr_ty, 42);
    let mut ret_args: Vec<ValueId> = Vec::new();
    ret_args.push(exit_code);
    proof {
        assert(exit_code == ValueId(3usize));
        assert(ret_args@ =~= seq![ValueId(3usize)]);
    }
    b.ins_return(ret_args);

    b.seal_all_blocks();
    proof {
        assert(b.pendings@.len() == 0);
        assert(b.blocks@.len() == 1);
        assert(b.blocks@[0].params@.len() == 2);
        assert(b.blocks@[0].params@[0] == (ValueId(0usize), ptr_ty));
        assert(b.blocks@[0].params@[1] == (ValueId(1usize), ptr_ty));
        assert(b.blocks@[0].insts@.len() == 4);
        assert(b.blocks@[0].insts@[0] == (Inst::GlobalAddr {
            data_ref: DataRef(0usize),
            ty: ptr_ty,
            result: ValueId(2usize),
        }));
        assert(b.blocks@[0].insts@[1] matches Inst::Call { func_ref, args, result } && func_ref
            == FuncRefId(0usize) && args@ =~= seq![ValueId(2usize)] && result is None);
        assert(b.blocks@[0].insts@[2] == (Inst::Iconst {
            ty: ptr_ty,
            imm: 42,
            result: ValueId(3usize),
        }));
        assert(b.blocks@[0].insts@[3] matches Inst::Return { args } && args@ =~= seq![
            ValueId(3usize),
        ]);
        assert(b.values@.len() == 4);
        assert(b.values@[0].ty == ptr_ty);
        assert(b.values@[1].ty == ptr_ty);
        assert(b.values@[2].ty == ptr_ty);
        assert(b.values@[3].ty == ptr_ty);
        assert(crate::builder::val_tys(b.values@).len() == 4);
        assert(crate::builder::val_tys(b.values@)[0] == ptr_ty);
        assert(crate::builder::val_tys(b.values@)[1] == ptr_ty);
        assert(crate::builder::val_tys(b.values@)[2] == ptr_ty);
        assert(crate::builder::val_tys(b.values@)[3] == ptr_ty);
        assert(crate::builder::val_tys(b.values@) =~= seq![ptr_ty, ptr_ty, ptr_ty, ptr_ty]);
        assert(b.func_refs@.len() == 1);
        assert(b.func_refs@[0].1@.params.len() == 1);
        assert(b.func_refs@[0].1@.params[0] == ptr_ty);
        assert(b.func_refs@[0].1@.returns.len() == 0);
        assert(b.data_refs@ =~= seq![DataId(0usize)]);
        assert(b.sig@.params =~= seq![ptr_ty, ptr_ty]);
        assert(b.sig@.returns =~= seq![ptr_ty]);
        assert(b.pendings@.len() == 0);
        assert forall|bl: int| 0 <= bl < b.blocks@.len() implies (
        #[trigger] b.blocks@[bl]).sealed by {}
        assert forall|bl: int|
            0 <= bl < b.blocks@.len() implies crate::builder::spec_terminated(
            #[trigger] b.blocks@[bl],
        ) by {}
        // the session as it stands type-checks: every body carrying exactly
        // this content is well formed, so finalization must succeed
        assert forall|body2: crate::ir::FuncBody| #[trigger] crate::builder::body_like(
            b,
            body2,
        ) implies crate::ir::body_wf(body2) by {
            assert(body2.blocks@.len() == 1);
            assert(body2.values@ =~= seq![ptr_ty, ptr_ty, ptr_ty, ptr_ty]);
            assert(body2.blocks@[0].params@ == b.blocks@[0].params@);
            assert(crate::ir::param_types(body2.blocks@[0].params@) =~= body2.sig.params@);
            assert(body2.blocks@[0].insts@.len() == 4);
            assert(crate::builder::inst_like(
                b.blocks@[0].insts@[0],
                body2.blocks@[0].insts@[0],
            ));
            assert(crate::builder::inst_like(
                b.blocks@[0].insts@[1],
                body2.blocks@[0].insts@[1],
            ));
            assert(crate::builder::inst_like(
                b.blocks@[0].insts@[2],
                body2.blocks@[0].insts@[2],
            ));
            assert(crate::builder::inst_like(
                b.blocks@[0].insts@[3],
                body2.blocks@[0].insts@[3],
            ));
            assert(crate::ir::inst_wf(body2, body2.blocks@[0].insts@[0]));
            assert(crate::ir::inst_wf(body2, body2.blocks@[0].insts@[1]));
            assert(crate::ir::inst_wf(body2, body2.blocks@[0].insts@[2]));
            assert(crate::ir::inst_wf(body2, body2.blocks@[0].insts@[3]));
            assert(crate::ir::block_wf(body2, 0));
            assert forall|bx: int| 0 <= bx < body2.blocks@.len() implies crate::ir::block_wf(
                body2,
                bx,
            ) by {
                assert(bx == 0);
            }
        }
        assert(crate::builder::assembles_wf(b));
    }
    let ghost bfin = b;
    let body = match b.finalize() {
        Ok(body) => body,
        Err(e) => {
            return Err(e);
        },
    };
    proof {
        assert(crate::builder::inst_like(bfin.blocks@[0].insts@[0], body.blocks@[0].insts@[0]));
        assert(crate::builder::inst_like(bfin.blocks@[0].insts@[1], body.blocks@[0].insts@[1]));
        assert(crate::builder::inst_like(bfin.blocks@[0].insts@[2], body.blocks@[0].insts@[2]));
        assert(crate::builder::inst_like(bfin.blocks@[0].insts@[3], body.blocks@[0].insts@[3]));
        assert(demo_body_shape(body, ptr_ty));
    }
    match module.define_function(cmain_id, body) {
        Ok(()) => {},
        Err(e) => {
            return Err(e);
        },
    }
    proof {
        assert(module.funcs@.len() == 2);
        assert(module.funcs@[0].body is Some);
        assert(module.funcs@[1].linkage == IrLinkage::Import);
        assert(module.datas@.len() == 1);
        assert(module.datas@[0].init is Some);
        assert forall|i: int|
            0 <= i < module.funcs@.len() implies !(((#[trigger] module.funcs@[i]).linkage
            == IrLinkage::Local || module.funcs@[i].linkage == IrLinkage::Export)
            && module.funcs@[i].body is None) by {
            if i == 0 {
                assert(module.funcs@[0].body is Some);
            } else {
                assert(module.funcs@[i].linkage == IrLinkage::Import);
            }
        }
        assert forall|i: int|
            0 <= i < module.datas@.len() implies !(((#[trigger] module.datas@[i]).linkage
            == IrLinkage::Local || module.datas@[i].linkage == IrLinkage::Export)
            && module.datas@[i].init is None) by {
            assert(module.datas@[0].init is Some);
        }
        assert(!module.spec_has_unresolved());
        assert(demo_module_shape(module));
    }
    Ok(module)
}

/// Builds the demonstration module and emits its relocatable object bytes.
/// The construction cannot fail; an error can only report that the host has
/// no backend or that the backend refused the module.
pub fn generate_code() -> (r: Result<Vec<u8>, CodegenError>)
    ensures
        r matches Err(e) ==> backend_error_only(e),
{
    let module = match build_demo_module() {
        Ok(m) => m,
        Err(e) => {
            return Err(e);
        },
    };
    module.finish()
}

} // verus!
