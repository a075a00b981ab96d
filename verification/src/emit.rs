//! Object emitter: walks a finished module's symbol table, replays every
//! declaration and definition against the backend through the trusted
//! wrappers, and serializes the relocatable object bytes.

use vstd::prelude::*;

use cranelift::codegen::ir;
use cranelift_object::ObjectModule;

use crate::backend;
use crate::ir::{FuncBody, Inst};
use crate::module::Module;
use crate::target::triple_name;
use crate::types::{CodegenError, IrLinkage, IrSignature, IrType};

verus! {

/// Builds the backend signature corresponding to `sig`: the parameter and
/// return types handed to the backend are exactly the declaration's.
fn build_cl_sig(sig: &IrSignature) -> (r: ir::Signature)
    ensures
        backend::cl_sig_params(r) == sig.params@,
        backend::cl_sig_returns(r) == sig.returns@,
        backend::cl_sig_conv(r) == sig.call_conv,
{
    let mut s = backend::sig_new(sig.call_conv);
    let mut i: usize = 0;
    while i < sig.params.len()
        invariant
            i <= sig.params@.len(),
            backend::cl_sig_params(s) == sig.params@.take(i as int),
            backend::cl_sig_returns(s) == Seq::<IrType>::empty(),
            backend::cl_sig_conv(s) == sig.call_conv,
        decreases sig.params@.len() - i,
    {
        backend::sig_push_param(&mut s, sig.params[i]);
        proof {
            assert(backend::cl_sig_params(s) =~= sig.params@.take(i + 1));
        }
        i = i + 1;
    }
    proof {
        assert(backend::cl_sig_params(s) =~= sig.params@);
    }
    let mut j: usize = 0;
    while j < sig.returns.len()
        invariant
            j <= sig.returns@.len(),
            backend::cl_sig_params(s) == sig.params@,
            backend::cl_sig_returns(s) == sig.returns@.take(j as int),
            backend::cl_sig_conv(s) == sig.call_conv,
        decreases sig.returns@.len() - j,
    {
        backend::sig_push_return(&mut s, sig.returns[j]);
        proof {
            assert(backend::cl_sig_returns(s) =~= sig.returns@.take(j + 1));
        }
        j = j + 1;
    }
    proof {
        assert(backend::cl_sig_returns(s) =~= sig.returns@);
    }
    s
}

/// Replays one finished body into a backend function under the declared
/// symbol `fid`. Every operand is checked against the tables before it is
/// handed to the backend; a body that escapes them fails with
/// `TypeMismatch`.
#[verifier::loop_isolation(false)]
fn build_function(
    om: &mut ObjectModule,
    fid: u32,
    body: &FuncBody,
    fids: &Vec<u32>,
    dids: &Vec<u32>,
) -> (r: Result<ir::Function, CodegenError>)
    requires
        backend::om_fid_valid(*old(om), fid),
        forall|k: int| 0 <= k < fids@.len() ==> backend::om_fid_valid(*old(om), #[trigger] fids@[k]),
        forall|k: int| 0 <= k < dids@.len() ==> backend::om_did_valid(*old(om), #[trigger] dids@[k]),
        body.sig.call_conv == backend::om_conv(*old(om)),
    ensures
        backend::om_same(*old(om), *final(om)),
        r matches Ok(f2) ==> backend::fn_convs_only(f2, backend::om_conv(*old(om))),
        r matches Err(e) ==> (e == CodegenError::TypeMismatch),
{
    let cl_sig = build_cl_sig(&body.sig);
    let mut f = backend::fn_new(fid, cl_sig);
    proof {
        assert(backend::fn_convs_only(f, backend::om_conv(*old(om))));
    }
    // blocks
    let mut cl_blocks: Vec<ir::Block> = Vec::new();
    let mut bi: usize = 0;
    while bi < body.blocks.len()
        invariant
            backend::om_same(*old(om), *om),
            backend::fn_convs_only(f, backend::om_conv(*old(om))),
            bi <= body.blocks@.len(),
            cl_blocks@.len() == bi,
            forall|k: int|
                0 <= k < cl_blocks@.len() ==> backend::blk_num(#[trigger] cl_blocks@[k])
                    < backend::fn_blocks(f),
        decreases body.blocks@.len() - bi,
    {
        let b = backend::fn_make_block(&mut f);
        cl_blocks.push(b);
        bi = bi + 1;
    }
    // references to module symbols
    let mut cl_frefs: Vec<ir::FuncRef> = Vec::new();
    let mut fi: usize = 0;
    while fi < body.func_refs.len()
        invariant
            backend::om_same(*old(om), *om),
            backend::fn_convs_only(f, backend::om_conv(*old(om))),
            forall|k: int|
                0 <= k < fids@.len() ==> backend::om_fid_valid(*om, #[trigger] fids@[k]),
            forall|k: int|
                0 <= k < dids@.len() ==> backend::om_did_valid(*om, #[trigger] dids@[k]),
            forall|k: int|
                0 <= k < cl_blocks@.len() ==> backend::blk_num(#[trigger] cl_blocks@[k])
                    < backend::fn_blocks(f),
            forall|k: int|
                0 <= k < cl_frefs@.len() ==> backend::fref_num(#[trigger] cl_frefs@[k])
                    < backend::fn_frefs(f),
        decreases body.func_refs@.len() - fi,
    {
        let target = body.func_refs[fi].0;
        if target.0 >= fids.len() {
            return Err(CodegenError::TypeMismatch);
        }
        let ghost om_before = *om;
        let fr = backend::om_func_in_func(om, fids[target.0], &mut f);
        proof {
            lemma_om_same_trans(*old(om), om_before, *om);
        }
        cl_frefs.push(fr);
        fi = fi + 1;
    }
    let mut cl_gvs: Vec<ir::GlobalValue> = Vec::new();
    let mut di: usize = 0;
    while di < body.data_refs.len()
        invariant
            backend::om_same(*old(om), *om),
            backend::fn_convs_only(f, backend::om_conv(*old(om))),
            forall|k: int|
                0 <= k < dids@.len() ==> backend::om_did_valid(*om, #[trigger] dids@[k]),
            forall|k: int|
                0 <= k < cl_blocks@.len() ==> backend::blk_num(#[trigger] cl_blocks@[k])
                    < backend::fn_blocks(f),
            forall|k: int|
                0 <= k < cl_frefs@.len() ==> backend::fref_num(#[trigger] cl_frefs@[k])
                    < backend::fn_frefs(f),
            forall|k: int|
                0 <= k < cl_gvs@.len() ==> backend::gv_num(#[trigger] cl_gvs@[k])
                    < backend::fn_gvs(f),
        decreases body.data_refs@.len() - di,
    {
        let target = body.data_refs[di];
        if target.0 >= dids.len() {
            return Err(CodegenError::TypeMismatch);
        }
        let gv = backend::om_data_in_func(om, dids[target.0], &mut f);
        cl_gvs.push(gv);
        di = di + 1;
    }
    // values: parameters and instruction results fill this map as the walk
    // defines them; operands must already be present
    let mut vals: Vec<Option<ir::Value>> = Vec::new();
    let mut vi: usize = 0;
    while vi < body.values.len()
        invariant
            vi <= body.values@.len(),
            vals@.len() == vi,
            forall|k: int| 0 <= k < vals@.len() ==> (#[trigger] vals@[k]) is None,
        decreases body.values@.len() - vi,
    {
        vals.push(None);
        vi = vi + 1;
    }
    let mut wb: usize = 0;
    while wb < body.blocks.len()
        invariant
            backend::om_same(*old(om), *om),
            backend::fn_convs_only(f, backend::om_conv(*old(om))),
            cl_blocks@.len() == body.blocks@.len(),
            vals@.len() == body.values@.len(),
            forall|k: int|
                0 <= k < cl_blocks@.len() ==> backend::blk_num(#[trigger] cl_blocks@[k])
                    < backend::fn_blocks(f),
            forall|k: int|
                0 <= k < cl_frefs@.len() ==> backend::fref_num(#[trigger] cl_frefs@[k])
                    < backend::fn_frefs(f),
            forall|k: int|
                0 <= k < cl_gvs@.len() ==> backend::gv_num(#[trigger] cl_gvs@[k])
                    < backend::fn_gvs(f),
            forall|k: int|
                0 <= k < vals@.len() ==> ((#[trigger] vals@[k]) matches Some(v) ==> backend::val_num(
                    v,
                ) < backend::fn_vals(f)),
        decreases body.blocks@.len() - wb,
    {
        let cl_b = cl_blocks[wb];
        // parameters of the block
        let nparams = body.blocks[wb].params.len();
        let mut pj: usize = 0;
        while pj < nparams
            invariant
                backend::om_same(*old(om), *om),
                backend::fn_convs_only(f, backend::om_conv(*old(om))),
                wb < body.blocks@.len(),
                cl_blocks@.len() == body.blocks@.len(),
                vals@.len() == body.values@.len(),
                nparams == body.blocks@[wb as int].params@.len(),
                cl_b == cl_blocks@[wb as int],
                backend::blk_num(cl_b) < backend::fn_blocks(f),
                forall|k: int|
                    0 <= k < cl_blocks@.len() ==> backend::blk_num(#[trigger] cl_blocks@[k])
                        < backend::fn_blocks(f),
                forall|k: int|
                    0 <= k < cl_frefs@.len() ==> backend::fref_num(#[trigger] cl_frefs@[k])
                        < backend::fn_frefs(f),
                forall|k: int|
                    0 <= k < cl_gvs@.len() ==> backend::gv_num(#[trigger] cl_gvs@[k])
                        < backend::fn_gvs(f),
                forall|k: int|
                    0 <= k < vals@.len() ==> ((#[trigger] vals@[k]) matches Some(v)
                        ==> backend::val_num(v) < backend::fn_vals(f)),
            decreases nparams - pj,
        {
            let (pv, pty) = body.blocks[wb].params[pj];
            if pv.0 >= vals.len() {
                return Err(CodegenError::TypeMismatch);
            }
            let cv = backend::fn_append_param(&mut f, cl_b, pty);
            vals.set(pv.0, Some(cv));
            pj = pj + 1;
        }
        // instructions of the block
        let ninsts = body.blocks[wb].insts.len();
        let mut ii: usize = 0;
        while ii < ninsts
            invariant
                backend::om_same(*old(om), *om),
                backend::fn_convs_only(f, backend::om_conv(*old(om))),
                forall|k: int|
                    0 <= k < fids@.len() ==> backend::om_fid_valid(*om, #[trigger] fids@[k]),
                forall|k: int|
                    0 <= k < dids@.len() ==> backend::om_did_valid(*om, #[trigger] dids@[k]),
                wb < body.blocks@.len(),
                cl_blocks@.len() == body.blocks@.len(),
                vals@.len() == body.values@.len(),
                ninsts == body.blocks@[wb as int].insts@.len(),
                cl_b == cl_blocks@[wb as int],
                backend::blk_num(cl_b) < backend::fn_blocks(f),
                forall|k: int|
                    0 <= k < cl_blocks@.len() ==> backend::blk_num(#[trigger] cl_blocks@[k])
                        < backend::fn_blocks(f),
                forall|k: int|
                    0 <= k < cl_frefs@.len() ==> backend::fref_num(#[trigger] cl_frefs@[k])
                        < backend::fn_frefs(f),
                forall|k: int|
                    0 <= k < cl_gvs@.len() ==> backend::gv_num(#[trigger] cl_gvs@[k])
                        < backend::fn_gvs(f),
                forall|k: int|
                    0 <= k < vals@.len() ==> ((#[trigger] vals@[k]) matches Some(v)
                        ==> backend::val_num(v) < backend::fn_vals(f)),
            decreases ninsts - ii,
        {
            match &body.blocks[wb].insts[ii] {
                Inst::Iconst { ty, imm, result } => {
                    if result.0 >= vals.len() {
                        return Err(CodegenError::TypeMismatch);
                    }
                    let cv = backend::ins_iconst(&mut f, cl_b, *ty, *imm);
                    vals.set(result.0, Some(cv));
                },
                Inst::Call { func_ref, args, result } => {
                    if func_ref.0 >= cl_frefs.len() {
                        return Err(CodegenError::TypeMismatch);
                    }
                    let cl_args = match gather(&vals, args, &f) {
                        Ok(a) => a,
                        Err(e) => {
                            return Err(e);
                        },
                    };
                    let res = backend::ins_call(&mut f, cl_b, cl_frefs[func_ref.0], &cl_args);
                    match result {
                        Option::Some(rv) => {
                            if rv.0 >= vals.len() {
                                return Err(CodegenError::TypeMismatch);
                            }
                            match res {
                                Option::Some(cv) => {
                                    vals.set(rv.0, Some(cv));
                                },
                                Option::None => {
                                    return Err(CodegenError::TypeMismatch);
                                },
                            }
                        },
                        Option::None => {},
                    }
                },
                Inst::GlobalAddr { data_ref, ty, result } => {
                    if data_ref.0 >= cl_gvs.len() {
                        return Err(CodegenError::TypeMismatch);
                    }
                    if result.0 >= vals.len() {
                        return Err(CodegenError::TypeMismatch);
                    }
                    let cv = backend::ins_global_addr(&mut f, cl_b, cl_gvs[data_ref.0], *ty);
                    vals.set(result.0, Some(cv));
                },
                Inst::Return { args } => {
                    let cl_args = match gather(&vals, args, &f) {
                        Ok(a) => a,
                        Err(e) => {
                            return Err(e);
                        },
                    };
                    backend::ins_return(&mut f, cl_b, &cl_args);
                },
                Inst::Jump { target, args } => {
                    if target.0 >= cl_blocks.len() {
                        return Err(CodegenError::TypeMismatch);
                    }
                    let cl_args = match gather(&vals, args, &f) {
                        Ok(a) => a,
                        Err(e) => {
                            return Err(e);
                        },
                    };
                    backend::ins_jump(&mut f, cl_b, cl_blocks[target.0], &cl_args);
                },
                Inst::Branch { cond, then_target, then_args, else_target, else_args } => {
                    if cond.0 >= vals.len() {
                        return Err(CodegenError::TypeMismatch);
                    }
                    let cl_cond = match vals[cond.0] {
                        Option::Some(v) => v,
                        Option::None => {
                            return Err(CodegenError::TypeMismatch);
                        },
                    };
                    if then_target.0 >= cl_blocks.len() || else_target.0 >= cl_blocks.len() {
                        return Err(CodegenError::TypeMismatch);
                    }
                    let cl_then = match gather(&vals, then_args, &f) {
                        Ok(a) => a,
                        Err(e) => {
                            return Err(e);
                        },
                    };
                    let cl_else = match gather(&vals, else_args, &f) {
                        Ok(a) => a,
                        Err(e) => {
                            return Err(e);
                        },
                    };
                    backend::ins_brif(
                        &mut f,
                        cl_b,
                        cl_cond,
                        cl_blocks[then_target.0],
                        &cl_then,
                        cl_blocks[else_target.0],
                        &cl_else,
                    );
                },
            }
            ii = ii + 1;
        }
        wb = wb + 1;
    }
    Ok(f)
}

/// Collects the backend values of an argument list; an argument that was
/// never defined fails with `TypeMismatch`.
fn gather(vals: &Vec<Option<ir::Value>>, args: &Vec<crate::types::ValueId>, f: &ir::Function) -> (r:
    Result<Vec<ir::Value>, CodegenError>)
    requires
        forall|k: int|
            0 <= k < vals@.len() ==> ((#[trigger] vals@[k]) matches Some(v) ==> backend::val_num(v)
                < backend::fn_vals(*f)),
    ensures
        r matches Ok(a) ==> forall|k: int|
            0 <= k < a@.len() ==> backend::val_num(#[trigger] a@[k]) < backend::fn_vals(*f),
        r matches Err(e) ==> e == CodegenError::TypeMismatch,
{
    let mut out: Vec<ir::Value> = Vec::new();
    let mut i: usize = 0;
    while i < args.len()
        invariant
            i <= args@.len(),
            forall|k: int|
                0 <= k < vals@.len() ==> ((#[trigger] vals@[k]) matches Some(v)
                    ==> backend::val_num(v) < backend::fn_vals(*f)),
            forall|k: int|
                0 <= k < out@.len() ==> backend::val_num(#[trigger] out@[k]) < backend::fn_vals(
                    *f,
                ),
        decreases args@.len() - i,
    {
        let a = args[i];
        if a.0 >= vals.len() {
            return Err(CodegenError::TypeMismatch);
        }
        match vals[a.0] {
            Option::Some(v) => out.push(v),
            Option::None => {
                return Err(CodegenError::TypeMismatch);
            },
        }
        i = i + 1;
    }
    Ok(out)
}

/// Declaration states compose.
pub proof fn lemma_om_same_trans(a: ObjectModule, b: ObjectModule, c: ObjectModule)
    requires
        backend::om_same(a, b),
        backend::om_same(b, c),
    ensures
        backend::om_same(a, c),
{
}

/// Serializes a finished module, every required definition of which is
/// present, into relocatable object bytes. Only the backend can refuse.
#[verifier::loop_isolation(false)]
pub(crate) fn emit_module(m: &Module) -> (r: Result<Vec<u8>, CodegenError>)
    requires
        m.wf(),
        !m.spec_has_unresolved(),
    ensures
        r matches Err(e) ==> (e == CodegenError::UnsupportedHost || e
            == CodegenError::UnsupportedRelocation || e == CodegenError::TypeMismatch),
{
    // the backend compiles only its own calling convention: refuse a
    // configuration that does not record it
    if !crate::target::backend_ready(&m.target) {
        return Err(CodegenError::UnsupportedHost);
    }
    let triple = triple_name(&m.target);
    let mut om = match backend::om_new(triple, m.target.pic, m.name.as_str()) {
        Ok(om) => om,
        Err(e) => {
            return Err(e);
        },
    };
    proof {
        assert(backend::om_conv(om) == m.target.default_call_conv);
    }
    // declare every function
    let mut fids: Vec<u32> = Vec::new();
    let mut i: usize = 0;
    while i < m.funcs.len()
        invariant
            backend::om_conv(om) == m.target.default_call_conv,
            fids@.len() == i,
            i <= m.funcs@.len(),
            forall|k: int|
                0 <= k < i ==> backend::om_fid_valid(om, #[trigger] fids@[k])
                    && (backend::om_fid_pending(om, fids@[k]) == (m.funcs@[k].linkage
                    == IrLinkage::Local || m.funcs@[k].linkage == IrLinkage::Export)),
            forall|a: int, b: int| 0 <= a < b < i ==> #[trigger] fids@[a] != #[trigger] fids@[b],
            forall|id: u32| #[trigger] backend::om_fid_valid(om, id) ==> exists|k: int|
                0 <= k < i && fids@[k] == id,
            forall|id: u32| !backend::om_did_valid(om, id),
            forall|x: Seq<char>| #[trigger] backend::om_names(om).contains(x) ==> exists|k: int|
                0 <= k < i && m.funcs@[k].name@ == x,
        decreases m.funcs@.len() - i,
    {
        proof {
            if backend::om_names(om).contains(m.funcs@[i as int].name@) {
                let k = choose|k: int|
                    0 <= k < i && m.funcs@[k].name@ == m.funcs@[i as int].name@;
                assert(false);
            }
        }
        let cl_sig = build_cl_sig(&m.funcs[i].sig);
        proof {
            // the arity, types and convention handed to the backend are the
            // declaration's
            assert(backend::cl_sig_params(cl_sig) == m.funcs@[i as int].sig@.params);
            assert(backend::cl_sig_returns(cl_sig) == m.funcs@[i as int].sig@.returns);
            assert(m.funcs@[i as int].sig@.call_conv == m.target.default_call_conv);
            assert(backend::cl_sig_conv(cl_sig) == backend::om_conv(om));
        }
        let ghost om_prev = om;
        let ghost fids_prev = fids@;
        let fid = backend::om_declare_func(
            &mut om,
            m.funcs[i].name.as_str(),
            m.funcs[i].linkage,
            &cl_sig,
        );
        fids.push(fid);
        proof {
            assert forall|k: int|
                0 <= k < i + 1 implies backend::om_fid_valid(om, #[trigger] fids@[k]) && (
            backend::om_fid_pending(om, fids@[k]) == (m.funcs@[k].linkage == IrLinkage::Local
                || m.funcs@[k].linkage == IrLinkage::Export)) by {
                if k < i {
                    assert(fids@[k] == fids_prev[k]);
                    assert(backend::om_fid_valid(om_prev, fids_prev[k]));
                    assert(backend::om_fid_valid(om, fids@[k]));
                    assert(backend::om_fid_pending(om, fids@[k]) <==> backend::om_fid_pending(
                        om_prev,
                        fids_prev[k],
                    ));
                    assert(backend::om_fid_pending(om_prev, fids_prev[k]) == (m.funcs@[k].linkage
                        == IrLinkage::Local || m.funcs@[k].linkage == IrLinkage::Export));
                } else {
                    assert(fids@[k] == fid);
                    assert(backend::om_fid_valid(om, fid));
                    assert(backend::om_fid_pending(om, fid) == (m.funcs@[i as int].linkage
                        == IrLinkage::Local || m.funcs@[i as int].linkage == IrLinkage::Export));
                }
            }
            assert forall|a: int, b: int| 0 <= a < b < i + 1 implies #[trigger] fids@[a] != #[trigger] fids@[b] by {
                if b == i {
                    assert(backend::om_fid_valid(om_prev, fids_prev[a]));
                    assert(!backend::om_fid_valid(om_prev, fid));
                }
            }
            assert forall|id: u32| #[trigger] backend::om_fid_valid(om, id) implies exists|k: int|
                0 <= k < i + 1 && fids@[k] == id by {
                if id == fid {
                    assert(fids@[i as int] == id);
                } else {
                    assert(backend::om_fid_valid(om_prev, id));
                    let k = choose|k: int| 0 <= k < i && fids_prev[k] == id;
                    assert(fids@[k] == id);
                }
            }
            assert forall|x: Seq<char>| #[trigger] backend::om_names(om).contains(x) implies exists|
                k: int,
            | 0 <= k < i + 1 && m.funcs@[k].name@ == x by {
                if x == m.funcs@[i as int].name@ {
                    assert(m.funcs@[i as int].name@ == x);
                } else {
                    assert(backend::om_names(om_prev).contains(x));
                    let k = choose|k: int| 0 <= k < i && m.funcs@[k].name@ == x;
                }
            }
        }
        i = i + 1;
    }
    // declare and define every data object
    let mut dids: Vec<u32> = Vec::new();
    let mut j: usize = 0;
    while j < m.datas.len()
        invariant
            backend::om_conv(om) == m.target.default_call_conv,
            dids@.len() == j,
            j <= m.datas@.len(),
            fids@.len() == m.funcs@.len(),
            forall|k: int|
                0 <= k < fids@.len() ==> backend::om_fid_valid(om, #[trigger] fids@[k])
                    && (backend::om_fid_pending(om, fids@[k]) == (m.funcs@[k].linkage
                    == IrLinkage::Local || m.funcs@[k].linkage == IrLinkage::Export)),
            forall|a: int, b: int|
                0 <= a < b < fids@.len() ==> #[trigger] fids@[a] != #[trigger] fids@[b],
            forall|id: u32| #[trigger] backend::om_fid_valid(om, id) ==> exists|k: int|
                0 <= k < fids@.len() && fids@[k] == id,
            forall|k: int|
                0 <= k < j ==> backend::om_did_valid(om, #[trigger] dids@[k])
                    && !backend::om_did_pending(om, dids@[k]),
            forall|a: int, b: int| 0 <= a < b < j ==> #[trigger] dids@[a] != #[trigger] dids@[b],
            forall|id: u32| #[trigger] backend::om_did_valid(om, id) ==> exists|k: int|
                0 <= k < j && dids@[k] == id,
            forall|x: Seq<char>| #[trigger] backend::om_names(om).contains(x) ==> (exists|k: int|
                0 <= k < m.funcs@.len() && m.funcs@[k].name@ == x) || (exists|k: int|
                0 <= k < j && m.datas@[k].name@ == x),
        decreases m.datas@.len() - j,
    {
        proof {
            if backend::om_names(om).contains(m.datas@[j as int].name@) {
                assert(false);
            }
        }
        let d = &m.datas[j];
        let ghost om_prev = om;
        let ghost dids_prev = dids@;
        let did = backend::om_declare_data(&mut om, d.name.as_str(), d.linkage, d.writable, d.thread_local);
        let ghost om_mid = om;
        let defined = match &m.datas[j].init {
            Option::Some(bytes) => {
                match backend::om_define_data(&mut om, did, bytes) {
                    Ok(()) => true,
                    Err(e) => {
                        return Err(e);
                    },
                }
            },
            Option::None => false,
        };
        dids.push(did);
        proof {
            if !defined {
                assert(m.datas@[j as int].linkage != IrLinkage::Local && m.datas@[j as int].linkage
                    != IrLinkage::Export);
                assert(om == om_mid);
            }
            assert(!backend::om_did_pending(om, did));
            assert forall|a: int, b: int| 0 <= a < b < j + 1 implies #[trigger] dids@[a]
                != #[trigger] dids@[b] by {
                if b == j {
                    assert(backend::om_did_valid(om_prev, dids_prev[a]));
                    assert(!backend::om_did_valid(om_prev, did));
                }
            }
            assert forall|k: int|
                0 <= k < j + 1 implies backend::om_did_valid(om, #[trigger] dids@[k])
                && !backend::om_did_pending(om, dids@[k]) by {
                if k < j {
                    assert(dids@[k] == dids_prev[k]);
                    assert(backend::om_did_valid(om_prev, dids_prev[k]));
                    assert(backend::om_did_valid(om_mid, dids_prev[k]));
                    assert(!backend::om_did_pending(om_prev, dids_prev[k]));
                    assert(dids@[k] != did);
                } else {
                    assert(dids@[k] == did);
                }
            }
            assert forall|id: u32| #[trigger] backend::om_did_valid(om, id) implies exists|k: int|
                0 <= k < j + 1 && dids@[k] == id by {
                if id == did {
                    assert(dids@[j as int] == id);
                } else {
                    assert(backend::om_did_valid(om_mid, id));
                    assert(backend::om_did_valid(om_prev, id));
                    let k = choose|k: int| 0 <= k < j && dids_prev[k] == id;
                    assert(dids@[k] == id);
                }
            }
            assert forall|x: Seq<char>| #[trigger] backend::om_names(om).contains(x) implies ((
            exists|k: int| 0 <= k < m.funcs@.len() && m.funcs@[k].name@ == x) || (exists|k: int|
                0 <= k < j + 1 && m.datas@[k].name@ == x)) by {
                if x != m.datas@[j as int].name@ {
                    assert(backend::om_names(om_prev).contains(x));
                }
            }
        }
        j = j + 1;
    }
    // define every function body
    let mut w: usize = 0;
    while w < m.funcs.len()
        invariant
            backend::om_conv(om) == m.target.default_call_conv,
            w <= m.funcs@.len(),
            fids@.len() == m.funcs@.len(),
            dids@.len() == m.datas@.len(),
            forall|k: int|
                0 <= k < fids@.len() ==> backend::om_fid_valid(om, #[trigger] fids@[k]),
            forall|a: int, b: int|
                0 <= a < b < fids@.len() ==> #[trigger] fids@[a] != #[trigger] fids@[b],
            forall|k: int|
                w <= k < fids@.len() ==> (backend::om_fid_pending(om, #[trigger] fids@[k]) == (
                m.funcs@[k].linkage == IrLinkage::Local || m.funcs@[k].linkage
                    == IrLinkage::Export)),
            forall|k: int| 0 <= k < w ==> !backend::om_fid_pending(om, #[trigger] fids@[k]),
            forall|id: u32| #[trigger] backend::om_fid_valid(om, id) ==> exists|k: int|
                0 <= k < fids@.len() && fids@[k] == id,
            forall|k: int|
                0 <= k < dids@.len() ==> backend::om_did_valid(om, #[trigger] dids@[k])
                    && !backend::om_did_pending(om, dids@[k]),
            forall|id: u32| #[trigger] backend::om_did_valid(om, id) ==> exists|k: int|
                0 <= k < dids@.len() && dids@[k] == id,
        decreases m.funcs@.len() - w,
    {
        match &m.funcs[w].body {
            Option::Some(body) => {
                proof {
                    assert(m.funcs@[w as int].sig@.call_conv == m.target.default_call_conv);
                    assert(body.sig@ == m.funcs@[w as int].sig@);
                    assert(body.sig.call_conv == backend::om_conv(om));
                }
                let f = match build_function(&mut om, fids[w], body, &fids, &dids) {
                    Ok(f) => f,
                    Err(e) => {
                        return Err(e);
                    },
                };
                let ghost om_prev = om;
                match backend::om_define_function(&mut om, fids[w], f) {
                    Ok(()) => {},
                    Err(e) => {
                        return Err(e);
                    },
                }
                proof {
                    assert forall|k: int|
                        w + 1 <= k < fids@.len() implies (backend::om_fid_pending(
                        om,
                        #[trigger] fids@[k],
                    ) == (m.funcs@[k].linkage == IrLinkage::Local || m.funcs@[k].linkage
                        == IrLinkage::Export)) by {
                        assert(fids@[k] != fids@[w as int]);
                        assert(backend::om_fid_valid(om_prev, fids@[k]));
                    }
                    assert forall|k: int| 0 <= k < w + 1 implies !backend::om_fid_pending(
                        om,
                        #[trigger] fids@[k],
                    ) by {
                        if k < w {
                            assert(fids@[k] != fids@[w as int]);
                            assert(backend::om_fid_valid(om_prev, fids@[k]));
                        }
                    }
                    assert forall|id: u32| #[trigger] backend::om_fid_valid(om, id) implies exists|
                        k: int,
                    | 0 <= k < fids@.len() && fids@[k] == id by {
                        assert(backend::om_fid_valid(om_prev, id));
                    }
                    assert forall|id: u32| #[trigger] backend::om_did_valid(om, id) implies exists|
                        k: int,
                    | 0 <= k < dids@.len() && dids@[k] == id by {
                        assert(backend::om_did_valid(om_prev, id));
                    }
                }
            },
            Option::None => {
                proof {
                    assert(m.funcs@[w as int].linkage != IrLinkage::Local && m.funcs@[
                        w as int].linkage != IrLinkage::Export);
                }
            },
        }
        w = w + 1;
    }
    proof {
        assert forall|id: u32| backend::om_fid_valid(om, id) implies !backend::om_fid_pending(
            om,
            id,
        ) by {
            let k = choose|k: int| 0 <= k < fids@.len() && fids@[k] == id;
        }
        assert forall|id: u32| backend::om_did_valid(om, id) implies !backend::om_did_pending(
            om,
            id,
        ) by {
            let k = choose|k: int| 0 <= k < dids@.len() && dids@[k] == id;
        }
    }
    backend::product_emit(backend::om_finish(om))
}

} // verus!
