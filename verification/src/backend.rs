//! Trusted boundary to the code-generation backend. Each item here either
//! declares an outside type or wraps exactly the outside calls that the
//! verified emission pass makes; the contracts state what the backend's
//! source shows, over abstract handle-validity predicates.

use vstd::prelude::*;

use cranelift::codegen::cursor::{Cursor, FuncCursor};
use cranelift::codegen::ir;
use cranelift::codegen::isa;
use cranelift::prelude::{settings, AbiParam, Configurable, InstBuilder};
use cranelift_module::Module as ClModule;
use cranelift_object::{ObjectBuilder, ObjectModule};

use crate::target::{HostArch, HostInfo, HostOs};
use crate::types::{CallConv, CodegenError, IrLinkage, IrType};

verus! {

#[verifier::external_type_specification]
#[verifier::external_body]
pub struct ExObjectModule(ObjectModule);

#[verifier::external_type_specification]
#[verifier::external_body]
pub struct ExObjectProduct(cranelift_object::ObjectProduct);

#[verifier::external_type_specification]
#[verifier::external_body]
pub struct ExFunction(ir::Function);

#[verifier::external_type_specification]
#[verifier::external_body]
pub struct ExBlock(ir::Block);

#[verifier::external_type_specification]
#[verifier::external_body]
pub struct ExValue(ir::Value);

#[verifier::external_type_specification]
#[verifier::external_body]
pub struct ExFuncRef(ir::FuncRef);

#[verifier::external_type_specification]
#[verifier::external_body]
pub struct ExGlobalValue(ir::GlobalValue);

#[verifier::external_type_specification]
#[verifier::external_body]
pub struct ExSignature(ir::Signature);

/// The set of symbol names declared on an object module so far.
pub uninterp spec fn om_names(m: ObjectModule) -> Set<Seq<char>>;

/// `id` indexes a function declared on this object module.
pub uninterp spec fn om_fid_valid(m: ObjectModule, id: u32) -> bool;

/// The declared function `id` requires a definition that was not yet given.
pub uninterp spec fn om_fid_pending(m: ObjectModule, id: u32) -> bool;

/// `id` indexes a data object declared on this object module.
pub uninterp spec fn om_did_valid(m: ObjectModule, id: u32) -> bool;

/// The declared data object `id` requires a definition not yet given.
pub uninterp spec fn om_did_pending(m: ObjectModule, id: u32) -> bool;

/// Number of blocks created in a function under construction.
pub uninterp spec fn fn_blocks(f: ir::Function) -> nat;

/// Index of a block handle.
pub uninterp spec fn blk_num(b: ir::Block) -> nat;

/// Number of values created in a function under construction.
pub uninterp spec fn fn_vals(f: ir::Function) -> nat;

/// Index of a value handle.
pub uninterp spec fn val_num(v: ir::Value) -> nat;

/// Number of function references imported into a function.
pub uninterp spec fn fn_frefs(f: ir::Function) -> nat;

/// Index of a function-reference handle.
pub uninterp spec fn fref_num(r: ir::FuncRef) -> nat;

/// Number of global values created in a function.
pub uninterp spec fn fn_gvs(f: ir::Function) -> nat;

/// Index of a global-value handle.
pub uninterp spec fn gv_num(g: ir::GlobalValue) -> nat;

/// The calling convention this object module's backend compiles. The
/// backends implement only their own convention: handing the x86-64 frame
/// layout a foreign one panics, so the boundary keeps every signature at
/// this convention.
pub uninterp spec fn om_conv(m: ObjectModule) -> CallConv;

/// Every signature recorded in the function — its own and each imported
/// one — carries calling convention `c`.
pub uninterp spec fn fn_convs_only(f: ir::Function, c: CallConv) -> bool;

/// The calling convention recorded in a backend signature.
pub uninterp spec fn cl_sig_conv(s: ir::Signature) -> CallConv;

/// The parameter types recorded in a backend signature.
pub uninterp spec fn cl_sig_params(s: ir::Signature) -> Seq<IrType>;

/// The return types recorded in a backend signature.
pub uninterp spec fn cl_sig_returns(s: ir::Signature) -> Seq<IrType>;

/// The function and data declarations of `b` are those of `a`.
pub open spec fn om_same(a: ObjectModule, b: ObjectModule) -> bool {
    &&& om_names(b) == om_names(a)
    &&& om_conv(b) == om_conv(a)
    &&& forall|id: u32| #[trigger] om_fid_valid(b, id) <==> om_fid_valid(a, id)
    &&& forall|id: u32| om_fid_valid(a, id) ==> (#[trigger] om_fid_pending(b, id) <==> om_fid_pending(a, id))
    &&& forall|id: u32| #[trigger] om_did_valid(b, id) <==> om_did_valid(a, id)
    &&& forall|id: u32| om_did_valid(a, id) ==> (#[trigger] om_did_pending(b, id) <==> om_did_pending(a, id))
}

/// No signature was added or changed between `a` and `b`: any
/// calling-convention discipline of `a` still holds of `b`.
pub open spec fn fn_sigs_kept(a: ir::Function, b: ir::Function) -> bool {
    forall|c: CallConv| fn_convs_only(a, c) ==> #[trigger] fn_convs_only(b, c)
}

/// Handles valid for `a` remain valid for `b`.
pub open spec fn fn_grown(a: ir::Function, b: ir::Function) -> bool {
    &&& fn_blocks(b) >= fn_blocks(a)
    &&& fn_vals(b) >= fn_vals(a)
    &&& fn_frefs(b) >= fn_frefs(a)
    &&& fn_gvs(b) >= fn_gvs(a)
}

/// Relies on `cranelift_native::builder` and the returned ISA builder's
/// triple to identify the machine this process runs on. The result depends
/// on the machine, so nothing is promised of it.
#[verifier::external_body]
pub fn detect_host() -> (r: HostInfo) {
    let Ok(b) = cranelift_native::builder() else {
        return HostInfo { arch: HostArch::Other, os: HostOs::Other };
    };
    let arch = match b.triple().architecture {
        target_lexicon::Architecture::X86_64 => HostArch::X86_64,
        target_lexicon::Architecture::Aarch64(_) => HostArch::Aarch64,
        _ => HostArch::Other,
    };
    let os = match b.triple().operating_system {
        target_lexicon::OperatingSystem::Linux => HostOs::Linux,
        target_lexicon::OperatingSystem::Darwin(_) | target_lexicon::OperatingSystem::MacOSX(_) => HostOs::Macos,
        _ => HostOs::Other,
    };
    HostInfo { arch, os }
}

/// Relies on `target_lexicon::Triple::from_str`,
/// `cranelift_codegen::isa::lookup`, `settings`, `ObjectBuilder::new` and
/// `ObjectModule::new`: selects the backend named by `triple` with the
/// `is_pic` flag and the IR verifier enabled, and opens an empty object
/// module, on which no symbol is declared yet. A triple that does not parse
/// or that the backend does not know fails with `UnsupportedHost`; nothing
/// panics.
#[verifier::external_body]
pub fn om_new(triple: &str, pic: bool, name: &str) -> (r: Result<ObjectModule, CodegenError>)
    ensures
        r matches Ok(om) ==> om_names(om) == Set::<Seq<char>>::empty() && (forall|id: u32|
            !om_fid_valid(om, id)) && (forall|id: u32| !om_did_valid(om, id)),
        r matches Ok(om) ==> (triple@ == "x86_64-unknown-linux-gnu"@ ==> om_conv(om)
            == CallConv::SystemV) && (triple@ == "aarch64-unknown-linux-gnu"@ ==> om_conv(om)
            == CallConv::SystemV) && (triple@ == "x86_64-apple-darwin"@ ==> om_conv(om)
            == CallConv::SystemV) && (triple@ == "aarch64-apple-darwin"@ ==> om_conv(om)
            == CallConv::AppleAarch64),
        r matches Err(e) ==> (e == CodegenError::UnsupportedHost || e
            == CodegenError::UnsupportedRelocation),
{
    let mut fb = settings::builder();
    fb.set("is_pic", if pic { "true" } else { "false" }).map_err(|_| CodegenError::UnsupportedHost)?;
    fb.set("enable_verifier", "true").map_err(|_| CodegenError::UnsupportedHost)?;
    let t: target_lexicon::Triple = triple.parse().map_err(|_| CodegenError::UnsupportedHost)?;
    let isa_builder = isa::lookup(t).map_err(|_| CodegenError::UnsupportedHost)?;
    let isa = isa_builder.finish(settings::Flags::new(fb)).map_err(
        |_| CodegenError::UnsupportedHost,
    )?;
    let ob = ObjectBuilder::new(isa, name.to_owned(), cranelift_module::default_libcall_names())
        .map_err(|_| CodegenError::UnsupportedRelocation)?;
    Ok(ObjectModule::new(ob))
}

/// Relies on `ObjectModule::declare_function`: declaring a fresh, nul-free
/// symbol name cannot fail and assigns the next function id; the symbol is
/// pending a definition exactly when its linkage requires one.
#[verifier::external_body]
pub fn om_declare_func(
    om: &mut ObjectModule,
    name: &str,
    linkage: IrLinkage,
    sig: &ir::Signature,
) -> (r: u32)
    requires
        !om_names(*old(om)).contains(name@),
        !name@.contains('\0'),
        cl_sig_conv(*sig) == om_conv(*old(om)),
    ensures
        om_conv(*final(om)) == om_conv(*old(om)),
        om_names(*final(om)) == om_names(*old(om)).insert(name@),
        om_fid_valid(*final(om), r),
        !om_fid_valid(*old(om), r),
        om_fid_pending(*final(om), r) == (linkage == IrLinkage::Local || linkage == IrLinkage::Export),
        forall|id: u32| #[trigger] om_fid_valid(*final(om), id) ==> om_fid_valid(*old(om), id) || id == r,
        forall|id: u32|
            om_fid_valid(*old(om), id) ==> #[trigger] om_fid_valid(*final(om), id) && (om_fid_pending(
                *final(om),
                id,
            ) <==> om_fid_pending(*old(om), id)),
        forall|id: u32| #[trigger] om_did_valid(*final(om), id) <==> om_did_valid(*old(om), id),
        forall|id: u32|
            om_did_valid(*old(om), id) ==> (#[trigger] om_did_pending(*final(om), id) <==> om_did_pending(
                *old(om),
                id,
            )),
{
    let cl = match linkage {
        IrLinkage::Local => cranelift_module::Linkage::Local,
        IrLinkage::Import => cranelift_module::Linkage::Import,
        IrLinkage::Export => cranelift_module::Linkage::Export,
        IrLinkage::Preemptible => cranelift_module::Linkage::Preemptible,
    };
    om.declare_function(name, cl, sig).unwrap().as_u32()
}

/// Relies on `ObjectModule::declare_data`: declaring a fresh, nul-free
/// symbol name cannot fail and assigns the next data id.
#[verifier::external_body]
pub fn om_declare_data(
    om: &mut ObjectModule,
    name: &str,
    linkage: IrLinkage,
    writable: bool,
    tls: bool,
) -> (r: u32)
    requires
        !om_names(*old(om)).contains(name@),
        !name@.contains('\0'),
    ensures
        om_conv(*final(om)) == om_conv(*old(om)),
        om_names(*final(om)) == om_names(*old(om)).insert(name@),
        om_did_valid(*final(om), r),
        !om_did_valid(*old(om), r),
        om_did_pending(*final(om), r) == (linkage == IrLinkage::Local || linkage == IrLinkage::Export),
        forall|id: u32| #[trigger] om_did_valid(*final(om), id) ==> om_did_valid(*old(om), id) || id == r,
        forall|id: u32|
            om_did_valid(*old(om), id) ==> #[trigger] om_did_valid(*final(om), id) && (om_did_pending(
                *final(om),
                id,
            ) <==> om_did_pending(*old(om), id)),
        forall|id: u32| #[trigger] om_fid_valid(*final(om), id) <==> om_fid_valid(*old(om), id),
        forall|id: u32|
            om_fid_valid(*old(om), id) ==> (#[trigger] om_fid_pending(*final(om), id) <==> om_fid_pending(
                *old(om),
                id,
            )),
{
    let cl = match linkage {
        IrLinkage::Local => cranelift_module::Linkage::Local,
        IrLinkage::Import => cranelift_module::Linkage::Import,
        IrLinkage::Export => cranelift_module::Linkage::Export,
        IrLinkage::Preemptible => cranelift_module::Linkage::Preemptible,
    };
    om.declare_data(name, cl, writable, tls).unwrap().as_u32()
}

/// Relies on `DataDescription::define` and `ObjectModule::define_data`:
/// supplies the payload of a declared data object; on success the object no
/// longer awaits a definition. Defining an import or defining twice fails.
#[verifier::external_body]
pub fn om_define_data(om: &mut ObjectModule, did: u32, bytes: &Vec<u8>) -> (r: Result<
    (),
    CodegenError,
>)
    requires
        om_did_valid(*old(om), did),
    ensures
        r matches Ok(()) ==> {
            &&& om_conv(*final(om)) == om_conv(*old(om))
            &&& om_names(*final(om)) == om_names(*old(om))
            &&& !om_did_pending(*final(om), did)
            &&& forall|id: u32| #[trigger] om_did_valid(*final(om), id) <==> om_did_valid(*old(om), id)
            &&& forall|id: u32|
                om_did_valid(*old(om), id) && id != did ==> (#[trigger] om_did_pending(*final(om), id)
                    <==> om_did_pending(*old(om), id))
            &&& forall|id: u32| #[trigger] om_fid_valid(*final(om), id) <==> om_fid_valid(*old(om), id)
            &&& forall|id: u32|
                om_fid_valid(*old(om), id) ==> (#[trigger] om_fid_pending(*final(om), id)
                    <==> om_fid_pending(*old(om), id))
        },
        r matches Err(e) ==> e == CodegenError::UnsupportedRelocation,
{
    let mut dd = cranelift_module::DataDescription::new();
    dd.define(bytes.clone().into_boxed_slice());
    om.define_data(cranelift_module::DataId::from_u32(did), &dd).map_err(
        |_| CodegenError::UnsupportedRelocation,
    )
}

/// Relies on `Module::declare_func_in_func`: imports a declared function's
/// signature and name into a function under construction and returns the
/// reference for call sites. The module's declarations are unchanged.
#[verifier::external_body]
pub fn om_func_in_func(om: &mut ObjectModule, fid: u32, f: &mut ir::Function) -> (r: ir::FuncRef)
    requires
        om_fid_valid(*old(om), fid),
    ensures
        om_same(*old(om), *final(om)),
        fn_grown(*old(f), *final(f)),
        fref_num(r) < fn_frefs(*final(f)),
        fn_convs_only(*old(f), om_conv(*old(om))) ==> fn_convs_only(
            *final(f),
            om_conv(*old(om)),
        ),
{
    om.declare_func_in_func(cranelift_module::FuncId::from_u32(fid), f)
}

/// Relies on `Module::declare_data_in_func`: imports a declared data
/// object's symbol into a function under construction and returns the global
/// value that addresses it.
#[verifier::external_body]
pub fn om_data_in_func(om: &ObjectModule, did: u32, f: &mut ir::Function) -> (r: ir::GlobalValue)
    requires
        om_did_valid(*om, did),
    ensures
        fn_grown(*old(f), *final(f)),
        fn_sigs_kept(*old(f), *final(f)),
        gv_num(r) < fn_gvs(*final(f)),
{
    om.declare_data_in_func(cranelift_module::DataId::from_u32(did), f)
}

/// Relies on `Context::for_function` and `ObjectModule::define_function`:
/// compiles the finished function and stores its code under the declared
/// symbol; on success the symbol no longer awaits a definition. Compilation
/// or verification failures surface as `UnsupportedRelocation`.
#[verifier::external_body]
pub fn om_define_function(om: &mut ObjectModule, fid: u32, f: ir::Function) -> (r: Result<
    (),
    CodegenError,
>)
    requires
        om_fid_valid(*old(om), fid),
        fn_convs_only(f, om_conv(*old(om))),
    ensures
        r matches Ok(()) ==> {
            &&& om_conv(*final(om)) == om_conv(*old(om))
            &&& om_names(*final(om)) == om_names(*old(om))
            &&& !om_fid_pending(*final(om), fid)
            &&& forall|id: u32| #[trigger] om_fid_valid(*final(om), id) <==> om_fid_valid(*old(om), id)
            &&& forall|id: u32|
                om_fid_valid(*old(om), id) && id != fid ==> (#[trigger] om_fid_pending(*final(om), id)
                    <==> om_fid_pending(*old(om), id))
            &&& forall|id: u32| #[trigger] om_did_valid(*final(om), id) <==> om_did_valid(*old(om), id)
            &&& forall|id: u32|
                om_did_valid(*old(om), id) ==> (#[trigger] om_did_pending(*final(om), id)
                    <==> om_did_pending(*old(om), id))
        },
        r matches Err(e) ==> e == CodegenError::UnsupportedRelocation,
{
    let mut ctx = cranelift::codegen::Context::for_function(f);
    match om.define_function(cranelift_module::FuncId::from_u32(fid), &mut ctx) {
        Ok(_) => Ok(()),
        Err(_) => Err(CodegenError::UnsupportedRelocation),
    }
}

/// Relies on `ObjectModule::finish`: lays out sections, symbols and
/// relocations. Every symbol requiring a definition must have one.
#[verifier::external_body]
pub fn om_finish(om: ObjectModule) -> (r: cranelift_object::ObjectProduct)
    requires
        forall|id: u32| om_fid_valid(om, id) ==> !om_fid_pending(om, id),
        forall|id: u32| om_did_valid(om, id) ==> !om_did_pending(om, id),
{
    om.finish()
}

/// Relies on `ObjectProduct::emit`: serializes the object file into bytes.
#[verifier::external_body]
pub fn product_emit(p: cranelift_object::ObjectProduct) -> (r: Result<Vec<u8>, CodegenError>)
    ensures
        r matches Err(e) ==> e == CodegenError::UnsupportedRelocation,
{
    p.emit().map_err(|_| CodegenError::UnsupportedRelocation)
}

/// Relies on `ir::Signature::new`: an empty signature under the given
/// calling convention.
#[verifier::external_body]
pub fn sig_new(conv: CallConv) -> (r: ir::Signature)
    ensures
        cl_sig_params(r) == Seq::<IrType>::empty(),
        cl_sig_returns(r) == Seq::<IrType>::empty(),
        cl_sig_conv(r) == conv,
{
    ir::Signature::new(
        match conv {
            CallConv::SystemV => cranelift::codegen::isa::CallConv::SystemV,
            CallConv::AppleAarch64 => cranelift::codegen::isa::CallConv::AppleAarch64,
        },
    )
}

/// Relies on `AbiParam::new`: appends one parameter type to a signature.
#[verifier::external_body]
pub fn sig_push_param(s: &mut ir::Signature, t: IrType)
    ensures
        cl_sig_params(*final(s)) == cl_sig_params(*old(s)).push(t),
        cl_sig_returns(*final(s)) == cl_sig_returns(*old(s)),
        cl_sig_conv(*final(s)) == cl_sig_conv(*old(s)),
{
    s.params.push(AbiParam::new(match t {
        IrType::I8 => ir::types::I8,
        IrType::I16 => ir::types::I16,
        IrType::I32 => ir::types::I32,
        IrType::I64 => ir::types::I64,
    }));
}

/// Relies on `AbiParam::new`: appends one return type to a signature.
#[verifier::external_body]
pub fn sig_push_return(s: &mut ir::Signature, t: IrType)
    ensures
        cl_sig_params(*final(s)) == cl_sig_params(*old(s)),
        cl_sig_returns(*final(s)) == cl_sig_returns(*old(s)).push(t),
        cl_sig_conv(*final(s)) == cl_sig_conv(*old(s)),
{
    s.returns.push(AbiParam::new(match t {
        IrType::I8 => ir::types::I8,
        IrType::I16 => ir::types::I16,
        IrType::I32 => ir::types::I32,
        IrType::I64 => ir::types::I64,
    }));
}

/// Relies on `Function::with_name_signature` with the user-namespace name
/// that `cranelift_object` resolves back to the declared function id.
#[verifier::external_body]
pub fn fn_new(fid: u32, sig: ir::Signature) -> (r: ir::Function)
    ensures
        fn_blocks(r) == 0,
        fn_vals(r) == 0,
        fn_frefs(r) == 0,
        fn_gvs(r) == 0,
        fn_convs_only(r, cl_sig_conv(sig)),
{
    ir::Function::with_name_signature(ir::UserFuncName::user(0, fid), sig)
}

/// Relies on `DataFlowGraph::make_block` and `Layout::append_block`: creates
/// one block and places it at the end of the function's layout.
#[verifier::external_body]
pub fn fn_make_block(f: &mut ir::Function) -> (r: ir::Block)
    ensures
        fn_grown(*old(f), *final(f)),
        fn_sigs_kept(*old(f), *final(f)),
        blk_num(r) < fn_blocks(*final(f)),
{
    let b = f.dfg.make_block();
    f.layout.append_block(b);
    b
}

/// Relies on `DataFlowGraph::append_block_param`.
#[verifier::external_body]
pub fn fn_append_param(f: &mut ir::Function, b: ir::Block, t: IrType) -> (r: ir::Value)
    requires
        blk_num(b) < fn_blocks(*old(f)),
    ensures
        fn_grown(*old(f), *final(f)),
        fn_sigs_kept(*old(f), *final(f)),
        val_num(r) < fn_vals(*final(f)),
{
    f.dfg.append_block_param(b, match t {
        IrType::I8 => ir::types::I8,
        IrType::I16 => ir::types::I16,
        IrType::I32 => ir::types::I32,
        IrType::I64 => ir::types::I64,
    })
}

/// Relies on the `iconst` instruction builder at the bottom of a created
/// block.
#[verifier::external_body]
pub fn ins_iconst(f: &mut ir::Function, b: ir::Block, t: IrType, imm: i64) -> (r: ir::Value)
    requires
        blk_num(b) < fn_blocks(*old(f)),
    ensures
        fn_grown(*old(f), *final(f)),
        fn_sigs_kept(*old(f), *final(f)),
        val_num(r) < fn_vals(*final(f)),
{
    FuncCursor::new(f).at_bottom(b).ins().iconst(match t {
        IrType::I8 => ir::types::I8,
        IrType::I16 => ir::types::I16,
        IrType::I32 => ir::types::I32,
        IrType::I64 => ir::types::I64,
    }, imm)
}

/// Relies on the `call` instruction builder and
/// `DataFlowGraph::inst_results`: appends a call and hands back its first
/// result value, if the callee's signature has one.
#[verifier::external_body]
pub fn ins_call(f: &mut ir::Function, b: ir::Block, fref: ir::FuncRef, args: &Vec<ir::Value>) -> (r:
    Option<ir::Value>)
    requires
        blk_num(b) < fn_blocks(*old(f)),
        fref_num(fref) < fn_frefs(*old(f)),
        forall|i: int| 0 <= i < args@.len() ==> val_num(#[trigger] args@[i]) < fn_vals(*old(f)),
    ensures
        fn_grown(*old(f), *final(f)),
        fn_sigs_kept(*old(f), *final(f)),
        r matches Some(v) ==> val_num(v) < fn_vals(*final(f)),
{
    let inst = FuncCursor::new(f).at_bottom(b).ins().call(fref, args.as_slice());
    f.dfg.inst_results(inst).first().copied()
}

/// Relies on the `symbol_value` instruction builder: materializes the
/// address of a referenced symbol.
#[verifier::external_body]
pub fn ins_global_addr(f: &mut ir::Function, b: ir::Block, gv: ir::GlobalValue, t: IrType) -> (r:
    ir::Value)
    requires
        blk_num(b) < fn_blocks(*old(f)),
        gv_num(gv) < fn_gvs(*old(f)),
    ensures
        fn_grown(*old(f), *final(f)),
        fn_sigs_kept(*old(f), *final(f)),
        val_num(r) < fn_vals(*final(f)),
{
    FuncCursor::new(f).at_bottom(b).ins().symbol_value(match t {
        IrType::I8 => ir::types::I8,
        IrType::I16 => ir::types::I16,
        IrType::I32 => ir::types::I32,
        IrType::I64 => ir::types::I64,
    }, gv)
}

/// Relies on the `return_` instruction builder.
#[verifier::external_body]
pub fn ins_return(f: &mut ir::Function, b: ir::Block, args: &Vec<ir::Value>)
    requires
        blk_num(b) < fn_blocks(*old(f)),
        forall|i: int| 0 <= i < args@.len() ==> val_num(#[trigger] args@[i]) < fn_vals(*old(f)),
    ensures
        fn_grown(*old(f), *final(f)),
        fn_sigs_kept(*old(f), *final(f)),
{
    FuncCursor::new(f).at_bottom(b).ins().return_(args.as_slice());
}

/// Relies on the `jump` instruction builder, with each argument converted to
/// a block argument.
#[verifier::external_body]
pub fn ins_jump(f: &mut ir::Function, b: ir::Block, target: ir::Block, args: &Vec<ir::Value>)
    requires
        blk_num(b) < fn_blocks(*old(f)),
        blk_num(target) < fn_blocks(*old(f)),
        forall|i: int| 0 <= i < args@.len() ==> val_num(#[trigger] args@[i]) < fn_vals(*old(f)),
    ensures
        fn_grown(*old(f), *final(f)),
        fn_sigs_kept(*old(f), *final(f)),
{
    let a: std::vec::Vec<ir::BlockArg> = args.iter().map(|v| ir::BlockArg::from(*v)).collect();
    FuncCursor::new(f).at_bottom(b).ins().jump(target, a.as_slice());
}

/// Relies on the `brif` instruction builder, with each argument converted to
/// a block argument.
#[verifier::external_body]
pub fn ins_brif(
    f: &mut ir::Function,
    b: ir::Block,
    cond: ir::Value,
    then_target: ir::Block,
    then_args: &Vec<ir::Value>,
    else_target: ir::Block,
    else_args: &Vec<ir::Value>,
)
    requires
        blk_num(b) < fn_blocks(*old(f)),
        blk_num(then_target) < fn_blocks(*old(f)),
        blk_num(else_target) < fn_blocks(*old(f)),
        val_num(cond) < fn_vals(*old(f)),
        forall|i: int|
            0 <= i < then_args@.len() ==> val_num(#[trigger] then_args@[i]) < fn_vals(*old(f)),
        forall|i: int|
            0 <= i < else_args@.len() ==> val_num(#[trigger] else_args@[i]) < fn_vals(*old(f)),
    ensures
        fn_grown(*old(f), *final(f)),
        fn_sigs_kept(*old(f), *final(f)),
{
    let ta: std::vec::Vec<ir::BlockArg> = then_args.iter().map(|v| ir::BlockArg::from(*v)).collect();
    let ea: std::vec::Vec<ir::BlockArg> = else_args.iter().map(|v| ir::BlockArg::from(*v)).collect();
    FuncCursor::new(f).at_bottom(b).ins().brif(cond, then_target, ta.as_slice(), else_target, ea.as_slice());
}

} // verus!
