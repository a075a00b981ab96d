use objgen::builder::FunctionBuilder;
use objgen::module::Module;
use objgen::target::{resolve, HostArch, HostInfo, HostOs, TargetFlags};
use objgen::types::{CallConv, CodegenError, DataId, FuncId, IrLinkage, IrSignature, IrType};

fn linux_module() -> Module {
    let host = HostInfo { arch: HostArch::X86_64, os: HostOs::Linux };
    let target = resolve(&host, &TargetFlags { pic: true }).unwrap();
    Module::new(target, "unit")
}

fn sig(params: usize, returns: usize) -> IrSignature {
    IrSignature {
        params: vec![IrType::I64; params],
        returns: vec![IrType::I64; returns],
        call_conv: CallConv::SystemV,
    }
}

/// Declaring the same import twice with an identical signature returns the
/// same handle both times; a different signature fails with
/// `DuplicateSymbol`.
#[test]
fn duplicate_import_is_idempotent() {
    let mut m = linux_module();
    let a = m.declare_function("puts", IrLinkage::Import, &sig(1, 0)).unwrap();
    let b = m.declare_function("puts", IrLinkage::Import, &sig(1, 0)).unwrap();
    assert_eq!(a, b);
    assert_eq!(
        m.declare_function("puts", IrLinkage::Import, &sig(2, 0)).err(),
        Some(CodegenError::DuplicateSymbol)
    );
}

/// Re-declaration merges the linkage to the stronger of the two: an import
/// followed by an export leaves the symbol exported, and the handle stable.
#[test]
fn redeclaration_merges_linkage() {
    let mut m = linux_module();
    let a = m.declare_function("f", IrLinkage::Import, &sig(0, 0)).unwrap();
    let b = m.declare_function("f", IrLinkage::Export, &sig(0, 0)).unwrap();
    assert_eq!(a, b);
    // the symbol now requires a definition: finishing without one fails
    assert_eq!(m.finish().err(), Some(CodegenError::UnresolvedExport));
}

/// A function name cannot also name a data object, and the other way round.
#[test]
fn function_and_data_names_collide() {
    let mut m = linux_module();
    m.declare_function("x", IrLinkage::Local, &sig(0, 0)).unwrap();
    assert_eq!(
        m.declare_data("x", IrLinkage::Local, false, false).err(),
        Some(CodegenError::DuplicateSymbol)
    );
    m.declare_data("y", IrLinkage::Local, false, false).unwrap();
    assert_eq!(
        m.declare_function("y", IrLinkage::Local, &sig(0, 0)).err(),
        Some(CodegenError::DuplicateSymbol)
    );
}

/// Duplicate data declarations follow the same idempotence rule.
#[test]
fn duplicate_data_is_idempotent() {
    let mut m = linux_module();
    let a = m.declare_data("blob", IrLinkage::Local, false, false).unwrap();
    let b = m.declare_data("blob", IrLinkage::Local, false, false).unwrap();
    assert_eq!(a, b);
    assert_eq!(
        m.declare_data("blob", IrLinkage::Local, true, false).err(),
        Some(CodegenError::DuplicateSymbol)
    );
}

fn empty_body(s: &IrSignature) -> objgen::ir::FuncBody {
    let mut b = FunctionBuilder::new(s.duplicate());
    let entry = b.create_block();
    b.switch_to_block(entry).unwrap();
    b.ins_return(vec![]);
    b.seal_all_blocks();
    b.finalize().unwrap()
}

/// Defining an undeclared handle, defining twice, and defining an import
/// each fail with their own error.
#[test]
fn definition_error_cases() {
    let mut m = linux_module();
    let s = sig(0, 0);
    let body = empty_body(&s);
    assert_eq!(
        m.define_function(FuncId(9), body).err(),
        Some(CodegenError::UndeclaredSymbol)
    );
    let f = m.declare_function("f", IrLinkage::Export, &s).unwrap();
    m.define_function(f, empty_body(&s)).unwrap();
    assert_eq!(
        m.define_function(f, empty_body(&s)).err(),
        Some(CodegenError::AlreadyDefined)
    );
    let imp = m.declare_function("g", IrLinkage::Import, &s).unwrap();
    assert_eq!(
        m.define_function(imp, empty_body(&s)).err(),
        Some(CodegenError::LinkageMismatch)
    );
    // a body built for a different signature is rejected
    let h = m.declare_function("h", IrLinkage::Local, &sig(1, 0)).unwrap();
    assert_eq!(
        m.define_function(h, empty_body(&s)).err(),
        Some(CodegenError::TypeMismatch)
    );
}

/// The same failure modes hold for data definitions.
#[test]
fn data_definition_error_cases() {
    let mut m = linux_module();
    assert_eq!(
        m.define_data(DataId(3), vec![1u8]).err(),
        Some(CodegenError::UndeclaredSymbol)
    );
    let d = m.declare_data("blob", IrLinkage::Local, false, false).unwrap();
    m.define_data(d, vec![1u8, 2u8]).unwrap();
    assert_eq!(m.define_data(d, vec![3u8]).err(), Some(CodegenError::AlreadyDefined));
    let imp = m.declare_data("ext", IrLinkage::Import, false, false).unwrap();
    assert_eq!(m.define_data(imp, vec![0u8]).err(), Some(CodegenError::LinkageMismatch));
}

/// `finish` fails with `UnresolvedExport` exactly when a symbol whose
/// linkage requires a definition was never defined.
#[test]
fn unresolved_export_detected() {
    let mut m = linux_module();
    m.declare_function("f", IrLinkage::Export, &sig(0, 0)).unwrap();
    assert_eq!(m.finish().err(), Some(CodegenError::UnresolvedExport));

    let mut m2 = linux_module();
    m2.declare_function("puts", IrLinkage::Import, &sig(1, 0)).unwrap();
    // imports need no definition: only the backend can refuse this module
    assert!(m2.finish().is_ok());
}

/// A preemptible symbol may be satisfied by another object at link time, so
/// leaving it undefined is not an unresolved export.
#[test]
fn preemptible_needs_no_definition() {
    let mut m = linux_module();
    m.declare_function("maybe_elsewhere", IrLinkage::Preemptible, &sig(0, 0)).unwrap();
    assert!(m.finish().is_ok());
}

/// Referencing an undeclared symbol from a body under construction fails.
#[test]
fn undeclared_reference_rejected() {
    let m = linux_module();
    let mut b = FunctionBuilder::new(sig(0, 0));
    assert_eq!(
        m.declare_func_in_func(FuncId(0), &mut b).err(),
        Some(CodegenError::UndeclaredSymbol)
    );
    assert_eq!(
        m.declare_data_in_func(DataId(0), &mut b).err(),
        Some(CodegenError::UndeclaredSymbol)
    );
}

/// A signature carrying a calling convention the target's backend does not
/// implement is refused at declaration: the backend would not compile it.
#[test]
fn foreign_calling_convention_rejected() {
    let mut m = linux_module();
    let s = IrSignature { params: vec![], returns: vec![], call_conv: CallConv::AppleAarch64 };
    assert_eq!(
        m.declare_function("f", IrLinkage::Local, &s).err(),
        Some(CodegenError::UnsupportedHost)
    );
}

/// An unsupported host is reported by `resolve`.
#[test]
fn unsupported_host_rejected() {
    let host = HostInfo { arch: HostArch::Other, os: HostOs::Linux };
    assert_eq!(
        resolve(&host, &TargetFlags { pic: false }).err(),
        Some(CodegenError::UnsupportedHost)
    );
    let supported = HostInfo { arch: HostArch::Aarch64, os: HostOs::Macos };
    let cfg = resolve(&supported, &TargetFlags { pic: true }).unwrap();
    assert_eq!(cfg.pointer_width, 64);
    assert_eq!(cfg.default_call_conv, CallConv::AppleAarch64);
    assert_eq!(cfg.pointer_type(), IrType::I64);
}
