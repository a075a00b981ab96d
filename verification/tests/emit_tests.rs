use object::{Object, ObjectSection, ObjectSymbol};
use objgen::demo::generate_code;
use objgen::module::Module;
use objgen::backend::detect_host;
use objgen::target::{resolve, TargetFlags};
use objgen::types::{IrLinkage, IrSignature, IrType};

/// The end-to-end scenario: one exported `main(ptr, ptr) -> ptr` whose entry
/// block calls the imported `puts` with the address of a local nul-terminated
/// string constant and returns the constant 42. Emission succeeds and the
/// object carries the expected symbols.
#[test]
fn hello_world_object_emitted() {
    let bytes = generate_code().expect("the demo module emits on a supported host");
    assert!(!bytes.is_empty());

    let file = object::File::parse(bytes.as_slice()).expect("a well-formed relocatable object");
    let main_sym = file
        .symbols()
        .find(|s| s.name() == Ok("main"))
        .expect("the entry symbol is present");
    assert!(main_sym.is_global());
    assert!(!main_sym.is_undefined());
    let puts_sym = file
        .symbols()
        .find(|s| s.name() == Ok("puts"))
        .expect("the imported symbol is present");
    assert!(puts_sym.is_undefined());
    let str_sym = file
        .symbols()
        .find(|s| s.name() == Ok(".str"))
        .expect("the string constant is present");
    assert!(!str_sym.is_undefined());
    // the emitted code must reference both the import and the constant
    let text = file
        .sections()
        .find(|s| s.name() == Ok(".text"))
        .expect("a text section exists");
    assert!(text.size() > 0);
    let reloc_targets: Vec<_> = text.relocations().collect();
    assert!(reloc_targets.len() >= 2);
}

/// The demonstration module's symbol table, before emission: exported
/// `main(ptr, ptr) -> ptr` with a body, imported `puts(ptr)`, and the
/// defined local string constant.
#[test]
fn demo_module_contents() {
    let m = objgen::demo::build_demo_module().expect("supported test host");
    assert_eq!(m.funcs.len(), 2);
    assert_eq!(m.funcs[0].name, "main");
    assert_eq!(m.funcs[0].linkage, IrLinkage::Export);
    assert_eq!(m.funcs[0].sig.params, vec![IrType::I64, IrType::I64]);
    assert_eq!(m.funcs[0].sig.returns, vec![IrType::I64]);
    assert!(m.funcs[0].body.is_some());
    assert_eq!(m.funcs[1].name, "puts");
    assert_eq!(m.funcs[1].linkage, IrLinkage::Import);
    assert_eq!(m.funcs[1].sig.params, vec![IrType::I64]);
    assert!(m.funcs[1].sig.returns.is_empty());
    assert!(m.funcs[1].body.is_none());
    assert_eq!(m.datas.len(), 1);
    assert_eq!(m.datas[0].name, ".str");
    assert_eq!(m.datas[0].linkage, IrLinkage::Local);
    assert!(!m.datas[0].writable);
    assert!(!m.datas[0].thread_local);
    assert_eq!(m.datas[0].init.as_deref(), Some(b"Hello, World!\0".as_slice()));
}

/// Emitting the same sequence of declarations and definitions twice yields
/// byte-identical output.
#[test]
fn emission_is_deterministic() {
    let first = generate_code().expect("emission succeeds");
    let second = generate_code().expect("emission succeeds");
    assert_eq!(first, second);
}

/// A module whose exports are all defined finishes into an object whose
/// symbol table reflects each declaration's linkage.
#[test]
fn symbol_metadata_reflects_declarations() {
    let host = detect_host();
    let target = resolve(&host, &TargetFlags { pic: true }).expect("supported test host");
    let mut m = Module::new(target, "meta");
    let sig = IrSignature {
        params: vec![IrType::I64, IrType::I64],
        returns: vec![IrType::I64],
        call_conv: target.default_call_conv,
    };
    let f = m.declare_function("entry", IrLinkage::Export, &sig).unwrap();
    let mut b = objgen::builder::FunctionBuilder::new(sig.duplicate());
    let entry = b.create_block();
    b.switch_to_block(entry).unwrap();
    b.seal_block(entry).unwrap();
    let _argc = b.append_block_param(entry, IrType::I64).unwrap();
    let _argv = b.append_block_param(entry, IrType::I64).unwrap();
    let ret = b.ins_iconst(IrType::I64, 7);
    b.ins_return(vec![ret]);
    b.seal_all_blocks();
    m.define_function(f, b.finalize().unwrap()).unwrap();
    let local = m.declare_data("hidden_blob", IrLinkage::Local, false, false).unwrap();
    m.define_data(local, vec![1u8, 2, 3]).unwrap();

    let bytes = m.finish().expect("all required definitions are present");
    let file = object::File::parse(bytes.as_slice()).unwrap();
    let entry_sym = file.symbols().find(|s| s.name() == Ok("entry")).unwrap();
    assert!(entry_sym.is_global());
    assert!(!entry_sym.is_undefined());
    let blob = file.symbols().find(|s| s.name() == Ok("hidden_blob")).unwrap();
    assert!(!blob.is_global());
    assert!(!blob.is_undefined());
}
