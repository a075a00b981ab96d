//! Module and symbol table: owns the target configuration and the set of
//! declared functions and data objects, accumulates definitions, and is
//! finished into the bytes of a relocatable object file.

use vstd::prelude::*;

use crate::builder::FunctionBuilder;
use crate::ir::FuncBody;
use crate::target::TargetConfig;
use crate::types::{CodegenError, DataId, DataRef, FuncId, FuncRefId, IrLinkage, IrSignature};

verus! {

/// One declared function: its symbol name, linkage, signature and, once
/// defined, its finished body.
pub struct FuncDecl {
    pub name: String,
    pub linkage: IrLinkage,
    pub sig: IrSignature,
    pub body: Option<FuncBody>,
}

/// One declared data object: its symbol name, linkage, attributes and, once
/// defined, its payload bytes.
pub struct DataDecl {
    pub name: String,
    pub linkage: IrLinkage,
    pub writable: bool,
    pub thread_local: bool,
    pub init: Option<Vec<u8>>,
}

/// A module under construction: the symbol table of declared functions and
/// data objects, bound to one target configuration.
pub struct Module {
    pub target: TargetConfig,
    pub name: String,
    pub funcs: Vec<FuncDecl>,
    pub datas: Vec<DataDecl>,
}

impl Module {
    /// Symbol-table consistency: every name is declared once, function and
    /// data names do not collide, and no name holds a nul byte.
    pub open spec fn wf(self) -> bool {
        &&& forall|i: int, j: int|
            0 <= i < j < self.funcs@.len() ==> (#[trigger] self.funcs@[i]).name@ != (
            #[trigger] self.funcs@[j]).name@
        &&& forall|i: int, j: int|
            0 <= i < j < self.datas@.len() ==> (#[trigger] self.datas@[i]).name@ != (
            #[trigger] self.datas@[j]).name@
        &&& forall|i: int, j: int|
            0 <= i < self.funcs@.len() && 0 <= j < self.datas@.len() ==> (
            #[trigger] self.funcs@[i]).name@ != (#[trigger] self.datas@[j]).name@
        &&& forall|i: int|
            0 <= i < self.funcs@.len() ==> !(#[trigger] self.funcs@[i]).name@.contains('\0')
        &&& forall|i: int|
            0 <= i < self.datas@.len() ==> !(#[trigger] self.datas@[i]).name@.contains('\0')
        &&& forall|i: int|
            0 <= i < self.funcs@.len() ==> (#[trigger] self.funcs@[i]).sig@.call_conv
                == self.target.default_call_conv
        &&& forall|i: int|
            0 <= i < self.funcs@.len() ==> ((#[trigger] self.funcs@[i]).body matches Some(fb)
                ==> fb.sig@ == self.funcs@[i].sig@)
    }

    /// Whether some function is declared under this name.
    pub open spec fn has_func(self, name: Seq<char>) -> bool {
        exists|i: int| 0 <= i < self.funcs@.len() && (#[trigger] self.funcs@[i]).name@ == name
    }

    /// Whether some data object is declared under this name.
    pub open spec fn has_data(self, name: Seq<char>) -> bool {
        exists|i: int| 0 <= i < self.datas@.len() && (#[trigger] self.datas@[i]).name@ == name
    }

    /// A fresh module bound to a target configuration, with the given object
    /// name and an empty symbol table.
    pub fn new(target: TargetConfig, name: &str) -> (r: Module)
        ensures
            r.wf(),
            r.target == target,
            r.name@ == name@,
            r.funcs@.len() == 0,
            r.datas@.len() == 0,
    {
        Module { target, name: name.to_owned(), funcs: Vec::new(), datas: Vec::new() }
    }

    /// Declares a function under `name` with the given linkage and signature.
    /// Re-declaring a name with an identical signature is idempotent: it
    /// returns the existing handle and merges the linkage to the stronger of
    /// the two. Declaring a name that exists with a different signature, or
    /// that names a data object, fails with `DuplicateSymbol`. A signature
    /// whose calling convention is not the target's fails with
    /// `UnsupportedHost`: the target's backend implements only its own
    /// convention. Symbol names may not hold nul bytes, which the object
    /// format cannot represent.
    pub fn declare_function(&mut self, name: &str, linkage: IrLinkage, sig: &IrSignature) -> (r:
        Result<FuncId, CodegenError>)
        requires
            old(self).wf(),
            !name@.contains('\0'),
        ensures
            final(self).wf(),
            final(self).target == old(self).target,
            final(self).name == old(self).name,
            final(self).datas == old(self).datas,
            sig@.call_conv != old(self).target.default_call_conv ==> r == Result::<
                FuncId,
                CodegenError,
            >::Err(CodegenError::UnsupportedHost) && *final(self) == *old(self),
            sig@.call_conv == old(self).target.default_call_conv && old(self).has_data(name@) ==> r
                == Result::<FuncId, CodegenError>::Err(CodegenError::DuplicateSymbol) && *final(self) == *old(self),
            sig@.call_conv == old(self).target.default_call_conv && !old(self).has_data(name@)
                && !old(self).has_func(name@) ==> {
                &&& r == Result::<FuncId, CodegenError>::Ok(
                    FuncId(old(self).funcs@.len() as usize),
                )
                &&& final(self).funcs@.len() == old(self).funcs@.len() + 1
                &&& forall|i: int|
                    0 <= i < old(self).funcs@.len() ==> final(self).funcs@[i] == old(self).funcs@[i]
                &&& final(self).funcs@.last().name@ == name@
                &&& final(self).funcs@.last().linkage == linkage
                &&& final(self).funcs@.last().sig@ == sig@
                &&& final(self).funcs@.last().body is None
            },
            sig@.call_conv == old(self).target.default_call_conv && !old(self).has_data(name@)
                && old(self).has_func(name@) ==> forall|i: int|
                0 <= i < old(self).funcs@.len() && (#[trigger] old(self).funcs@[i]).name@ == name@
                    ==> if old(self).funcs@[i].sig@ == sig@ {
                    &&& r == Result::<FuncId, CodegenError>::Ok(FuncId(i as usize))
                    &&& final(self).funcs@.len() == old(self).funcs@.len()
                    &&& final(self).funcs@[i].name == old(self).funcs@[i].name
                    &&& final(self).funcs@[i].linkage == old(self).funcs@[i].linkage.spec_merge(
                        linkage,
                    )
                    &&& final(self).funcs@[i].sig == old(self).funcs@[i].sig
                    &&& final(self).funcs@[i].body == old(self).funcs@[i].body
                    &&& forall|j: int|
                        0 <= j < old(self).funcs@.len() && j != i ==> final(self).funcs@[j] == old(self).funcs@[j]
                } else {
                    r == Result::<FuncId, CodegenError>::Err(CodegenError::DuplicateSymbol)
                        && *final(self) == *old(self)
                },
    {
        if sig.call_conv != self.target.default_call_conv {
            return Err(CodegenError::UnsupportedHost);
        }
        let owned = name.to_owned();
        let mut i: usize = 0;
        while i < self.funcs.len()
            invariant
                old(self).wf(),
                *self == *old(self),
                sig@.call_conv == old(self).target.default_call_conv,
                i <= self.funcs@.len(),
                owned@ == name@,
                forall|k: int| 0 <= k < i ==> (#[trigger] self.funcs@[k]).name@ != name@,
            decreases self.funcs@.len() - i,
        {
            if self.funcs[i].name == owned {
                if crate::types::sig_eq(&self.funcs[i].sig, sig) {
                    let merged = self.funcs[i].linkage.merge(linkage);
                    let decl = &mut self.funcs[i];
                    decl.linkage = merged;
                    proof {
                        assert forall|ii: int, jj: int|
                            0 <= ii < jj < self.funcs@.len() implies (
                        #[trigger] self.funcs@[ii]).name@ != (#[trigger] self.funcs@[jj]).name@ by {
                            assert(old(self).funcs@[ii].name@ != old(self).funcs@[jj].name@);
                        }
                        assert forall|ii: int, jj: int|
                            0 <= ii < self.funcs@.len() && 0 <= jj < self.datas@.len() implies (
                        #[trigger] self.funcs@[ii]).name@ != (#[trigger] self.datas@[jj]).name@ by {
                            assert(old(self).funcs@[ii].name@ != old(self).datas@[jj].name@);
                        }
                        assert forall|ii: int| 0 <= ii < self.funcs@.len() implies !(
                        #[trigger] self.funcs@[ii]).name@.contains('\0') by {
                            assert(!old(self).funcs@[ii].name@.contains('\0'));
                        }
                    }
                    return Ok(FuncId(i));
                } else {
                    return Err(CodegenError::DuplicateSymbol);
                }
            }
            i = i + 1;
        }
        let mut j: usize = 0;
        while j < self.datas.len()
            invariant
                old(self).wf(),
                *self == *old(self),
                sig@.call_conv == old(self).target.default_call_conv,
                j <= self.datas@.len(),
                owned@ == name@,
                forall|k: int| 0 <= k < j ==> (#[trigger] self.datas@[k]).name@ != name@,
            decreases self.datas@.len() - j,
        {
            if self.datas[j].name == owned {
                return Err(CodegenError::DuplicateSymbol);
            }
            j = j + 1;
        }
        let id = FuncId(self.funcs.len());
        self.funcs.push(
            FuncDecl { name: owned, linkage, sig: sig.duplicate(), body: None },
        );
        proof {
            assert(!old(self).has_func(name@));
            assert(!old(self).has_data(name@));
            assert forall|ii: int, jj: int| 0 <= ii < jj < self.funcs@.len() implies (
            #[trigger] self.funcs@[ii]).name@ != (#[trigger] self.funcs@[jj]).name@ by {
                if jj < old(self).funcs@.len() {
                    assert(old(self).funcs@[ii].name@ != old(self).funcs@[jj].name@);
                } else {
                    assert(self.funcs@[jj].name@ == name@);
                }
            }
            assert forall|ii: int, jj: int|
                0 <= ii < self.funcs@.len() && 0 <= jj < self.datas@.len() implies (
            #[trigger] self.funcs@[ii]).name@ != (#[trigger] self.datas@[jj]).name@ by {
                if ii < old(self).funcs@.len() {
                    assert(old(self).funcs@[ii].name@ != old(self).datas@[jj].name@);
                }
            }
            assert forall|ii: int| 0 <= ii < self.funcs@.len() implies !(
            #[trigger] self.funcs@[ii]).name@.contains('\0') by {
                if ii < old(self).funcs@.len() {
                    assert(!old(self).funcs@[ii].name@.contains('\0'));
                }
            }
        }
        Ok(id)
    }

    /// Declares a data object under `name` with the given linkage and
    /// attributes. Re-declaring a name with identical attributes is
    /// idempotent: it returns the existing handle and merges the linkage.
    /// Declaring a name that exists with different attributes, or that names
    /// a function, fails with `DuplicateSymbol`.
    pub fn declare_data(
        &mut self,
        name: &str,
        linkage: IrLinkage,
        writable: bool,
        thread_local: bool,
    ) -> (r: Result<DataId, CodegenError>)
        requires
            old(self).wf(),
            !name@.contains('\0'),
        ensures
            final(self).wf(),
            final(self).target == old(self).target,
            final(self).name == old(self).name,
            final(self).funcs == old(self).funcs,
            old(self).has_func(name@) ==> r == Result::<DataId, CodegenError>::Err(
                CodegenError::DuplicateSymbol,
            ) && *final(self) == *old(self),
            !old(self).has_func(name@) && !old(self).has_data(name@) ==> {
                &&& r == Result::<DataId, CodegenError>::Ok(
                    DataId(old(self).datas@.len() as usize),
                )
                &&& final(self).datas@.len() == old(self).datas@.len() + 1
                &&& forall|i: int|
                    0 <= i < old(self).datas@.len() ==> final(self).datas@[i] == old(self).datas@[i]
                &&& final(self).datas@.last().name@ == name@
                &&& final(self).datas@.last().linkage == linkage
                &&& final(self).datas@.last().writable == writable
                &&& final(self).datas@.last().thread_local == thread_local
                &&& final(self).datas@.last().init is None
            },
            !old(self).has_func(name@) && old(self).has_data(name@) ==> forall|i: int|
                0 <= i < old(self).datas@.len() && (#[trigger] old(self).datas@[i]).name@ == name@
                    ==> if old(self).datas@[i].writable == writable && old(self).datas@[i].thread_local == thread_local {
                    &&& r == Result::<DataId, CodegenError>::Ok(DataId(i as usize))
                    &&& final(self).datas@.len() == old(self).datas@.len()
                    &&& final(self).datas@[i].name == old(self).datas@[i].name
                    &&& final(self).datas@[i].linkage == old(self).datas@[i].linkage.spec_merge(
                        linkage,
                    )
                    &&& final(self).datas@[i].writable == old(self).datas@[i].writable
                    &&& final(self).datas@[i].thread_local == old(self).datas@[i].thread_local
                    &&& final(self).datas@[i].init == old(self).datas@[i].init
                    &&& forall|j: int|
                        0 <= j < old(self).datas@.len() && j != i ==> final(self).datas@[j] == old(self).datas@[j]
                } else {
                    r == Result::<DataId, CodegenError>::Err(CodegenError::DuplicateSymbol)
                        && *final(self) == *old(self)
                },
    {
        let owned = name.to_owned();
        let mut i: usize = 0;
        while i < self.datas.len()
            invariant
                old(self).wf(),
                *self == *old(self),
                i <= self.datas@.len(),
                owned@ == name@,
                forall|k: int| 0 <= k < i ==> (#[trigger] self.datas@[k]).name@ != name@,
            decreases self.datas@.len() - i,
        {
            if self.datas[i].name == owned {
                if self.datas[i].writable == writable && self.datas[i].thread_local
                    == thread_local {
                    let merged = self.datas[i].linkage.merge(linkage);
                    let decl = &mut self.datas[i];
                    decl.linkage = merged;
                    proof {
                        assert forall|ii: int, jj: int|
                            0 <= ii < jj < self.datas@.len() implies (
                        #[trigger] self.datas@[ii]).name@ != (#[trigger] self.datas@[jj]).name@ by {
                            assert(old(self).datas@[ii].name@ != old(self).datas@[jj].name@);
                        }
                        assert forall|ii: int, jj: int|
                            0 <= ii < self.funcs@.len() && 0 <= jj < self.datas@.len() implies (
                        #[trigger] self.funcs@[ii]).name@ != (#[trigger] self.datas@[jj]).name@ by {
                            assert(old(self).funcs@[ii].name@ != old(self).datas@[jj].name@);
                        }
                        assert forall|ii: int| 0 <= ii < self.datas@.len() implies !(
                        #[trigger] self.datas@[ii]).name@.contains('\0') by {
                            assert(!old(self).datas@[ii].name@.contains('\0'));
                        }
                    }
                    return Ok(DataId(i));
                } else {
                    return Err(CodegenError::DuplicateSymbol);
                }
            }
            i = i + 1;
        }
        let mut j: usize = 0;
        while j < self.funcs.len()
            invariant
                old(self).wf(),
                *self == *old(self),
                j <= self.funcs@.len(),
                owned@ == name@,
                forall|k: int| 0 <= k < j ==> (#[trigger] self.funcs@[k]).name@ != name@,
            decreases self.funcs@.len() - j,
        {
            if self.funcs[j].name == owned {
                return Err(CodegenError::DuplicateSymbol);
            }
            j = j + 1;
        }
        let id = DataId(self.datas.len());
        self.datas.push(
            DataDecl { name: owned, linkage, writable, thread_local, init: None },
        );
        proof {
            assert(!old(self).has_func(name@));
            assert(!old(self).has_data(name@));
            assert forall|ii: int, jj: int| 0 <= ii < jj < self.datas@.len() implies (
            #[trigger] self.datas@[ii]).name@ != (#[trigger] self.datas@[jj]).name@ by {
                if jj < old(self).datas@.len() {
                    assert(old(self).datas@[ii].name@ != old(self).datas@[jj].name@);
                } else {
                    assert(self.datas@[jj].name@ == name@);
                }
            }
            assert forall|ii: int, jj: int|
                0 <= ii < self.funcs@.len() && 0 <= jj < self.datas@.len() implies (
            #[trigger] self.funcs@[ii]).name@ != (#[trigger] self.datas@[jj]).name@ by {
                if jj < old(self).datas@.len() {
                    assert(old(self).funcs@[ii].name@ != old(self).datas@[jj].name@);
                }
            }
            assert forall|ii: int| 0 <= ii < self.datas@.len() implies !(
            #[trigger] self.datas@[ii]).name@.contains('\0') by {
                if ii < old(self).datas@.len() {
                    assert(!old(self).datas@[ii].name@.contains('\0'));
                }
            }
        }
        Ok(id)
    }

    /// Supplies the finished body of a declared function. Fails with
    /// `UndeclaredSymbol` when `id` was never declared, `AlreadyDefined` on a
    /// second definition, `LinkageMismatch` when the function is an import,
    /// and `TypeMismatch` when the body was built for a different signature.
    pub fn define_function(&mut self, id: FuncId, body: FuncBody) -> (r: Result<(), CodegenError>)
        requires
            old(self).wf(),
        ensures
            final(self).wf(),
            id.0 >= old(self).funcs@.len() ==> r == Result::<(), CodegenError>::Err(
                CodegenError::UndeclaredSymbol,
            ) && *final(self) == *old(self),
            id.0 < old(self).funcs@.len() && old(self).funcs@[id.0 as int].body is Some ==> r
                == Result::<(), CodegenError>::Err(CodegenError::AlreadyDefined) && *final(self)
                == *old(self),
            id.0 < old(self).funcs@.len() && old(self).funcs@[id.0 as int].body is None && old(self).funcs@[id.0 as int].linkage == IrLinkage::Import ==> r == Result::<
                (),
                CodegenError,
            >::Err(CodegenError::LinkageMismatch) && *final(self) == *old(self),
            id.0 < old(self).funcs@.len() && old(self).funcs@[id.0 as int].body is None && old(self).funcs@[id.0 as int].linkage != IrLinkage::Import && body.sig@ != old(self).funcs@[id.0 as int].sig@ ==> r == Result::<(), CodegenError>::Err(
                CodegenError::TypeMismatch,
            ) && *final(self) == *old(self),
            id.0 < old(self).funcs@.len() && old(self).funcs@[id.0 as int].body is None && old(self).funcs@[id.0 as int].linkage != IrLinkage::Import && body.sig@ == old(self).funcs@[id.0 as int].sig@ ==> {
                &&& r == Result::<(), CodegenError>::Ok(())
                &&& final(self).funcs@.len() == old(self).funcs@.len()
                &&& final(self).funcs@[id.0 as int].name == old(self).funcs@[id.0 as int].name
                &&& final(self).funcs@[id.0 as int].linkage == old(self).funcs@[id.0 as int].linkage
                &&& final(self).funcs@[id.0 as int].sig == old(self).funcs@[id.0 as int].sig
                &&& final(self).funcs@[id.0 as int].body == Some(body)
                &&& forall|j: int|
                    0 <= j < old(self).funcs@.len() && j != id.0 ==> final(self).funcs@[j] == old(self).funcs@[j]
                &&& final(self).datas == old(self).datas
                &&& final(self).target == old(self).target
                &&& final(self).name == old(self).name
            },
    {
        if id.0 >= self.funcs.len() {
            return Err(CodegenError::UndeclaredSymbol);
        }
        if self.funcs[id.0].body.is_some() {
            return Err(CodegenError::AlreadyDefined);
        }
        if matches!(self.funcs[id.0].linkage, IrLinkage::Import) {
            return Err(CodegenError::LinkageMismatch);
        }
        if !crate::types::sig_eq(&body.sig, &self.funcs[id.0].sig) {
            return Err(CodegenError::TypeMismatch);
        }
        let decl = &mut self.funcs[id.0];
        decl.body = Some(body);
        proof {
            assert forall|ii: int, jj: int| 0 <= ii < jj < self.funcs@.len() implies (
            #[trigger] self.funcs@[ii]).name@ != (#[trigger] self.funcs@[jj]).name@ by {
                assert(old(self).funcs@[ii].name@ != old(self).funcs@[jj].name@);
            }
            assert forall|ii: int, jj: int|
                0 <= ii < self.funcs@.len() && 0 <= jj < self.datas@.len() implies (
            #[trigger] self.funcs@[ii]).name@ != (#[trigger] self.datas@[jj]).name@ by {
                assert(old(self).funcs@[ii].name@ != old(self).datas@[jj].name@);
            }
            assert forall|ii: int| 0 <= ii < self.funcs@.len() implies !(
            #[trigger] self.funcs@[ii]).name@.contains('\0') by {
                assert(!old(self).funcs@[ii].name@.contains('\0'));
            }
        }
        Ok(())
    }

    /// Supplies the payload of a declared data object. Fails with
    /// `UndeclaredSymbol` when `id` was never declared, `AlreadyDefined` on a
    /// second definition, and `LinkageMismatch` when the object is an import.
    pub fn define_data(&mut self, id: DataId, payload: Vec<u8>) -> (r: Result<(), CodegenError>)
        requires
            old(self).wf(),
        ensures
            final(self).wf(),
            id.0 >= old(self).datas@.len() ==> r == Result::<(), CodegenError>::Err(
                CodegenError::UndeclaredSymbol,
            ) && *final(self) == *old(self),
            id.0 < old(self).datas@.len() && old(self).datas@[id.0 as int].init is Some ==> r
                == Result::<(), CodegenError>::Err(CodegenError::AlreadyDefined) && *final(self)
                == *old(self),
            id.0 < old(self).datas@.len() && old(self).datas@[id.0 as int].init is None && old(self).datas@[id.0 as int].linkage == IrLinkage::Import ==> r == Result::<
                (),
                CodegenError,
            >::Err(CodegenError::LinkageMismatch) && *final(self) == *old(self),
            id.0 < old(self).datas@.len() && old(self).datas@[id.0 as int].init is None && old(self).datas@[id.0 as int].linkage != IrLinkage::Import ==> {
                &&& r == Result::<(), CodegenError>::Ok(())
                &&& final(self).datas@.len() == old(self).datas@.len()
                &&& final(self).datas@[id.0 as int].name == old(self).datas@[id.0 as int].name
                &&& final(self).datas@[id.0 as int].linkage == old(self).datas@[id.0 as int].linkage
                &&& final(self).datas@[id.0 as int].writable == old(self).datas@[id.0 as int].writable
                &&& final(self).datas@[id.0 as int].thread_local == old(self).datas@[id.0 as int].thread_local
                &&& final(self).datas@[id.0 as int].init == Some(payload)
                &&& forall|j: int|
                    0 <= j < old(self).datas@.len() && j != id.0 ==> final(self).datas@[j] == old(self).datas@[j]
                &&& final(self).funcs == old(self).funcs
                &&& final(self).target == old(self).target
                &&& final(self).name == old(self).name
            },
    {
        if id.0 >= self.datas.len() {
            return Err(CodegenError::UndeclaredSymbol);
        }
        if self.datas[id.0].init.is_some() {
            return Err(CodegenError::AlreadyDefined);
        }
        if matches!(self.datas[id.0].linkage, IrLinkage::Import) {
            return Err(CodegenError::LinkageMismatch);
        }
        let decl = &mut self.datas[id.0];
        decl.init = Some(payload);
        proof {
            assert forall|ii: int, jj: int| 0 <= ii < jj < self.datas@.len() implies (
            #[trigger] self.datas@[ii]).name@ != (#[trigger] self.datas@[jj]).name@ by {
                assert(old(self).datas@[ii].name@ != old(self).datas@[jj].name@);
            }
            assert forall|ii: int, jj: int|
                0 <= ii < self.funcs@.len() && 0 <= jj < self.datas@.len() implies (
            #[trigger] self.funcs@[ii]).name@ != (#[trigger] self.datas@[jj]).name@ by {
                assert(old(self).funcs@[ii].name@ != old(self).datas@[jj].name@);
            }
            assert forall|ii: int| 0 <= ii < self.datas@.len() implies !(
            #[trigger] self.datas@[ii]).name@.contains('\0') by {
                assert(!old(self).datas@[ii].name@.contains('\0'));
            }
        }
        Ok(())
    }

    /// Obtains, while building another function's body, a callable reference
    /// to a previously declared function; the emitted call site is later
    /// resolved through a relocation. Fails with `UndeclaredSymbol` when `id`
    /// was never declared.
    pub fn declare_func_in_func(&self, id: FuncId, b: &mut FunctionBuilder) -> (r: Result<
        FuncRefId,
        CodegenError,
    >)
        requires
            old(b).wf(),
        ensures
            final(b).wf(),
            id.0 >= self.funcs@.len() ==> r == Result::<FuncRefId, CodegenError>::Err(
                CodegenError::UndeclaredSymbol,
            ) && *final(b) == *old(b),
            id.0 < self.funcs@.len() ==> {
                &&& r == Result::<FuncRefId, CodegenError>::Ok(
                    FuncRefId(old(b).func_refs@.len() as usize),
                )
                &&& final(b).func_refs@.len() == old(b).func_refs@.len() + 1
                &&& forall|i: int|
                    0 <= i < old(b).func_refs@.len() ==> final(b).func_refs@[i] == old(
                        b,
                    ).func_refs@[i]
                &&& final(b).func_refs@.last().0 == id
                &&& final(b).func_refs@.last().1@ == self.funcs@[id.0 as int].sig@
                &&& *final(b) == (FunctionBuilder { func_refs: final(b).func_refs, ..*old(b) })
            },
    {
        if id.0 >= self.funcs.len() {
            return Err(CodegenError::UndeclaredSymbol);
        }
        let r = FuncRefId(b.func_refs.len());
        b.func_refs.push((id, self.funcs[id.0].sig.duplicate()));
        proof {
            crate::builder::preserve_wf(*old(b), *b);
        }
        Ok(r)
    }

    /// Obtains, while building another function's body, an addressable
    /// reference to a previously declared data object. Fails with
    /// `UndeclaredSymbol` when `id` was never declared.
    pub fn declare_data_in_func(&self, id: DataId, b: &mut FunctionBuilder) -> (r: Result<
        DataRef,
        CodegenError,
    >)
        requires
            old(b).wf(),
        ensures
            final(b).wf(),
            id.0 >= self.datas@.len() ==> r == Result::<DataRef, CodegenError>::Err(
                CodegenError::UndeclaredSymbol,
            ) && *final(b) == *old(b),
            id.0 < self.datas@.len() ==> {
                &&& r == Result::<DataRef, CodegenError>::Ok(
                    DataRef(old(b).data_refs@.len() as usize),
                )
                &&& final(b).data_refs@ == old(b).data_refs@.push(id)
                &&& *final(b) == (FunctionBuilder { data_refs: final(b).data_refs, ..*old(b) })
            },
    {
        if id.0 >= self.datas.len() {
            return Err(CodegenError::UndeclaredSymbol);
        }
        let r = DataRef(b.data_refs.len());
        b.data_refs.push(id);
        proof {
            crate::builder::preserve_wf(*old(b), *b);
        }
        Ok(r)
    }

    /// Whether some symbol whose linkage requires a definition in this object
    /// — Local or Export; imports are resolved externally and a preemptible
    /// symbol may be satisfied by another object — is still undefined.
    pub open spec fn spec_has_unresolved(self) -> bool {
        (exists|i: int|
            0 <= i < self.funcs@.len() && ((#[trigger] self.funcs@[i]).linkage == IrLinkage::Local
                || self.funcs@[i].linkage == IrLinkage::Export) && self.funcs@[i].body is None) || (
        exists|i: int|
            0 <= i < self.datas@.len() && ((#[trigger] self.datas@[i]).linkage == IrLinkage::Local
                || self.datas@[i].linkage == IrLinkage::Export) && self.datas@[i].init is None)
    }

    /// Consumes the module and serializes every defined function and data
    /// object into the bytes of a relocatable object file for the module's
    /// target. Fails with `UnresolvedExport` exactly when a Local or Export
    /// symbol was declared but never defined;
    /// otherwise only the backend can refuse: `UnsupportedHost` when the
    /// target configuration has no backend, `UnsupportedRelocation` when the
    /// body or object could not be serialized.
    pub fn finish(self) -> (r: Result<Vec<u8>, CodegenError>)
        requires
            self.wf(),
        ensures
            (r == Result::<Vec<u8>, CodegenError>::Err(CodegenError::UnresolvedExport))
                <==> self.spec_has_unresolved(),
            r matches Err(e) ==> (e == CodegenError::UnresolvedExport || e
                == CodegenError::UnsupportedHost || e == CodegenError::UnsupportedRelocation || e
                == CodegenError::TypeMismatch),
    {
        let mut i: usize = 0;
        while i < self.funcs.len()
            invariant
                i <= self.funcs@.len(),
                forall|k: int|
                    0 <= k < i ==> !(((#[trigger] self.funcs@[k]).linkage == IrLinkage::Local
                        || self.funcs@[k].linkage == IrLinkage::Export) && self.funcs@[k].body
                        is None),
            decreases self.funcs@.len() - i,
        {
            if matches!(self.funcs[i].linkage, IrLinkage::Local | IrLinkage::Export)
                && self.funcs[i].body.is_none() {
                return Err(CodegenError::UnresolvedExport);
            }
            i = i + 1;
        }
        let mut j: usize = 0;
        while j < self.datas.len()
            invariant
                j <= self.datas@.len(),
                forall|k: int|
                    0 <= k < j ==> !(((#[trigger] self.datas@[k]).linkage == IrLinkage::Local
                        || self.datas@[k].linkage == IrLinkage::Export) && self.datas@[k].init
                        is None),
            decreases self.datas@.len() - j,
        {
            if matches!(self.datas[j].linkage, IrLinkage::Local | IrLinkage::Export)
                && self.datas[j].init.is_none() {
                return Err(CodegenError::UnresolvedExport);
            }
            j = j + 1;
        }
        crate::emit::emit_module(&self)
    }
}

} // verus!
