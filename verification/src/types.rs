//! Core value types of the intermediate representation: machine types,
//! calling conventions, linkage, signatures, and the opaque handles that
//! identify declared entities.

use vstd::prelude::*;

verus! {

/// A machine-level integer type. Pointers are represented by the integer
/// type whose width matches the target's pointer width.
#[derive(Clone, Copy, PartialEq, Eq, Structural, Debug)]
pub enum IrType {
    I8,
    I16,
    I32,
    I64,
}

/// Calling convention recorded in a signature.
#[derive(Clone, Copy, PartialEq, Eq, Structural, Debug)]
pub enum CallConv {
    SystemV,
    AppleAarch64,
}

/// Visibility and resolution contract of a declared symbol.
#[derive(Clone, Copy, PartialEq, Eq, Structural, Debug)]
pub enum IrLinkage {
    /// Defined in this object, not visible outside it.
    Local,
    /// Expected to be resolved externally; never defined here.
    Import,
    /// Defined in this object and visible to other objects.
    Export,
    /// Defined in this object, visible outside, and may be preempted.
    Preemptible,
}

impl IrLinkage {
    /// Two linkages for the same symbol merge to the stronger of the two.
    pub open spec fn spec_merge(self, other: IrLinkage) -> IrLinkage {
        if self == IrLinkage::Export || other == IrLinkage::Export {
            IrLinkage::Export
        } else if self == IrLinkage::Preemptible || other == IrLinkage::Preemptible {
            IrLinkage::Preemptible
        } else if self == IrLinkage::Local || other == IrLinkage::Local {
            IrLinkage::Local
        } else {
            IrLinkage::Import
        }
    }

    /// Executable merge, used when a symbol is re-declared.
    pub fn merge(self, other: IrLinkage) -> (r: IrLinkage)
        ensures
            r == self.spec_merge(other),
    {
        if matches!(self, IrLinkage::Export) || matches!(other, IrLinkage::Export) {
            IrLinkage::Export
        } else if matches!(self, IrLinkage::Preemptible) || matches!(other, IrLinkage::Preemptible) {
            IrLinkage::Preemptible
        } else if matches!(self, IrLinkage::Local) || matches!(other, IrLinkage::Local) {
            IrLinkage::Local
        } else {
            IrLinkage::Import
        }
    }
}

/// A function signature: ordered parameter types, ordered return types and a
/// calling convention. Copied by value into each function declaration.
pub struct IrSignature {
    pub params: Vec<IrType>,
    pub returns: Vec<IrType>,
    pub call_conv: CallConv,
}

/// The mathematical content of a signature.
pub ghost struct SigView {
    pub params: Seq<IrType>,
    pub returns: Seq<IrType>,
    pub call_conv: CallConv,
}

impl View for IrSignature {
    type V = SigView;

    open spec fn view(&self) -> SigView {
        SigView { params: self.params@, returns: self.returns@, call_conv: self.call_conv }
    }
}

impl IrSignature {
    /// An exact copy of this signature.
    pub fn duplicate(&self) -> (r: IrSignature)
        ensures
            r@ == self@,
    {
        IrSignature {
            params: copy_types(&self.params),
            returns: copy_types(&self.returns),
            call_conv: self.call_conv,
        }
    }
}

/// Copies a list of types element by element.
pub fn copy_types(v: &Vec<IrType>) -> (r: Vec<IrType>)
    ensures
        r@ == v@,
{
    let mut out: Vec<IrType> = Vec::new();
    let mut i: usize = 0;
    while i < v.len()
        invariant
            i <= v@.len(),
            out@ == v@.take(i as int),
        decreases v@.len() - i,
    {
        out.push(v[i]);
        i = i + 1;
        proof {
            assert(out@ =~= v@.take(i as int));
        }
    }
    proof {
        assert(out@ =~= v@);
    }
    out
}

/// Element-wise equality of two lists of types.
pub fn types_eq(a: &Vec<IrType>, b: &Vec<IrType>) -> (r: bool)
    ensures
        r == (a@ == b@),
{
    if a.len() != b.len() {
        proof {
            assert(a@.len() != b@.len());
        }
        return false;
    }
    let mut i: usize = 0;
    while i < a.len()
        invariant
            i <= a@.len(),
            a@.len() == b@.len(),
            forall|j: int| 0 <= j < i ==> a@[j] == b@[j],
        decreases a@.len() - i,
    {
        if a[i] != b[i] {
            return false;
        }
        i = i + 1;
    }
    proof {
        assert(a@ =~= b@);
    }
    true
}

/// Equality of signatures, compared by their mathematical content.
pub fn sig_eq(a: &IrSignature, b: &IrSignature) -> (r: bool)
    ensures
        r == (a@ == b@),
{
    let r = types_eq(&a.params, &b.params) && types_eq(&a.returns, &b.returns)
        && a.call_conv == b.call_conv;
    proof {
        if a.params@ == b.params@ && a.returns@ == b.returns@ && a.call_conv == b.call_conv {
            assert(a@ =~= b@);
        }
    }
    r
}

/// Handle of a declared function, stable for the module's lifetime.
#[derive(Clone, Copy, PartialEq, Eq, Structural, Debug)]
pub struct FuncId(pub usize);

/// Handle of a declared data object, stable for the module's lifetime.
#[derive(Clone, Copy, PartialEq, Eq, Structural, Debug)]
pub struct DataId(pub usize);

/// Handle of a basic block inside one function under construction.
#[derive(Clone, Copy, PartialEq, Eq, Structural, Debug)]
pub struct BlockId(pub usize);

/// Handle of an SSA value inside one function.
#[derive(Clone, Copy, PartialEq, Eq, Structural, Debug)]
pub struct ValueId(pub usize);

/// A named storage slot, distinct from a raw IR value.
#[derive(Clone, Copy, PartialEq, Eq, Structural, Debug)]
pub struct Variable(pub u32);

/// Reference, local to one function body, to a previously declared function.
#[derive(Clone, Copy, PartialEq, Eq, Structural, Debug)]
pub struct FuncRefId(pub usize);

/// Reference, local to one function body, to a previously declared data object.
#[derive(Clone, Copy, PartialEq, Eq, Structural, Debug)]
pub struct DataRef(pub usize);

/// Everything that can go wrong while constructing or emitting a module.
/// All failures are synchronous and non-retryable.
#[derive(Clone, Copy, PartialEq, Eq, Structural, Debug)]
pub enum CodegenError {
    /// The host architecture or operating system has no backend.
    UnsupportedHost,
    /// A symbol name was re-declared with an incompatible kind, signature or
    /// attributes.
    DuplicateSymbol,
    /// A definition was supplied for a handle that was never declared.
    UndeclaredSymbol,
    /// A second definition was supplied for an already defined symbol.
    AlreadyDefined,
    /// A definition was supplied for an imported symbol.
    LinkageMismatch,
    /// A symbol whose linkage requires a definition was never defined.
    UnresolvedExport,
    /// A block handle does not belong to this function, or no block is
    /// selected.
    InvalidBlock,
    /// A block was still unsealed when the function was finalized.
    UnsealedBlock,
    /// A block does not end in a return or branch instruction.
    UnterminatedBlock,
    /// An instruction's operand or result types violate a declared signature
    /// or block parameter list.
    TypeMismatch,
    /// A variable was read on a path on which no definition reaches it, or
    /// was used before being declared.
    UndefinedVariable,
    /// The backend could not serialize the module into the object format.
    UnsupportedRelocation,
}

} // verus!
