//! The runtime types, their ghost model and the error they report.
use vstd::prelude::*;

verus! {

/// Name of a module, struct or field.
pub type Identifier = String;

/// A sixteen-byte account address.
#[derive(Clone, Copy, Debug, PartialEq, Eq, Hash)]
pub struct AccountAddress {
    pub bytes: [u8; 16],
}

/// Runtime representation of a struct type: its declaration and instantiation.
#[derive(Debug, PartialEq, Eq)]
pub struct FatStructType {
    pub address: AccountAddress,
    pub module: Identifier,
    pub name: Identifier,
    pub is_resource: bool,
    pub ty_args: Vec<FatType>,
    pub layout: Vec<FatType>,
}

/// Runtime representation of a Move type, possibly holding unresolved type parameters.
#[derive(Debug, PartialEq, Eq)]
pub enum FatType {
    Bool,
    U8,
    U64,
    U128,
    Address,
    Signer,
    Vector(Box<FatType>),
    Struct(Box<FatStructType>),
    Reference(Box<FatType>),
    MutableReference(Box<FatType>),
    TyParam(usize),
}

/// Ghost model of a struct type.
pub struct StructTy {
    pub address: AccountAddress,
    pub module: Seq<char>,
    pub name: Seq<char>,
    pub is_resource: bool,
    pub ty_args: Seq<Ty>,
    pub layout: Seq<Ty>,
}

/// Ghost model of a runtime type.
pub enum Ty {
    Bool,
    U8,
    U64,
    U128,
    Address,
    Signer,
    Vector(Box<Ty>),
    Struct(StructTy),
    Reference(Box<Ty>),
    MutableReference(Box<Ty>),
    TyParam(nat),
}

/// The model of each type in a sequence, in order.
pub open spec fn tys_view(ts: Seq<FatType>) -> Seq<Ty>
    decreases ts, 0nat,
{
    if ts.len() == 0 {
        Seq::empty()
    } else {
        tys_view(ts.drop_last()).push(ty_view(ts.last()))
    }
}

pub open spec fn struct_view(s: FatStructType) -> StructTy
    decreases s, 1nat,
{
    StructTy {
        address: s.address,
        module: s.module@,
        name: s.name@,
        is_resource: s.is_resource,
        ty_args: tys_view(s.ty_args@),
        layout: tys_view(s.layout@),
    }
}

pub open spec fn ty_view(t: FatType) -> Ty
    decreases t, 2nat,
{
    match t {
        FatType::Bool => Ty::Bool,
        FatType::U8 => Ty::U8,
        FatType::U64 => Ty::U64,
        FatType::U128 => Ty::U128,
        FatType::Address => Ty::Address,
        FatType::Signer => Ty::Signer,
        FatType::Vector(e) => Ty::Vector(Box::new(ty_view(*e))),
        FatType::Struct(s) => Ty::Struct(struct_view(*s)),
        FatType::Reference(e) => Ty::Reference(Box::new(ty_view(*e))),
        FatType::MutableReference(e) => Ty::MutableReference(Box::new(ty_view(*e))),
        FatType::TyParam(i) => Ty::TyParam(i as nat),
    }
}

impl View for FatType {
    type V = Ty;

    open spec fn view(&self) -> Ty {
        ty_view(*self)
    }
}

impl View for FatStructType {
    type V = StructTy;

    open spec fn view(&self) -> StructTy {
        struct_view(*self)
    }
}

pub proof fn lemma_tys_view(ts: Seq<FatType>)
    ensures
        tys_view(ts).len() == ts.len(),
        forall|i: int| 0 <= i < ts.len() ==> #[trigger] tys_view(ts)[i] == ts[i]@,
    decreases ts.len(),
{
    if ts.len() > 0 {
        lemma_tys_view(ts.drop_last());
    }
}

/// Status code carried by every error of this library.
#[derive(Clone, Copy, Debug, PartialEq, Eq)]
pub enum StatusCode {
    /// The caller handed over a type that should have been impossible to build.
    UnknownInvariantViolationError,
    /// A layout was asked of a type that has no value representation.
    AbortTypeMismatchError,
}

/// What went wrong, beyond the status code.
#[derive(Clone, Copy, Debug, PartialEq, Eq)]
pub enum ErrorReason {
    /// A type parameter index at or past the number of type arguments.
    SubstIndexOutOfBounds { len: usize, index: usize },
    /// A reference or type parameter has no type tag.
    NoTypeTag,
    /// A reference or type parameter has no value layout.
    NoTypeLayout,
    /// A type parameter cannot be classified as resource or copyable.
    ResourceOfTypeParam,
    /// A type parameter has no surface syntax.
    PrintTypeParam,
    /// No reason beyond the status code.
    Unspecified,
}

/// The one error condition of this library: an internal invariant violation.
#[derive(Clone, Copy, Debug, PartialEq, Eq)]
pub struct PartialVMError {
    pub major_status: StatusCode,
    pub reason: ErrorReason,
}

pub type PartialVMResult<T> = Result<T, PartialVMError>;

impl PartialVMError {
    pub fn new(major_status: StatusCode, reason: ErrorReason) -> (r: PartialVMError)
        ensures
            r.major_status == major_status,
            r.reason == reason,
    {
        PartialVMError { major_status, reason }
    }

    pub fn invariant_violation(reason: ErrorReason) -> (r: PartialVMError)
        ensures
            r.major_status == StatusCode::UnknownInvariantViolationError,
            r.reason == reason,
    {
        PartialVMError { major_status: StatusCode::UnknownInvariantViolationError, reason }
    }
}

/// Copies every element of a vector of types.
pub fn copy_types(ts: &Vec<FatType>) -> (r: Vec<FatType>)
    ensures
        tys_view(r@) == tys_view(ts@),
    decreases ts, 0nat,
{
    let mut out: Vec<FatType> = Vec::new();
    let mut i: usize = 0;
    while i < ts.len()
        invariant
            i <= ts.len(),
            out@.len() == i,
            tys_view(out@) == tys_view(ts@.subrange(0, i as int)),
        decreases ts.len() - i,
    {
        proof {
            assert(decreases_to!(ts => ts@[i as int]));
        }
        let t = ts[i].deep_copy();
        proof {
            assert(ts@.subrange(0, i + 1).drop_last() =~= ts@.subrange(0, i as int));
            assert(out@.push(t).drop_last() =~= out@);
        }
        out.push(t);
        i = i + 1;
    }
    proof {
        assert(ts@.subrange(0, i as int) =~= ts@);
    }
    out
}

impl FatStructType {
    /// A copy of this struct type, equal to it in the model.
    pub fn deep_copy(&self) -> (r: FatStructType)
        ensures
            r@ == self@,
        decreases self, 1nat,
    {
        FatStructType {
            address: self.address,
            module: self.module.clone(),
            name: self.name.clone(),
            is_resource: self.is_resource,
            ty_args: copy_types(&self.ty_args),
            layout: copy_types(&self.layout),
        }
    }
}

impl FatType {
    /// A copy of this type, equal to it in the model.
    pub fn deep_copy(&self) -> (r: FatType)
        ensures
            r@ == self@,
        decreases self, 2nat,
    {
        match self {
            FatType::Bool => FatType::Bool,
            FatType::U8 => FatType::U8,
            FatType::U64 => FatType::U64,
            FatType::U128 => FatType::U128,
            FatType::Address => FatType::Address,
            FatType::Signer => FatType::Signer,
            FatType::Vector(e) => FatType::Vector(Box::new(e.deep_copy())),
            FatType::Struct(s) => FatType::Struct(Box::new(s.deep_copy())),
            FatType::Reference(e) => FatType::Reference(Box::new(e.deep_copy())),
            FatType::MutableReference(e) => FatType::MutableReference(Box::new(e.deep_copy())),
            FatType::TyParam(i) => FatType::TyParam(*i),
        }
    }
}

} // verus!
