//! Canonical type tags: the storage identity of a fully resolved type.
use vstd::prelude::*;
use crate::types::{
    lemma_tys_view, tys_view, AccountAddress, ErrorReason, FatStructType, FatType, Identifier,
    PartialVMError, PartialVMResult, StatusCode, StructTy, Ty,
};

verus! {

/// Identity of a struct type: its declaration and its instantiation.
#[derive(Debug, PartialEq, Eq)]
pub struct StructTag {
    pub address: AccountAddress,
    pub module: Identifier,
    pub name: Identifier,
    pub type_params: Vec<TypeTag>,
}

/// Identity of a type with no references and no type parameters.
#[derive(Debug, PartialEq, Eq)]
pub enum TypeTag {
    Bool,
    U8,
    U64,
    U128,
    Address,
    Signer,
    Vector(Box<TypeTag>),
    Struct(StructTag),
}

/// Ghost model of a struct tag.
pub struct StructTagModel {
    pub address: AccountAddress,
    pub module: Seq<char>,
    pub name: Seq<char>,
    pub type_params: Seq<TagModel>,
}

/// Ghost model of a type tag.
pub enum TagModel {
    Bool,
    U8,
    U64,
    U128,
    Address,
    Signer,
    Vector(Box<TagModel>),
    Struct(StructTagModel),
}

pub open spec fn tags_view(ts: Seq<TypeTag>) -> Seq<TagModel>
    decreases ts, 0nat,
{
    if ts.len() == 0 {
        Seq::empty()
    } else {
        tags_view(ts.drop_last()).push(tag_view(ts.last()))
    }
}

pub open spec fn struct_tag_view(s: StructTag) -> StructTagModel
    decreases s, 1nat,
{
    StructTagModel {
        address: s.address,
        module: s.module@,
        name: s.name@,
        type_params: tags_view(s.type_params@),
    }
}

pub open spec fn tag_view(t: TypeTag) -> TagModel
    decreases t, 2nat,
{
    match t {
        TypeTag::Bool => TagModel::Bool,
        TypeTag::U8 => TagModel::U8,
        TypeTag::U64 => TagModel::U64,
        TypeTag::U128 => TagModel::U128,
        TypeTag::Address => TagModel::Address,
        TypeTag::Signer => TagModel::Signer,
        TypeTag::Vector(e) => TagModel::Vector(Box::new(tag_view(*e))),
        TypeTag::Struct(s) => TagModel::Struct(struct_tag_view(s)),
    }
}

impl View for TypeTag {
    type V = TagModel;

    open spec fn view(&self) -> TagModel {
        tag_view(*self)
    }
}

impl View for StructTag {
    type V = StructTagModel;

    open spec fn view(&self) -> StructTagModel {
        struct_tag_view(*self)
    }
}

/// The tag of a type; `None` for a reference or type parameter, also where one
/// stands inside a vector or a type argument. Fields play no part.
pub open spec fn type_tag_of(t: Ty) -> Option<TagModel>
    decreases t, 2nat,
{
    match t {
        Ty::Bool => Some(TagModel::Bool),
        Ty::U8 => Some(TagModel::U8),
        Ty::U64 => Some(TagModel::U64),
        Ty::U128 => Some(TagModel::U128),
        Ty::Address => Some(TagModel::Address),
        Ty::Signer => Some(TagModel::Signer),
        Ty::Vector(e) => match type_tag_of(*e) {
            Some(te) => Some(TagModel::Vector(Box::new(te))),
            None => None,
        },
        Ty::Struct(s) => match struct_tag_of(s) {
            Some(st) => Some(TagModel::Struct(st)),
            None => None,
        },
        _ => None,
    }
}

/// The tag of a struct type: its address, module and name, with the tag of
/// each type argument.
pub open spec fn struct_tag_of(s: StructTy) -> Option<StructTagModel>
    decreases s, 1nat,
{
    match type_tags_of(s.ty_args) {
        Some(type_params) => Some(
            StructTagModel { address: s.address, module: s.module, name: s.name, type_params },
        ),
        None => None,
    }
}

pub open spec fn type_tags_of(ts: Seq<Ty>) -> Option<Seq<TagModel>>
    decreases ts, 0nat,
{
    if ts.len() == 0 {
        Some(Seq::empty())
    } else {
        match (type_tags_of(ts.drop_last()), type_tag_of(ts.last())) {
            (Some(p), Some(t)) => Some(p.push(t)),
            _ => None,
        }
    }
}

proof fn lemma_type_tags_prefix_fails(xs: Seq<Ty>, j: int)
    requires
        0 <= j <= xs.len(),
        type_tags_of(xs.subrange(0, j)) is None,
    ensures
        type_tags_of(xs) is None,
    decreases xs.len(),
{
    if j == xs.len() {
        assert(xs.subrange(0, j) =~= xs);
    } else {
        assert(xs.drop_last().subrange(0, j) =~= xs.subrange(0, j));
        lemma_type_tags_prefix_fails(xs.drop_last(), j);
    }
}

/// Whether `e` is the error of a type that has no tag.
pub open spec fn is_tag_error(e: PartialVMError) -> bool {
    e.major_status == StatusCode::UnknownInvariantViolationError && e.reason
        == ErrorReason::NoTypeTag
}

fn type_tags(ts: &Vec<FatType>) -> (r: PartialVMResult<Vec<TypeTag>>)
    ensures
        match r {
            Ok(v) => type_tags_of(tys_view(ts@)) == Some(tags_view(v@)),
            Err(e) => type_tags_of(tys_view(ts@)) is None && is_tag_error(e),
        },
    decreases ts, 0nat,
{
    let ghost xs = tys_view(ts@);
    proof {
        lemma_tys_view(ts@);
        assert(xs.subrange(0, 0) =~= Seq::<Ty>::empty());
        assert(tags_view(Seq::<TypeTag>::empty()) =~= Seq::<TagModel>::empty());
    }
    let mut out: Vec<TypeTag> = Vec::new();
    let mut i: usize = 0;
    while i < ts.len()
        invariant
            i <= ts.len(),
            xs == tys_view(ts@),
            xs.len() == ts@.len(),
            forall|k: int| 0 <= k < ts@.len() ==> #[trigger] xs[k] == ts@[k]@,
            type_tags_of(xs.subrange(0, i as int)) == Some(tags_view(out@)),
        decreases ts.len() - i,
    {
        proof {
            assert(decreases_to!(ts => ts@[i as int]));
            assert(xs.subrange(0, i + 1).drop_last() =~= xs.subrange(0, i as int));
        }
        match ts[i].type_tag() {
            Ok(t) => {
                proof {
                    assert(out@.push(t).drop_last() =~= out@);
                }
                out.push(t);
            },
            Err(e) => {
                proof {
                    lemma_type_tags_prefix_fails(xs, i + 1);
                }
                return Err(e);
            },
        }
        i = i + 1;
    }
    proof {
        assert(xs.subrange(0, i as int) =~= xs);
    }
    Ok(out)
}

impl FatStructType {
    /// The tag of this struct type: its declaration and the tags of its type arguments.
    pub fn struct_tag(&self) -> (r: PartialVMResult<StructTag>)
        ensures
            match r {
                Ok(st) => struct_tag_of(self@) == Some(st@),
                Err(e) => struct_tag_of(self@) is None && is_tag_error(e),
            },
        decreases self, 1nat,
    {
        let type_params = type_tags(&self.ty_args)?;
        Ok(
            StructTag {
                address: self.address,
                module: self.module.clone(),
                name: self.name.clone(),
                type_params,
            },
        )
    }
}

impl FatType {
    /// The canonical tag of this type; fails with an invariant violation on a
    /// reference or type parameter, wherever it stands outside the fields.
    pub fn type_tag(&self) -> (r: PartialVMResult<TypeTag>)
        ensures
            match r {
                Ok(tag) => type_tag_of(self@) == Some(tag@),
                Err(e) => type_tag_of(self@) is None && is_tag_error(e),
            },
        decreases self, 2nat,
    {
        let res = match self {
            FatType::Bool => TypeTag::Bool,
            FatType::U8 => TypeTag::U8,
            FatType::U64 => TypeTag::U64,
            FatType::U128 => TypeTag::U128,
            FatType::Address => TypeTag::Address,
            FatType::Signer => TypeTag::Signer,
            FatType::Vector(ty) => TypeTag::Vector(Box::new(ty.type_tag()?)),
            FatType::Struct(struct_ty) => TypeTag::Struct(struct_ty.struct_tag()?),
            FatType::Reference(_) | FatType::MutableReference(_) | FatType::TyParam(_) => {
                return Err(PartialVMError::invariant_violation(ErrorReason::NoTypeTag));
            },
        };
        Ok(res)
    }
}

} // verus!
