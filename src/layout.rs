//! Value layouts and resource kinds of fully resolved types.
use vstd::prelude::*;
use crate::types::{
    lemma_tys_view, tys_view, ErrorReason, FatStructType, FatType, PartialVMError,
    PartialVMResult, StatusCode, StructTy, Ty,
};

verus! {

/// Whether a value must be moved explicitly or may be copied and dropped freely.
#[derive(Clone, Copy, Debug, PartialEq, Eq, Structural)]
pub enum MoveKind {
    Resource,
    Copyable,
}

/// The kind of a value at every level of its nesting.
#[derive(Debug, PartialEq, Eq)]
pub enum MoveKindInfo {
    Base(MoveKind),
    Vector(MoveKind, Box<MoveKindInfo>),
    Struct(MoveKind, Vec<MoveKindInfo>),
}

/// The layout of a value: leaves and composites, with nothing else.
#[derive(Debug, PartialEq, Eq)]
pub enum MoveTypeLayout {
    Bool,
    U8,
    U64,
    U128,
    Address,
    Signer,
    Vector(Box<MoveTypeLayout>),
    Struct(MoveStructLayout),
}

/// The layouts of a struct's fields, in declared order.
#[derive(Debug, PartialEq, Eq)]
pub struct MoveStructLayout(pub Vec<MoveTypeLayout>);

/// Ghost model of a kind tree.
pub enum KindModel {
    Base(MoveKind),
    Vector(MoveKind, Box<KindModel>),
    Struct(MoveKind, Seq<KindModel>),
}

/// Ghost model of a value layout.
pub enum LayoutModel {
    Bool,
    U8,
    U64,
    U128,
    Address,
    Signer,
    Vector(Box<LayoutModel>),
    Struct(Seq<LayoutModel>),
}

pub open spec fn kinds_view(ks: Seq<MoveKindInfo>) -> Seq<KindModel>
    decreases ks, 0nat,
{
    if ks.len() == 0 {
        Seq::empty()
    } else {
        kinds_view(ks.drop_last()).push(kind_view(ks.last()))
    }
}

pub open spec fn kind_view(k: MoveKindInfo) -> KindModel
    decreases k, 1nat,
{
    match k {
        MoveKindInfo::Base(b) => KindModel::Base(b),
        MoveKindInfo::Vector(b, e) => KindModel::Vector(b, Box::new(kind_view(*e))),
        MoveKindInfo::Struct(b, fs) => KindModel::Struct(b, kinds_view(fs@)),
    }
}

pub open spec fn layouts_view(ls: Seq<MoveTypeLayout>) -> Seq<LayoutModel>
    decreases ls, 0nat,
{
    if ls.len() == 0 {
        Seq::empty()
    } else {
        layouts_view(ls.drop_last()).push(layout_view(ls.last()))
    }
}

pub open spec fn layout_view(l: MoveTypeLayout) -> LayoutModel
    decreases l, 1nat,
{
    match l {
        MoveTypeLayout::Bool => LayoutModel::Bool,
        MoveTypeLayout::U8 => LayoutModel::U8,
        MoveTypeLayout::U64 => LayoutModel::U64,
        MoveTypeLayout::U128 => LayoutModel::U128,
        MoveTypeLayout::Address => LayoutModel::Address,
        MoveTypeLayout::Signer => LayoutModel::Signer,
        MoveTypeLayout::Vector(e) => LayoutModel::Vector(Box::new(layout_view(*e))),
        MoveTypeLayout::Struct(s) => LayoutModel::Struct(layouts_view(s.0@)),
    }
}

impl View for MoveKindInfo {
    type V = KindModel;

    open spec fn view(&self) -> KindModel {
        kind_view(*self)
    }
}

impl View for MoveTypeLayout {
    type V = LayoutModel;

    open spec fn view(&self) -> LayoutModel {
        layout_view(*self)
    }
}

impl View for MoveStructLayout {
    type V = Seq<LayoutModel>;

    open spec fn view(&self) -> Seq<LayoutModel> {
        layouts_view(self.0@)
    }
}

/// The kind at the top of a kind tree.
pub open spec fn top_kind(k: KindModel) -> MoveKind {
    match k {
        KindModel::Base(b) => b,
        KindModel::Vector(b, _) => b,
        KindModel::Struct(b, _) => b,
    }
}

/// The kind that a struct declares.
pub open spec fn declared_kind(is_resource: bool) -> MoveKind {
    if is_resource {
        MoveKind::Resource
    } else {
        MoveKind::Copyable
    }
}

impl MoveKindInfo {
    /// The kind at the top of this tree.
    pub fn kind(&self) -> (r: MoveKind)
        ensures
            r == top_kind(self@),
    {
        match self {
            MoveKindInfo::Base(k) => *k,
            MoveKindInfo::Vector(k, _) => *k,
            MoveKindInfo::Struct(k, _) => *k,
        }
    }
}

impl MoveStructLayout {
    pub fn new(fields: Vec<MoveTypeLayout>) -> (r: MoveStructLayout)
        ensures
            r@ == layouts_view(fields@),
    {
        MoveStructLayout(fields)
    }

    pub fn fields(&self) -> (r: &Vec<MoveTypeLayout>)
        ensures
            layouts_view(r@) == self@,
    {
        &self.0
    }
}

/// Kind tree and layout of a type; `None` for a reference or type parameter,
/// also where one stands inside a vector or a field. Type arguments play no part.
pub open spec fn layout_and_kind_of(t: Ty) -> Option<(KindModel, LayoutModel)>
    decreases t, 2nat,
{
    match t {
        Ty::Bool => Some((KindModel::Base(MoveKind::Copyable), LayoutModel::Bool)),
        Ty::U8 => Some((KindModel::Base(MoveKind::Copyable), LayoutModel::U8)),
        Ty::U64 => Some((KindModel::Base(MoveKind::Copyable), LayoutModel::U64)),
        Ty::U128 => Some((KindModel::Base(MoveKind::Copyable), LayoutModel::U128)),
        Ty::Address => Some((KindModel::Base(MoveKind::Copyable), LayoutModel::Address)),
        Ty::Signer => Some((KindModel::Base(MoveKind::Resource), LayoutModel::Signer)),
        Ty::Vector(e) => match layout_and_kind_of(*e) {
            Some((k, l)) => Some(
                (KindModel::Vector(top_kind(k), Box::new(k)), LayoutModel::Vector(Box::new(l))),
            ),
            None => None,
        },
        Ty::Struct(s) => match struct_layout_and_kind_of(s) {
            Some(((k, ks), ls)) => Some((KindModel::Struct(k, ks), LayoutModel::Struct(ls))),
            None => None,
        },
        _ => None,
    }
}

/// The declared kind of a struct type, the kind tree of each field and the
/// layout of each field, in declared order.
pub open spec fn struct_layout_and_kind_of(s: StructTy) -> Option<
    ((MoveKind, Seq<KindModel>), Seq<LayoutModel>),
>
    decreases s, 1nat,
{
    match fields_layout_and_kind_of(s.layout) {
        Some((ks, ls)) => Some(((declared_kind(s.is_resource), ks), ls)),
        None => None,
    }
}

pub open spec fn fields_layout_and_kind_of(ts: Seq<Ty>) -> Option<(Seq<KindModel>, Seq<LayoutModel>)>
    decreases ts, 0nat,
{
    if ts.len() == 0 {
        Some((Seq::empty(), Seq::empty()))
    } else {
        match (fields_layout_and_kind_of(ts.drop_last()), layout_and_kind_of(ts.last())) {
            (Some((ks, ls)), Some((k, l))) => Some((ks.push(k), ls.push(l))),
            _ => None,
        }
    }
}

/// Layout of a type, derived without kinds.
pub open spec fn layout_of(t: Ty) -> Option<LayoutModel>
    decreases t, 2nat,
{
    match t {
        Ty::Bool => Some(LayoutModel::Bool),
        Ty::U8 => Some(LayoutModel::U8),
        Ty::U64 => Some(LayoutModel::U64),
        Ty::U128 => Some(LayoutModel::U128),
        Ty::Address => Some(LayoutModel::Address),
        Ty::Signer => Some(LayoutModel::Signer),
        Ty::Vector(e) => match layout_of(*e) {
            Some(l) => Some(LayoutModel::Vector(Box::new(l))),
            None => None,
        },
        Ty::Struct(s) => match struct_layout_of(s) {
            Some(ls) => Some(LayoutModel::Struct(ls)),
            None => None,
        },
        _ => None,
    }
}

pub open spec fn struct_layout_of(s: StructTy) -> Option<Seq<LayoutModel>>
    decreases s, 1nat,
{
    layouts_of(s.layout)
}

pub open spec fn layouts_of(ts: Seq<Ty>) -> Option<Seq<LayoutModel>>
    decreases ts, 0nat,
{
    if ts.len() == 0 {
        Some(Seq::empty())
    } else {
        match (layouts_of(ts.drop_last()), layout_of(ts.last())) {
            (Some(p), Some(l)) => Some(p.push(l)),
            _ => None,
        }
    }
}

/// Whether a type is a resource; `None` for a type parameter, also inside a vector.
pub open spec fn is_resource_of(t: Ty) -> Option<bool>
    decreases t,
{
    match t {
        Ty::Signer => Some(true),
        Ty::Vector(e) => is_resource_of(*e),
        Ty::Struct(s) => Some(s.is_resource),
        Ty::TyParam(_) => None,
        _ => Some(false),
    }
}

proof fn lemma_fields_prefix_fails(xs: Seq<Ty>, j: int)
    requires
        0 <= j <= xs.len(),
        fields_layout_and_kind_of(xs.subrange(0, j)) is None,
    ensures
        fields_layout_and_kind_of(xs) is None,
    decreases xs.len(),
{
    if j == xs.len() {
        assert(xs.subrange(0, j) =~= xs);
    } else {
        assert(xs.drop_last().subrange(0, j) =~= xs.subrange(0, j));
        lemma_fields_prefix_fails(xs.drop_last(), j);
    }
}

proof fn lemma_layouts_prefix_fails(xs: Seq<Ty>, j: int)
    requires
        0 <= j <= xs.len(),
        layouts_of(xs.subrange(0, j)) is None,
    ensures
        layouts_of(xs) is None,
    decreases xs.len(),
{
    if j == xs.len() {
        assert(xs.subrange(0, j) =~= xs);
    } else {
        assert(xs.drop_last().subrange(0, j) =~= xs.subrange(0, j));
        lemma_layouts_prefix_fails(xs.drop_last(), j);
    }
}

/// Whether `e` is the error of a type that has no value layout.
pub open spec fn is_layout_error(e: PartialVMError) -> bool {
    e.major_status == StatusCode::UnknownInvariantViolationError && e.reason
        == ErrorReason::NoTypeLayout
}

/// Whether `e` is the error of the layout bridge.
pub open spec fn is_bridge_error(e: PartialVMError) -> bool {
    e.major_status == StatusCode::AbortTypeMismatchError && e.reason == ErrorReason::Unspecified
}

fn fields_layout_and_kind(ts: &Vec<FatType>) -> (r: PartialVMResult<(Vec<MoveKindInfo>, Vec<MoveTypeLayout>)>)
    ensures
        match r {
            Ok((ks, ls)) => fields_layout_and_kind_of(tys_view(ts@)) == Some(
                (kinds_view(ks@), layouts_view(ls@)),
            ),
            Err(e) => fields_layout_and_kind_of(tys_view(ts@)) is None && is_layout_error(e),
        },
    decreases ts, 0nat,
{
    let ghost xs = tys_view(ts@);
    proof {
        lemma_tys_view(ts@);
        assert(xs.subrange(0, 0) =~= Seq::<Ty>::empty());
        assert(kinds_view(Seq::<MoveKindInfo>::empty()) =~= Seq::<KindModel>::empty());
        assert(layouts_view(Seq::<MoveTypeLayout>::empty()) =~= Seq::<LayoutModel>::empty());
    }
    let mut field_kinds: Vec<MoveKindInfo> = Vec::new();
    let mut field_layouts: Vec<MoveTypeLayout> = Vec::new();
    let mut i: usize = 0;
    while i < ts.len()
        invariant
            i <= ts.len(),
            xs == tys_view(ts@),
            xs.len() == ts@.len(),
            forall|k: int| 0 <= k < ts@.len() ==> #[trigger] xs[k] == ts@[k]@,
            fields_layout_and_kind_of(xs.subrange(0, i as int)) == Some(
                (kinds_view(field_kinds@), layouts_view(field_layouts@)),
            ),
        decreases ts.len() - i,
    {
        proof {
            assert(decreases_to!(ts => ts@[i as int]));
            assert(xs.subrange(0, i + 1).drop_last() =~= xs.subrange(0, i as int));
        }
        match ts[i].layout_and_kind_info() {
            Ok((k, l)) => {
                proof {
                    assert(field_kinds@.push(k).drop_last() =~= field_kinds@);
                    assert(field_layouts@.push(l).drop_last() =~= field_layouts@);
                }
                field_kinds.push(k);
                field_layouts.push(l);
            },
            Err(e) => {
                proof {
                    lemma_fields_prefix_fails(xs, i + 1);
                }
                return Err(e);
            },
        }
        i = i + 1;
    }
    proof {
        assert(xs.subrange(0, i as int) =~= xs);
    }
    Ok((field_kinds, field_layouts))
}

fn field_layouts(ts: &Vec<FatType>) -> (r: PartialVMResult<Vec<MoveTypeLayout>>)
    ensures
        match r {
            Ok(ls) => layouts_of(tys_view(ts@)) == Some(layouts_view(ls@)),
            Err(e) => layouts_of(tys_view(ts@)) is None && is_bridge_error(e),
        },
    decreases ts, 0nat,
{
    let ghost xs = tys_view(ts@);
    proof {
        lemma_tys_view(ts@);
        assert(xs.subrange(0, 0) =~= Seq::<Ty>::empty());
        assert(layouts_view(Seq::<MoveTypeLayout>::empty()) =~= Seq::<LayoutModel>::empty());
    }
    let mut out: Vec<MoveTypeLayout> = Vec::new();
    let mut i: usize = 0;
    while i < ts.len()
        invariant
            i <= ts.len(),
            xs == tys_view(ts@),
            xs.len() == ts@.len(),
            forall|k: int| 0 <= k < ts@.len() ==> #[trigger] xs[k] == ts@[k]@,
            layouts_of(xs.subrange(0, i as int)) == Some(layouts_view(out@)),
        decreases ts.len() - i,
    {
        proof {
            assert(decreases_to!(ts => ts@[i as int]));
            assert(xs.subrange(0, i + 1).drop_last() =~= xs.subrange(0, i as int));
        }
        match ts[i].to_type_layout() {
            Ok(l) => {
                proof {
                    assert(out@.push(l).drop_last() =~= out@);
                }
                out.push(l);
            },
            Err(e) => {
                proof {
                    lemma_layouts_prefix_fails(xs, i + 1);
                }
                return Err(e);
            },
        }
        i = i + 1;
    }
    proof {
        assert(xs.subrange(0, i as int) =~= xs);
    }
    Ok(out)
}

impl FatStructType {
    /// The declared kind of this struct, the kind tree of each field, and the
    /// layout of its fields in declared order.
    pub fn layout_and_kind_info(&self) -> (r: PartialVMResult<
        ((MoveKind, Vec<MoveKindInfo>), MoveStructLayout),
    >)
        ensures
            match r {
                Ok(((k, ks), l)) => struct_layout_and_kind_of(self@) == Some(
                    ((k, kinds_view(ks@)), l@),
                ),
                Err(e) => struct_layout_and_kind_of(self@) is None && is_layout_error(e),
            },
        decreases self, 1nat,
    {
        let (field_kinds, field_layouts) = fields_layout_and_kind(&self.layout)?;
        let k = if self.is_resource {
            MoveKind::Resource
        } else {
            MoveKind::Copyable
        };
        Ok(((k, field_kinds), MoveStructLayout::new(field_layouts)))
    }

    /// The layout of this struct's fields, without kinds.
    pub fn to_struct_layout(&self) -> (r: PartialVMResult<MoveStructLayout>)
        ensures
            match r {
                Ok(l) => struct_layout_of(self@) == Some(l@),
                Err(e) => struct_layout_of(self@) is None && is_bridge_error(e),
            },
        decreases self, 1nat,
    {
        Ok(MoveStructLayout::new(field_layouts(&self.layout)?))
    }
}

impl FatType {
    /// The kind tree and the layout of this type; fails with an invariant
    /// violation on a reference or type parameter, wherever it stands outside
    /// the type arguments.
    pub fn layout_and_kind_info(&self) -> (r: PartialVMResult<(MoveKindInfo, MoveTypeLayout)>)
        ensures
            match r {
                Ok((k, l)) => layout_and_kind_of(self@) == Some((k@, l@)),
                Err(e) => layout_and_kind_of(self@) is None && is_layout_error(e),
            },
        decreases self, 2nat,
    {
        let res = match self {
            FatType::Bool => (MoveKindInfo::Base(MoveKind::Copyable), MoveTypeLayout::Bool),
            FatType::U8 => (MoveKindInfo::Base(MoveKind::Copyable), MoveTypeLayout::U8),
            FatType::U64 => (MoveKindInfo::Base(MoveKind::Copyable), MoveTypeLayout::U64),
            FatType::U128 => (MoveKindInfo::Base(MoveKind::Copyable), MoveTypeLayout::U128),
            FatType::Address => (MoveKindInfo::Base(MoveKind::Copyable), MoveTypeLayout::Address),
            FatType::Signer => (MoveKindInfo::Base(MoveKind::Resource), MoveTypeLayout::Signer),
            FatType::Vector(ty) => {
                let (k, l) = ty.layout_and_kind_info()?;
                (MoveKindInfo::Vector(k.kind(), Box::new(k)), MoveTypeLayout::Vector(Box::new(l)))
            },
            FatType::Struct(struct_ty) => {
                let ((k, field_kinds), field_layouts) = struct_ty.layout_and_kind_info()?;
                (MoveKindInfo::Struct(k, field_kinds), MoveTypeLayout::Struct(field_layouts))
            },
            FatType::Reference(_) | FatType::MutableReference(_) | FatType::TyParam(_) => {
                return Err(PartialVMError::invariant_violation(ErrorReason::NoTypeLayout));
            },
        };
        Ok(res)
    }

    /// The layout of this type, without kinds; fails where
    /// `layout_and_kind_info` fails, with a type-mismatch status.
    pub fn to_type_layout(&self) -> (r: PartialVMResult<MoveTypeLayout>)
        ensures
            match r {
                Ok(l) => layout_of(self@) == Some(l@),
                Err(e) => layout_of(self@) is None && is_bridge_error(e),
            },
        decreases self, 2nat,
    {
        let res = match self {
            FatType::Address => MoveTypeLayout::Address,
            FatType::U8 => MoveTypeLayout::U8,
            FatType::U64 => MoveTypeLayout::U64,
            FatType::U128 => MoveTypeLayout::U128,
            FatType::Bool => MoveTypeLayout::Bool,
            FatType::Vector(v) => MoveTypeLayout::Vector(Box::new(v.to_type_layout()?)),
            FatType::Struct(s) => MoveTypeLayout::Struct(s.to_struct_layout()?),
            FatType::Signer => MoveTypeLayout::Signer,
            _ => {
                return Err(
                    PartialVMError::new(StatusCode::AbortTypeMismatchError, ErrorReason::Unspecified),
                );
            },
        };
        Ok(res)
    }

    /// Whether this type is a resource: a signer, a struct declared as a
    /// resource, or a vector of such. Fails with an invariant violation on a
    /// type parameter, also inside a vector.
    pub fn is_resource(&self) -> (r: PartialVMResult<bool>)
        ensures
            match r {
                Ok(b) => is_resource_of(self@) == Some(b),
                Err(e) => is_resource_of(self@) is None && e.major_status
                    == StatusCode::UnknownInvariantViolationError && e.reason
                    == ErrorReason::ResourceOfTypeParam,
            },
        decreases self,
    {
        match self {
            FatType::Signer => Ok(true),
            FatType::Vector(ty) => ty.is_resource(),
            FatType::Struct(struct_ty) => {
                assert(struct_ty@.is_resource == struct_ty.is_resource);
                Ok(struct_ty.is_resource)
            },
            FatType::TyParam(_) => Err(
                PartialVMError::invariant_violation(ErrorReason::ResourceOfTypeParam),
            ),
            _ => Ok(false),
        }
    }
}

} // verus!
