//! Substitution of type arguments for type parameters.
use vstd::prelude::*;
use crate::types::{
    lemma_tys_view, tys_view, ErrorReason, FatStructType, FatType, PartialVMError, PartialVMResult,
    StatusCode, StructTy, Ty,
};

verus! {

/// The model of `t` with each `TyParam(i)` replaced by `args[i]`; `None` when
/// some index is out of range.
pub open spec fn subst_ty(t: Ty, args: Seq<Ty>) -> Option<Ty>
    decreases t, 2nat,
{
    match t {
        Ty::TyParam(i) => if i < args.len() {
            Some(args[i as int])
        } else {
            None
        },
        Ty::Vector(e) => match subst_ty(*e, args) {
            Some(e2) => Some(Ty::Vector(Box::new(e2))),
            None => None,
        },
        Ty::Reference(e) => match subst_ty(*e, args) {
            Some(e2) => Some(Ty::Reference(Box::new(e2))),
            None => None,
        },
        Ty::MutableReference(e) => match subst_ty(*e, args) {
            Some(e2) => Some(Ty::MutableReference(Box::new(e2))),
            None => None,
        },
        Ty::Struct(s) => match subst_struct(s, args) {
            Some(s2) => Some(Ty::Struct(s2)),
            None => None,
        },
        _ => Some(t),
    }
}

/// Substitution in the type arguments and fields of a struct type; the rest is kept.
pub open spec fn subst_struct(s: StructTy, args: Seq<Ty>) -> Option<StructTy>
    decreases s, 1nat,
{
    match (subst_seq(s.ty_args, args), subst_seq(s.layout, args)) {
        (Some(ty_args), Some(layout)) => Some(StructTy { ty_args, layout, ..s }),
        _ => None,
    }
}

/// Substitution in each type of a sequence; `None` when it fails on any of them.
pub open spec fn subst_seq(ts: Seq<Ty>, args: Seq<Ty>) -> Option<Seq<Ty>>
    decreases ts, 0nat,
{
    if ts.len() == 0 {
        Some(Seq::empty())
    } else {
        match (subst_seq(ts.drop_last(), args), subst_ty(ts.last(), args)) {
            (Some(p), Some(t)) => Some(p.push(t)),
            _ => None,
        }
    }
}

/// What a failed substitution reports: an invariant violation naming the
/// number of type arguments and an index past it.
pub open spec fn is_subst_error(e: PartialVMError, n: nat) -> bool {
    &&& e.major_status == StatusCode::UnknownInvariantViolationError
    &&& e.reason matches ErrorReason::SubstIndexOutOfBounds { len, index }
    &&& len == n && index >= len
}

proof fn lemma_subst_seq_prefix_fails(xs: Seq<Ty>, j: int, args: Seq<Ty>)
    requires
        0 <= j <= xs.len(),
        subst_seq(xs.subrange(0, j), args) is None,
    ensures
        subst_seq(xs, args) is None,
    decreases xs.len(),
{
    if j == xs.len() {
        assert(xs.subrange(0, j) =~= xs);
    } else {
        assert(xs.drop_last().subrange(0, j) =~= xs.subrange(0, j));
        lemma_subst_seq_prefix_fails(xs.drop_last(), j, args);
    }
}

/// Substitutes in each type of a vector, in order.
fn subst_types(ts: &Vec<FatType>, ty_args: &[FatType]) -> (r: PartialVMResult<Vec<FatType>>)
    ensures
        match r {
            Ok(v) => subst_seq(tys_view(ts@), tys_view(ty_args@)) == Some(tys_view(v@)),
            Err(e) => subst_seq(tys_view(ts@), tys_view(ty_args@)) is None
                && is_subst_error(e, ty_args@.len()),
        },
    decreases ts, 0nat,
{
    let ghost xs = tys_view(ts@);
    let ghost args = tys_view(ty_args@);
    proof {
        lemma_tys_view(ts@);
        assert(xs.subrange(0, 0) =~= Seq::<Ty>::empty());
        assert(tys_view(Seq::<FatType>::empty()) =~= Seq::<Ty>::empty());
    }
    let mut out: Vec<FatType> = Vec::new();
    let mut i: usize = 0;
    while i < ts.len()
        invariant
            i <= ts.len(),
            xs == tys_view(ts@),
            args == tys_view(ty_args@),
            xs.len() == ts@.len(),
            forall|k: int| 0 <= k < ts@.len() ==> #[trigger] xs[k] == ts@[k]@,
            subst_seq(xs.subrange(0, i as int), args) == Some(tys_view(out@)),
        decreases ts.len() - i,
    {
        proof {
            assert(decreases_to!(ts => ts@[i as int]));
            assert(xs.subrange(0, i + 1).drop_last() =~= xs.subrange(0, i as int));
        }
        match ts[i].subst(ty_args) {
            Ok(t) => {
                proof {
                    assert(out@.push(t).drop_last() =~= out@);
                }
                out.push(t);
            },
            Err(e) => {
                proof {
                    lemma_subst_seq_prefix_fails(xs, i + 1, args);
                }
                return Err(e);
            },
        }
        i = i + 1;
    }
    proof {
        assert(xs.subrange(0, i as int) =~= xs);
    }
    Ok(out)
}

impl FatStructType {
    /// This struct type with `ty_args[i]` in place of each `TyParam(i)` in its
    /// type arguments and fields.
    pub fn subst(&self, ty_args: &[FatType]) -> (r: PartialVMResult<FatStructType>)
        ensures
            match r {
                Ok(s) => subst_struct(self@, tys_view(ty_args@)) == Some(s@),
                Err(e) => subst_struct(self@, tys_view(ty_args@)) is None
                    && is_subst_error(e, ty_args@.len()),
            },
        decreases self, 1nat,
    {
        let new_args = subst_types(&self.ty_args, ty_args)?;
        let new_layout = subst_types(&self.layout, ty_args)?;
        Ok(FatStructType {
            address: self.address,
            module: self.module.clone(),
            name: self.name.clone(),
            is_resource: self.is_resource,
            ty_args: new_args,
            layout: new_layout,
        })
    }
}

impl FatType {
    /// This type with `ty_args[i]` in place of each `TyParam(i)`; fails with an
    /// invariant violation when an index is out of range.
    pub fn subst(&self, ty_args: &[FatType]) -> (r: PartialVMResult<FatType>)
        ensures
            match r {
                Ok(t) => subst_ty(self@, tys_view(ty_args@)) == Some(t@),
                Err(e) => subst_ty(self@, tys_view(ty_args@)) is None
                    && is_subst_error(e, ty_args@.len()),
            },
        decreases self, 2nat,
    {
        proof {
            lemma_tys_view(ty_args@);
        }
        let res = match self {
            FatType::TyParam(idx) => {
                if *idx < ty_args.len() {
                    ty_args[*idx].deep_copy()
                } else {
                    return Err(
                        PartialVMError::invariant_violation(
                            ErrorReason::SubstIndexOutOfBounds { len: ty_args.len(), index: *idx },
                        ),
                    );
                }
            },
            FatType::Bool => FatType::Bool,
            FatType::U8 => FatType::U8,
            FatType::U64 => FatType::U64,
            FatType::U128 => FatType::U128,
            FatType::Address => FatType::Address,
            FatType::Signer => FatType::Signer,
            FatType::Vector(ty) => FatType::Vector(Box::new(ty.subst(ty_args)?)),
            FatType::Reference(ty) => FatType::Reference(Box::new(ty.subst(ty_args)?)),
            FatType::MutableReference(ty) => FatType::MutableReference(
                Box::new(ty.subst(ty_args)?),
            ),
            FatType::Struct(struct_ty) => FatType::Struct(Box::new(struct_ty.subst(ty_args)?)),
        };
        Ok(res)
    }
}

} // verus!
