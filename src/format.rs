//! Human-readable rendering of runtime types, for diagnostics.
use vstd::prelude::*;
use vstd::string::StringExecFns;
use crate::types::{
    lemma_tys_view, tys_view, ErrorReason, FatStructType, FatType, PartialVMError,
    PartialVMResult, StatusCode, StructTy, Ty,
};

verus! {

/// The text of a type: keywords for primitives, `vector<T>`, `&T`, `&mut T`,
/// and `module::name` with `<T1, T2>` when there are type arguments; `None`
/// when a type parameter stands anywhere but in a field.
pub open spec fn format_of(t: Ty) -> Option<Seq<char>>
    decreases t, 2nat,
{
    match t {
        Ty::Bool => Some("bool"@),
        Ty::U8 => Some("u8"@),
        Ty::U64 => Some("u64"@),
        Ty::U128 => Some("u128"@),
        Ty::Address => Some("address"@),
        Ty::Signer => Some("signer"@),
        Ty::Vector(e) => match format_of(*e) {
            Some(x) => Some("vector<"@ + x + ">"@),
            None => None,
        },
        Ty::Struct(s) => format_struct_of(s),
        Ty::Reference(e) => match format_of(*e) {
            Some(x) => Some("&"@ + x),
            None => None,
        },
        Ty::MutableReference(e) => match format_of(*e) {
            Some(x) => Some("&mut "@ + x),
            None => None,
        },
        Ty::TyParam(_) => None,
    }
}

pub open spec fn format_struct_of(s: StructTy) -> Option<Seq<char>>
    decreases s, 1nat,
{
    let head = s.module + "::"@ + s.name;
    if s.ty_args.len() == 0 {
        Some(head)
    } else {
        match format_list_of(s.ty_args) {
            Some(x) => Some(head + "<"@ + x + ">"@),
            None => None,
        }
    }
}

/// The texts of the types, separated by `", "`.
pub open spec fn format_list_of(ts: Seq<Ty>) -> Option<Seq<char>>
    decreases ts, 0nat,
{
    if ts.len() == 0 {
        Some(Seq::empty())
    } else {
        match (format_list_of(ts.drop_last()), format_of(ts.last())) {
            (Some(p), Some(x)) => Some(
                if ts.len() == 1 {
                    x
                } else {
                    p + ", "@ + x
                },
            ),
            _ => None,
        }
    }
}

proof fn lemma_format_list_prefix_fails(xs: Seq<Ty>, j: int)
    requires
        0 <= j <= xs.len(),
        format_list_of(xs.subrange(0, j)) is None,
    ensures
        format_list_of(xs) is None,
    decreases xs.len(),
{
    if j == xs.len() {
        assert(xs.subrange(0, j) =~= xs);
    } else {
        assert(xs.drop_last().subrange(0, j) =~= xs.subrange(0, j));
        lemma_format_list_prefix_fails(xs.drop_last(), j);
    }
}

/// Whether `e` is the error of a type parameter that was to be printed.
pub open spec fn is_print_error(e: PartialVMError) -> bool {
    e.major_status == StatusCode::UnknownInvariantViolationError && e.reason
        == ErrorReason::PrintTypeParam
}

impl FatStructType {
    /// Appends `module::name`, then `<T1, T2, ...>` where there are type arguments.
    pub fn debug_print(&self, buf: &mut String) -> (r: PartialVMResult<()>)
        ensures
            match r {
                Ok(()) => format_struct_of(self@) is Some && final(buf)@ == old(buf)@
                    + format_struct_of(self@)->Some_0,
                Err(e) => format_struct_of(self@) is None && is_print_error(e),
            },
        decreases self, 1nat,
    {
        let ghost start = buf@;
        let ghost xs = tys_view(self.ty_args@);
        proof {
            lemma_tys_view(self.ty_args@);
        }
        buf.append(self.module.as_str());
        buf.append("::");
        buf.append(self.name.as_str());
        let ghost head = buf@;
        assert(head == start + (self@.module + "::"@ + self@.name));
        if self.ty_args.len() == 0 {
            return Ok(());
        }
        buf.append("<");
        proof {
            assert(xs.subrange(0, 0) =~= Seq::<Ty>::empty());
            assert(buf@ == head + "<"@ + Seq::<char>::empty());
        }
        let mut i: usize = 0;
        while i < self.ty_args.len()
            invariant
                i <= self.ty_args.len(),
                xs == tys_view(self.ty_args@),
                xs.len() == self.ty_args@.len(),
                forall|k: int|
                    0 <= k < self.ty_args@.len() ==> #[trigger] xs[k] == self.ty_args@[k]@,
                format_list_of(xs.subrange(0, i as int)) is Some,
                buf@ == head + "<"@ + format_list_of(xs.subrange(0, i as int))->Some_0,
            decreases self.ty_args.len() - i,
        {
            proof {
                assert(decreases_to!(self => self.ty_args));
                assert(decreases_to!(self.ty_args => self.ty_args@[i as int]));
                assert(xs.subrange(0, i + 1).drop_last() =~= xs.subrange(0, i as int));
            }
            let ghost before = buf@;
            if i > 0 {
                buf.append(", ");
            }
            let ghost mid = buf@;
            match self.ty_args[i].debug_print(buf) {
                Ok(()) => {
                    proof {
                        let p = format_list_of(xs.subrange(0, i as int))->Some_0;
                        let x = format_of(xs[i as int])->Some_0;
                        if i == 0 {
                            assert(mid == before);
                            assert(p =~= Seq::<char>::empty());
                            assert(buf@ =~= head + "<"@ + x);
                        } else {
                            assert(buf@ =~= head + "<"@ + (p + ", "@ + x));
                        }
                    }
                },
                Err(e) => {
                    proof {
                        lemma_format_list_prefix_fails(xs, i + 1);
                    }
                    return Err(e);
                },
            }
            i = i + 1;
        }
        proof {
            assert(xs.subrange(0, i as int) =~= xs);
        }
        buf.append(">");
        proof {
            assert(buf@ =~= start + (head.subrange(start.len() as int, head.len() as int) + "<"@
                + format_list_of(xs)->Some_0 + ">"@));
        }
        Ok(())
    }
}

impl FatType {
    /// Appends the text of this type; fails with an invariant violation on a
    /// type parameter, where the text written so far stays in `buf`.
    pub fn debug_print(&self, buf: &mut String) -> (r: PartialVMResult<()>)
        ensures
            match r {
                Ok(()) => format_of(self@) is Some && final(buf)@ == old(buf)@ + format_of(
                    self@,
                )->Some_0,
                Err(e) => format_of(self@) is None && is_print_error(e),
            },
        decreases self, 2nat,
    {
        let ghost start = buf@;
        match self {
            FatType::Bool => buf.append("bool"),
            FatType::U8 => buf.append("u8"),
            FatType::U64 => buf.append("u64"),
            FatType::U128 => buf.append("u128"),
            FatType::Address => buf.append("address"),
            FatType::Signer => buf.append("signer"),
            FatType::Vector(elem_ty) => {
                buf.append("vector<");
                elem_ty.debug_print(buf)?;
                buf.append(">");
                assert(buf@ =~= start + ("vector<"@ + format_of(elem_ty@)->Some_0 + ">"@));
            },
            FatType::Struct(struct_ty) => {
                struct_ty.debug_print(buf)?;
            },
            FatType::Reference(ty) => {
                buf.append("&");
                ty.debug_print(buf)?;
                assert(buf@ =~= start + ("&"@ + format_of(ty@)->Some_0));
            },
            FatType::MutableReference(ty) => {
                buf.append("&mut ");
                ty.debug_print(buf)?;
                assert(buf@ =~= start + ("&mut "@ + format_of(ty@)->Some_0));
            },
            FatType::TyParam(_) => {
                return Err(PartialVMError::invariant_violation(ErrorReason::PrintTypeParam));
            },
        }
        Ok(())
    }
}

} // verus!
