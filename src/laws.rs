//! Properties that relate the operations on runtime types to each other.
use vstd::prelude::*;
use crate::types::{FatType, StructTy, Ty};
use crate::subst::{subst_seq, subst_struct, subst_ty};
use crate::tag::{struct_tag_of, type_tag_of, type_tags_of};
use crate::layout::{
    declared_kind, fields_layout_and_kind_of, is_resource_of, layout_and_kind_of, layout_of,
    layouts_of, struct_layout_and_kind_of, struct_layout_of, top_kind, MoveKind,
};
use crate::format::{format_list_of, format_of, format_struct_of};

verus! {

/// Whether no type parameter occurs anywhere in a type.
pub open spec fn no_ty_param(t: Ty) -> bool
    decreases t, 2nat,
{
    match t {
        Ty::TyParam(_) => false,
        Ty::Vector(e) => no_ty_param(*e),
        Ty::Reference(e) => no_ty_param(*e),
        Ty::MutableReference(e) => no_ty_param(*e),
        Ty::Struct(s) => no_ty_param_struct(s),
        _ => true,
    }
}

pub open spec fn no_ty_param_struct(s: StructTy) -> bool
    decreases s, 1nat,
{
    no_ty_param_seq(s.ty_args) && no_ty_param_seq(s.layout)
}

pub open spec fn no_ty_param_seq(ts: Seq<Ty>) -> bool
    decreases ts, 0nat,
{
    ts.len() == 0 || (no_ty_param_seq(ts.drop_last()) && no_ty_param(ts.last()))
}

/// Whether a type is concrete: neither a type parameter nor a reference
/// occurs anywhere in it.
pub open spec fn is_concrete(t: Ty) -> bool
    decreases t, 2nat,
{
    match t {
        Ty::TyParam(_) | Ty::Reference(_) | Ty::MutableReference(_) => false,
        Ty::Vector(e) => is_concrete(*e),
        Ty::Struct(s) => is_concrete_struct(s),
        _ => true,
    }
}

pub open spec fn is_concrete_struct(s: StructTy) -> bool
    decreases s, 1nat,
{
    is_concrete_seq(s.ty_args) && is_concrete_seq(s.layout)
}

pub open spec fn is_concrete_seq(ts: Seq<Ty>) -> bool
    decreases ts, 0nat,
{
    ts.len() == 0 || (is_concrete_seq(ts.drop_last()) && is_concrete(ts.last()))
}

/// Whether a type parameter stands at the top of a type or under vectors only.
pub open spec fn exposes_ty_param(t: Ty) -> bool
    decreases t,
{
    match t {
        Ty::TyParam(_) => true,
        Ty::Vector(e) => exposes_ty_param(*e),
        _ => false,
    }
}

/// Whether a reference stands at the top of a type or under vectors only.
pub open spec fn exposes_reference(t: Ty) -> bool
    decreases t,
{
    match t {
        Ty::Reference(_) | Ty::MutableReference(_) => true,
        Ty::Vector(e) => exposes_reference(*e),
        _ => false,
    }
}

proof fn lemma_subst_identity(t: Ty, args: Seq<Ty>)
    requires
        no_ty_param(t),
    ensures
        subst_ty(t, args) == Some(t),
    decreases t, 2nat,
{
    match t {
        Ty::Vector(e) => lemma_subst_identity(*e, args),
        Ty::Reference(e) => lemma_subst_identity(*e, args),
        Ty::MutableReference(e) => lemma_subst_identity(*e, args),
        Ty::Struct(s) => lemma_subst_identity_struct(s, args),
        _ => {},
    }
}

proof fn lemma_subst_identity_struct(s: StructTy, args: Seq<Ty>)
    requires
        no_ty_param_struct(s),
    ensures
        subst_struct(s, args) == Some(s),
    decreases s, 1nat,
{
    lemma_subst_identity_seq(s.ty_args, args);
    lemma_subst_identity_seq(s.layout, args);
}

proof fn lemma_subst_identity_seq(ts: Seq<Ty>, args: Seq<Ty>)
    requires
        no_ty_param_seq(ts),
    ensures
        subst_seq(ts, args) == Some(ts),
    decreases ts, 0nat,
{
    if ts.len() > 0 {
        lemma_subst_identity_seq(ts.drop_last(), args);
        lemma_subst_identity(ts.last(), args);
        assert(ts.drop_last().push(ts.last()) =~= ts);
    } else {
        assert(ts =~= Seq::<Ty>::empty());
    }
}

/// Substituting into a type in which no type parameter occurs returns the type
/// unchanged, whatever the type arguments.
pub proof fn law_subst_identity(t: Ty, args: Seq<Ty>)
    requires
        no_ty_param(t),
    ensures
        subst_ty(t, args) == Some(t),
{
    lemma_subst_identity(t, args);
}

proof fn lemma_subst_seq_index(ts: Seq<Ty>, args: Seq<Ty>)
    requires
        subst_seq(ts, args) is Some,
    ensures
        subst_seq(ts, args)->Some_0.len() == ts.len(),
        forall|i: int|
            0 <= i < ts.len() ==> subst_ty(#[trigger] ts[i], args) == Some(
                subst_seq(ts, args)->Some_0[i],
            ),
    decreases ts.len(),
{
    if ts.len() > 0 {
        lemma_subst_seq_index(ts.drop_last(), args);
        assert forall|i: int| 0 <= i < ts.len() implies subst_ty(#[trigger] ts[i], args) == Some(
            subst_seq(ts, args)->Some_0[i],
        ) by {
            if i < ts.len() - 1 {
                assert(ts[i] == ts.drop_last()[i]);
            }
        }
    }
}

proof fn lemma_subst_compose(t: Ty, a1: Seq<Ty>, a2: Seq<Ty>)
    requires
        subst_ty(t, a1) is Some,
        subst_seq(a1, a2) is Some,
    ensures
        subst_ty(subst_ty(t, a1)->Some_0, a2) == subst_ty(t, subst_seq(a1, a2)->Some_0),
    decreases t, 2nat,
{
    match t {
        Ty::TyParam(i) => {
            lemma_subst_seq_index(a1, a2);
        },
        Ty::Vector(e) => lemma_subst_compose(*e, a1, a2),
        Ty::Reference(e) => lemma_subst_compose(*e, a1, a2),
        Ty::MutableReference(e) => lemma_subst_compose(*e, a1, a2),
        Ty::Struct(s) => lemma_subst_compose_struct(s, a1, a2),
        _ => {},
    }
}

proof fn lemma_subst_compose_struct(s: StructTy, a1: Seq<Ty>, a2: Seq<Ty>)
    requires
        subst_struct(s, a1) is Some,
        subst_seq(a1, a2) is Some,
    ensures
        match subst_struct(subst_struct(s, a1)->Some_0, a2) {
            Some(s2) => subst_struct(s, subst_seq(a1, a2)->Some_0) == Some(s2),
            None => subst_struct(s, subst_seq(a1, a2)->Some_0) is None,
        },
    decreases s, 1nat,
{
    lemma_subst_compose_seq(s.ty_args, a1, a2);
    lemma_subst_compose_seq(s.layout, a1, a2);
}

proof fn lemma_subst_compose_seq(ts: Seq<Ty>, a1: Seq<Ty>, a2: Seq<Ty>)
    requires
        subst_seq(ts, a1) is Some,
        subst_seq(a1, a2) is Some,
    ensures
        subst_seq(subst_seq(ts, a1)->Some_0, a2) == subst_seq(ts, subst_seq(a1, a2)->Some_0),
    decreases ts, 0nat,
{
    if ts.len() > 0 {
        lemma_subst_compose_seq(ts.drop_last(), a1, a2);
        lemma_subst_compose(ts.last(), a1, a2);
        let r = subst_seq(ts, a1)->Some_0;
        assert(r.drop_last() =~= subst_seq(ts.drop_last(), a1)->Some_0);
    }
}

/// Two substitution passes equal one pass with the first arguments resolved by
/// the second; where no type parameter remains after the first pass, the
/// second leaves its result unchanged.
pub proof fn law_subst_compose(t: Ty, a1: Seq<Ty>, a2: Seq<Ty>)
    requires
        subst_ty(t, a1) is Some,
        subst_seq(a1, a2) is Some,
    ensures
        subst_ty(subst_ty(t, a1)->Some_0, a2) == subst_ty(t, subst_seq(a1, a2)->Some_0),
        no_ty_param(subst_ty(t, a1)->Some_0) ==> subst_ty(t, subst_seq(a1, a2)->Some_0)
            == subst_ty(t, a1),
{
    lemma_subst_compose(t, a1, a2);
    if no_ty_param(subst_ty(t, a1)->Some_0) {
        lemma_subst_identity(subst_ty(t, a1)->Some_0, a2);
    }
}

/// A concrete type has a tag, a kind tree with layout, a resource
/// classification and a text.
pub proof fn lemma_concrete_succeeds(t: Ty)
    requires
        is_concrete(t),
    ensures
        type_tag_of(t) is Some,
        layout_and_kind_of(t) is Some,
        is_resource_of(t) is Some,
        format_of(t) is Some,
    decreases t, 2nat,
{
    match t {
        Ty::Vector(e) => lemma_concrete_succeeds(*e),
        Ty::Struct(s) => lemma_concrete_succeeds_struct(s),
        _ => {},
    }
}

proof fn lemma_concrete_succeeds_struct(s: StructTy)
    requires
        is_concrete_struct(s),
    ensures
        struct_tag_of(s) is Some,
        struct_layout_and_kind_of(s) is Some,
        format_struct_of(s) is Some,
    decreases s, 1nat,
{
    lemma_concrete_succeeds_seq(s.ty_args);
    lemma_concrete_succeeds_seq(s.layout);
}

proof fn lemma_concrete_succeeds_seq(ts: Seq<Ty>)
    requires
        is_concrete_seq(ts),
    ensures
        type_tags_of(ts) is Some,
        fields_layout_and_kind_of(ts) is Some,
        format_list_of(ts) is Some,
    decreases ts, 0nat,
{
    if ts.len() > 0 {
        lemma_concrete_succeeds_seq(ts.drop_last());
        lemma_concrete_succeeds(ts.last());
    }
}

/// The tag is a function of the type's model: equal concrete types have a tag,
/// and the same one.
pub proof fn law_tag_deterministic(t1: FatType, t2: FatType)
    requires
        t1@ == t2@,
        is_concrete(t1@),
    ensures
        type_tag_of(t1@) is Some,
        type_tag_of(t1@) == type_tag_of(t2@),
{
    lemma_concrete_succeeds(t1@);
}

proof fn lemma_layout_agrees(t: Ty)
    ensures
        layout_of(t) == match layout_and_kind_of(t) {
            Some((_, l)) => Some(l),
            None => None,
        },
    decreases t, 2nat,
{
    match t {
        Ty::Vector(e) => lemma_layout_agrees(*e),
        Ty::Struct(s) => {
            lemma_layout_agrees_seq(s.layout);
            assert(struct_layout_of(s) == layouts_of(s.layout));
            assert(struct_layout_and_kind_of(s) == match fields_layout_and_kind_of(s.layout) {
                Some((ks, ls)) => Some(((declared_kind(s.is_resource), ks), ls)),
                None => None,
            });
        },
        _ => {},
    }
}

proof fn lemma_layout_agrees_seq(ts: Seq<Ty>)
    ensures
        layouts_of(ts) == match fields_layout_and_kind_of(ts) {
            Some((_, ls)) => Some(ls),
            None => None,
        },
    decreases ts, 0nat,
{
    if ts.len() > 0 {
        lemma_layout_agrees_seq(ts.drop_last());
        lemma_layout_agrees(ts.last());
    }
}

/// The layout derived alone is the layout derived with kinds, and each exists
/// exactly when the other does; on a concrete type both exist.
pub proof fn law_layout_agrees(t: Ty)
    ensures
        layout_of(t) == match layout_and_kind_of(t) {
            Some((_, l)) => Some(l),
            None => None,
        },
        is_concrete(t) ==> layout_of(t) is Some,
{
    lemma_layout_agrees(t);
    if is_concrete(t) {
        lemma_concrete_succeeds(t);
    }
}

/// The layout of a struct's fields, derived alone, is the one derived with kinds.
pub proof fn law_struct_layout_agrees(s: StructTy)
    ensures
        struct_layout_of(s) == match struct_layout_and_kind_of(s) {
            Some((_, ls)) => Some(ls),
            None => None,
        },
{
    lemma_layout_agrees_seq(s.layout);
}

/// Wherever a type has a kind tree, its top kind is `Resource` exactly when the
/// resource classifier says so: a vector of resources is a resource, and a
/// struct follows its declaration whatever its fields.
pub proof fn law_kind_agrees_with_is_resource(t: Ty)
    requires
        layout_and_kind_of(t) is Some,
    ensures
        is_resource_of(t) == Some(top_kind(layout_and_kind_of(t)->Some_0.0) == MoveKind::Resource),
    decreases t,
{
    match t {
        Ty::Vector(e) => law_kind_agrees_with_is_resource(*e),
        Ty::Struct(s) => {
            assert(struct_layout_and_kind_of(s)->Some_0.0.0 == declared_kind(s.is_resource));
        },
        _ => {},
    }
}

/// A struct declared as a resource has kind `Resource` at its own level, and a
/// vector of it too, whatever the kinds of its fields.
pub proof fn law_resource_struct_propagates(s: StructTy)
    requires
        s.is_resource,
        struct_layout_and_kind_of(s) is Some,
    ensures
        struct_layout_and_kind_of(s)->Some_0.0.0 == MoveKind::Resource,
        top_kind(layout_and_kind_of(Ty::Struct(s))->Some_0.0) == MoveKind::Resource,
        top_kind(layout_and_kind_of(Ty::Vector(Box::new(Ty::Struct(s))))->Some_0.0)
            == MoveKind::Resource,
        is_resource_of(Ty::Vector(Box::new(Ty::Struct(s)))) == Some(true),
{
    assert(declared_kind(true) == MoveKind::Resource);
    assert(is_resource_of(Ty::Struct(s)) == Some(true));
    reveal_with_fuel(is_resource_of, 2);
}

/// A type parameter, bare or under vectors, has no tag, no layout, no resource
/// classification and no text; a reference, bare or under vectors, has no tag
/// and no layout.
pub proof fn law_unresolved_fails(t: Ty)
    ensures
        exposes_ty_param(t) ==> type_tag_of(t) is None && layout_and_kind_of(t) is None
            && layout_of(t) is None && is_resource_of(t) is None && format_of(t) is None,
        exposes_reference(t) ==> type_tag_of(t) is None && layout_and_kind_of(t) is None
            && layout_of(t) is None,
    decreases t,
{
    match t {
        Ty::Vector(e) => law_unresolved_fails(*e),
        _ => {},
    }
}

proof fn lemma_field_fails(ts: Seq<Ty>, i: int)
    requires
        0 <= i < ts.len(),
        layout_and_kind_of(ts[i]) is None,
    ensures
        fields_layout_and_kind_of(ts) is None,
        layouts_of(ts) is None,
    decreases ts.len(),
{
    lemma_layout_agrees(ts[i]);
    if i < ts.len() - 1 {
        assert(ts.drop_last()[i] == ts[i]);
        lemma_field_fails(ts.drop_last(), i);
    }
}

proof fn lemma_type_arg_fails(ts: Seq<Ty>, i: int)
    requires
        0 <= i < ts.len(),
        type_tag_of(ts[i]) is None,
    ensures
        type_tags_of(ts) is None,
    decreases ts.len(),
{
    if i < ts.len() - 1 {
        assert(ts.drop_last()[i] == ts[i]);
        lemma_type_arg_fails(ts.drop_last(), i);
    }
}

/// A field without layout leaves its struct without layout; a type argument
/// without tag leaves its struct without tag.
pub proof fn law_nested_failure(s: StructTy, i: int)
    ensures
        0 <= i < s.layout.len() && layout_and_kind_of(s.layout[i]) is None ==> layout_and_kind_of(
            Ty::Struct(s),
        ) is None && layout_of(Ty::Struct(s)) is None,
        0 <= i < s.ty_args.len() && type_tag_of(s.ty_args[i]) is None ==> type_tag_of(
            Ty::Struct(s),
        ) is None,
{
    if 0 <= i < s.layout.len() && layout_and_kind_of(s.layout[i]) is None {
        lemma_field_fails(s.layout, i);
        assert(struct_layout_and_kind_of(s) is None);
        assert(struct_layout_of(s) is None);
    }
    if 0 <= i < s.ty_args.len() && type_tag_of(s.ty_args[i]) is None {
        lemma_type_arg_fails(s.ty_args, i);
        assert(struct_tag_of(s) is None);
    }
}

} // verus!
