use move_vm_types::layout::{MoveKind, MoveKindInfo, MoveStructLayout, MoveTypeLayout};
use move_vm_types::tag::{StructTag, TypeTag};
use move_vm_types::types::{
    AccountAddress, ErrorReason, FatStructType, FatType, PartialVMError, StatusCode,
};

fn address_one() -> AccountAddress {
    let mut bytes = [0u8; 16];
    bytes[15] = 1;
    AccountAddress { bytes }
}

fn coin_generic() -> FatStructType {
    FatStructType {
        address: address_one(),
        module: "M".to_string(),
        name: "Coin".to_string(),
        is_resource: true,
        ty_args: vec![FatType::TyParam(0)],
        layout: vec![FatType::TyParam(0)],
    }
}

fn coin_u64() -> FatStructType {
    FatStructType {
        address: address_one(),
        module: "M".to_string(),
        name: "Coin".to_string(),
        is_resource: true,
        ty_args: vec![FatType::U64],
        layout: vec![FatType::U64],
    }
}

fn plain_struct(is_resource: bool, ty_args: Vec<FatType>, layout: Vec<FatType>) -> FatType {
    FatType::Struct(Box::new(FatStructType {
        address: address_one(),
        module: "N".to_string(),
        name: "S".to_string(),
        is_resource,
        ty_args,
        layout,
    }))
}

fn text(t: &FatType) -> Result<String, PartialVMError> {
    let mut buf = String::new();
    t.debug_print(&mut buf)?;
    Ok(buf)
}

fn violation(reason: ErrorReason) -> PartialVMError {
    PartialVMError { major_status: StatusCode::UnknownInvariantViolationError, reason }
}

fn nested_samples() -> Vec<FatType> {
    vec![
        FatType::Bool,
        FatType::U8,
        FatType::U128,
        FatType::Address,
        FatType::Signer,
        FatType::Vector(Box::new(FatType::Vector(Box::new(FatType::U8)))),
        FatType::Struct(Box::new(coin_u64())),
        plain_struct(false, vec![FatType::Bool, FatType::Signer], vec![FatType::Address]),
        FatType::Vector(Box::new(plain_struct(
            true,
            vec![],
            vec![FatType::Struct(Box::new(coin_u64())), FatType::U64],
        ))),
    ]
}

#[test]
fn scenario_coin_substitution() {
    let s = coin_generic().subst(&[FatType::U64]).unwrap();
    assert_eq!(s.ty_args, vec![FatType::U64]);
    assert_eq!(s.layout, vec![FatType::U64]);
    assert!(s.is_resource);
    assert_eq!(s.module, "M");
    assert_eq!(s.name, "Coin");
    assert_eq!(s.address, address_one());
}

#[test]
fn scenario_coin_tag() {
    let s = coin_generic().subst(&[FatType::U64]).unwrap();
    let expected = StructTag {
        address: address_one(),
        module: "M".to_string(),
        name: "Coin".to_string(),
        type_params: vec![TypeTag::U64],
    };
    assert_eq!(s.struct_tag().unwrap(), expected);
    let t = FatType::Struct(Box::new(s));
    assert_eq!(
        t.type_tag().unwrap(),
        TypeTag::Struct(StructTag {
            address: address_one(),
            module: "M".to_string(),
            name: "Coin".to_string(),
            type_params: vec![TypeTag::U64],
        })
    );
}

#[test]
fn scenario_coin_layout_and_kind() {
    let s = coin_generic().subst(&[FatType::U64]).unwrap();
    let ((k, field_kinds), layout) = s.layout_and_kind_info().unwrap();
    assert_eq!(k, MoveKind::Resource);
    assert_eq!(field_kinds, vec![MoveKindInfo::Base(MoveKind::Copyable)]);
    assert_eq!(layout, MoveStructLayout::new(vec![MoveTypeLayout::U64]));
    let t = FatType::Struct(Box::new(s));
    let (kind, l) = t.layout_and_kind_info().unwrap();
    assert_eq!(
        kind,
        MoveKindInfo::Struct(MoveKind::Resource, vec![MoveKindInfo::Base(MoveKind::Copyable)])
    );
    assert_eq!(l, MoveTypeLayout::Struct(MoveStructLayout::new(vec![MoveTypeLayout::U64])));
    assert_eq!(t.is_resource(), Ok(true));
}

#[test]
fn scenario_vector_of_coin_is_resource() {
    let t = FatType::Vector(Box::new(FatType::Struct(Box::new(coin_u64()))));
    assert_eq!(t.is_resource(), Ok(true));
    let (kind, layout) = t.layout_and_kind_info().unwrap();
    assert_eq!(kind.kind(), MoveKind::Resource);
    assert_eq!(
        kind,
        MoveKindInfo::Vector(
            MoveKind::Resource,
            Box::new(MoveKindInfo::Struct(
                MoveKind::Resource,
                vec![MoveKindInfo::Base(MoveKind::Copyable)]
            ))
        )
    );
    assert_eq!(
        layout,
        MoveTypeLayout::Vector(Box::new(MoveTypeLayout::Struct(MoveStructLayout::new(vec![
            MoveTypeLayout::U64
        ]))))
    );
}

#[test]
fn vector_of_u64_is_copyable() {
    let t = FatType::Vector(Box::new(FatType::U64));
    assert_eq!(t.is_resource(), Ok(false));
    let (kind, layout) = t.layout_and_kind_info().unwrap();
    assert_eq!(
        kind,
        MoveKindInfo::Vector(MoveKind::Copyable, Box::new(MoveKindInfo::Base(MoveKind::Copyable)))
    );
    assert_eq!(layout, MoveTypeLayout::Vector(Box::new(MoveTypeLayout::U64)));
}

#[test]
fn signer_is_the_resource_primitive() {
    assert_eq!(FatType::Signer.is_resource(), Ok(true));
    let (kind, layout) = FatType::Signer.layout_and_kind_info().unwrap();
    assert_eq!(kind, MoveKindInfo::Base(MoveKind::Resource));
    assert_eq!(layout, MoveTypeLayout::Signer);
    for t in [FatType::Bool, FatType::U8, FatType::U64, FatType::U128, FatType::Address] {
        assert_eq!(t.is_resource(), Ok(false));
        assert_eq!(t.layout_and_kind_info().unwrap().0, MoveKindInfo::Base(MoveKind::Copyable));
    }
}

#[test]
fn copyable_struct_with_resource_field() {
    let t = plain_struct(false, vec![], vec![FatType::Signer, FatType::U8]);
    assert_eq!(t.is_resource(), Ok(false));
    let (kind, _) = t.layout_and_kind_info().unwrap();
    assert_eq!(
        kind,
        MoveKindInfo::Struct(
            MoveKind::Copyable,
            vec![MoveKindInfo::Base(MoveKind::Resource), MoveKindInfo::Base(MoveKind::Copyable)]
        )
    );
}

#[test]
fn references_are_not_resources() {
    let r = FatType::Reference(Box::new(FatType::Signer));
    let m = FatType::MutableReference(Box::new(FatType::Signer));
    assert_eq!(r.is_resource(), Ok(false));
    assert_eq!(m.is_resource(), Ok(false));
}

#[test]
fn subst_identity_on_closed_types() {
    let samples = nested_samples();
    let with_refs = vec![
        FatType::Reference(Box::new(FatType::U64)),
        FatType::MutableReference(Box::new(FatType::Struct(Box::new(coin_u64())))),
    ];
    for t in samples.iter().chain(with_refs.iter()) {
        assert_eq!(&t.subst(&[]).unwrap(), t);
        assert_eq!(&t.subst(&[FatType::Bool, FatType::Signer]).unwrap(), t);
    }
}

#[test]
fn subst_replaces_nested_params() {
    let t = FatType::Vector(Box::new(plain_struct(
        false,
        vec![FatType::TyParam(1)],
        vec![FatType::Reference(Box::new(FatType::TyParam(0))), FatType::TyParam(1)],
    )));
    let r = t.subst(&[FatType::U8, FatType::Address]).unwrap();
    let expected = FatType::Vector(Box::new(plain_struct(
        false,
        vec![FatType::Address],
        vec![FatType::Reference(Box::new(FatType::U8)), FatType::Address],
    )));
    assert_eq!(r, expected);
}

#[test]
fn subst_index_out_of_bounds() {
    let t = FatType::Vector(Box::new(FatType::TyParam(2)));
    let e = t.subst(&[FatType::U8, FatType::U64]).unwrap_err();
    assert_eq!(e, violation(ErrorReason::SubstIndexOutOfBounds { len: 2, index: 2 }));
    let e = coin_generic().subst(&[]).unwrap_err();
    assert_eq!(e, violation(ErrorReason::SubstIndexOutOfBounds { len: 0, index: 0 }));
}

#[test]
fn subst_composition() {
    // Coin<Vector<T0>> with T0 := Vector<T1>, then T1 := U8
    let t = FatType::Struct(Box::new(FatStructType {
        address: address_one(),
        module: "M".to_string(),
        name: "Coin".to_string(),
        is_resource: true,
        ty_args: vec![FatType::Vector(Box::new(FatType::TyParam(0)))],
        layout: vec![FatType::TyParam(0), FatType::Bool],
    }));
    let a1 = vec![FatType::Vector(Box::new(FatType::TyParam(1)))];
    let a2 = vec![FatType::Signer, FatType::U8];
    let two_passes = t.subst(&a1).unwrap().subst(&a2).unwrap();
    let combined: Vec<FatType> = a1.iter().map(|a| a.subst(&a2).unwrap()).collect();
    let one_pass = t.subst(&combined).unwrap();
    assert_eq!(two_passes, one_pass);
}

#[test]
fn tag_is_deterministic() {
    for (a, b) in nested_samples().iter().zip(nested_samples().iter()) {
        assert_eq!(a.type_tag().unwrap(), b.type_tag().unwrap());
    }
}

#[test]
fn tag_of_nested_vector() {
    let t = FatType::Vector(Box::new(FatType::Vector(Box::new(FatType::Signer))));
    assert_eq!(
        t.type_tag().unwrap(),
        TypeTag::Vector(Box::new(TypeTag::Vector(Box::new(TypeTag::Signer))))
    );
}

#[test]
fn tag_ignores_fields() {
    let t = plain_struct(true, vec![FatType::U8], vec![FatType::Reference(Box::new(FatType::U8))]);
    let tag = t.type_tag().unwrap();
    assert_eq!(
        tag,
        TypeTag::Struct(StructTag {
            address: address_one(),
            module: "N".to_string(),
            name: "S".to_string(),
            type_params: vec![TypeTag::U8],
        })
    );
    assert_eq!(t.layout_and_kind_info().unwrap_err(), violation(ErrorReason::NoTypeLayout));
}

#[test]
fn layout_bridge_agrees_with_layout_and_kind() {
    for t in nested_samples() {
        let (_, l) = t.layout_and_kind_info().unwrap();
        assert_eq!(t.to_type_layout().unwrap(), l);
    }
    let s = coin_u64();
    assert_eq!(s.to_struct_layout().unwrap(), s.layout_and_kind_info().unwrap().1);
}

#[test]
fn bridge_fails_with_type_mismatch() {
    let expected =
        PartialVMError { major_status: StatusCode::AbortTypeMismatchError, reason: ErrorReason::Unspecified };
    let bad = vec![
        FatType::TyParam(0),
        FatType::Reference(Box::new(FatType::U8)),
        FatType::Vector(Box::new(FatType::MutableReference(Box::new(FatType::U8)))),
        plain_struct(false, vec![], vec![FatType::Bool, FatType::TyParam(3)]),
    ];
    for t in bad {
        assert_eq!(t.to_type_layout().unwrap_err(), expected);
    }
}

#[test]
fn unresolved_inputs_fail() {
    let param_like = vec![
        FatType::TyParam(0),
        FatType::Vector(Box::new(FatType::TyParam(0))),
        FatType::Vector(Box::new(FatType::Vector(Box::new(FatType::TyParam(5))))),
    ];
    for t in &param_like {
        assert_eq!(t.type_tag().unwrap_err(), violation(ErrorReason::NoTypeTag));
        assert_eq!(t.layout_and_kind_info().unwrap_err(), violation(ErrorReason::NoTypeLayout));
        assert_eq!(t.is_resource().unwrap_err(), violation(ErrorReason::ResourceOfTypeParam));
        assert_eq!(text(t).unwrap_err(), violation(ErrorReason::PrintTypeParam));
    }
    let ref_like = vec![
        FatType::Reference(Box::new(FatType::U8)),
        FatType::MutableReference(Box::new(FatType::U8)),
        FatType::Vector(Box::new(FatType::Reference(Box::new(FatType::Bool)))),
        plain_struct(false, vec![FatType::MutableReference(Box::new(FatType::U8))], vec![]),
    ];
    for t in &ref_like {
        assert_eq!(t.type_tag().unwrap_err(), violation(ErrorReason::NoTypeTag));
    }
    let field_like = vec![
        plain_struct(false, vec![], vec![FatType::Reference(Box::new(FatType::U8))]),
        plain_struct(false, vec![], vec![FatType::U8, FatType::TyParam(0)]),
        FatType::Vector(Box::new(plain_struct(true, vec![], vec![FatType::MutableReference(
            Box::new(FatType::U8),
        )]))),
    ];
    for t in &field_like {
        assert_eq!(t.layout_and_kind_info().unwrap_err(), violation(ErrorReason::NoTypeLayout));
    }
}

#[test]
fn format_primitives_and_composites() {
    assert_eq!(text(&FatType::Bool).unwrap(), "bool");
    assert_eq!(text(&FatType::U8).unwrap(), "u8");
    assert_eq!(text(&FatType::U64).unwrap(), "u64");
    assert_eq!(text(&FatType::U128).unwrap(), "u128");
    assert_eq!(text(&FatType::Address).unwrap(), "address");
    assert_eq!(text(&FatType::Signer).unwrap(), "signer");
    assert_eq!(text(&FatType::Vector(Box::new(FatType::U8))).unwrap(), "vector<u8>");
    assert_eq!(text(&FatType::Reference(Box::new(FatType::U64))).unwrap(), "&u64");
    assert_eq!(
        text(&FatType::MutableReference(Box::new(FatType::Signer))).unwrap(),
        "&mut signer"
    );
    assert_eq!(text(&FatType::Struct(Box::new(coin_u64()))).unwrap(), "M::Coin<u64>");
    assert_eq!(text(&plain_struct(false, vec![], vec![FatType::TyParam(0)])).unwrap(), "N::S");
    let two = plain_struct(
        false,
        vec![FatType::Bool, FatType::Vector(Box::new(FatType::Struct(Box::new(coin_u64()))))],
        vec![],
    );
    assert_eq!(text(&two).unwrap(), "N::S<bool, vector<M::Coin<u64>>>");
}

#[test]
fn format_appends_to_buffer() {
    let mut buf = "x: ".to_string();
    FatType::Vector(Box::new(FatType::Bool)).debug_print(&mut buf).unwrap();
    assert_eq!(buf, "x: vector<bool>");
    let mut buf = String::new();
    coin_u64().debug_print(&mut buf).unwrap();
    assert_eq!(buf, "M::Coin<u64>");
}

#[test]
fn deep_copy_is_equal() {
    for t in nested_samples() {
        assert_eq!(t.deep_copy(), t);
    }
}

#[test]
fn error_constructors() {
    let e = PartialVMError::invariant_violation(ErrorReason::NoTypeTag);
    assert_eq!(e.major_status, StatusCode::UnknownInvariantViolationError);
    let e = PartialVMError::new(StatusCode::AbortTypeMismatchError, ErrorReason::Unspecified);
    assert_eq!(e.major_status, StatusCode::AbortTypeMismatchError);
}
