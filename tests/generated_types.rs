use move_vm_types::layout::MoveKind;
use move_vm_types::types::{AccountAddress, FatStructType, FatType};

/// The six primitive types.
fn single_values() -> Vec<FatType> {
    vec![FatType::Bool, FatType::U8, FatType::U64, FatType::U128, FatType::Address, FatType::Signer]
}

/// Concrete types built bottom-up: primitives, then vectors and structs over
/// the types of the level below, up to `depth` levels.
fn nested_values(depth: usize) -> Vec<FatType> {
    let mut all = single_values();
    let mut level = single_values();
    for d in 0..depth {
        let mut next = Vec::new();
        for (i, t) in level.iter().enumerate() {
            next.push(FatType::Vector(Box::new(t.deep_copy())));
            let other = &level[(i + 1) % level.len()];
            let mut bytes = [0u8; 16];
            bytes[0] = d as u8;
            bytes[15] = i as u8;
            next.push(FatType::Struct(Box::new(FatStructType {
                address: AccountAddress { bytes },
                module: format!("M{}", d),
                name: format!("S{}", i),
                is_resource: i % 2 == 0,
                ty_args: if i % 3 == 0 { vec![] } else { vec![other.deep_copy()] },
                layout: vec![t.deep_copy(), other.deep_copy()],
            })));
        }
        all.extend(next.iter().map(|t| t.deep_copy()));
        level = next;
    }
    all
}

#[test]
fn generated_types_have_tags_layouts_and_text() {
    for t in nested_values(3) {
        assert!(t.type_tag().is_ok());
        assert!(t.layout_and_kind_info().is_ok());
        assert!(t.is_resource().is_ok());
        let mut buf = String::new();
        assert!(t.debug_print(&mut buf).is_ok());
        assert!(!buf.is_empty());
    }
}

#[test]
fn generated_types_layouts_agree() {
    for t in nested_values(3) {
        let (_, l) = t.layout_and_kind_info().unwrap();
        assert_eq!(t.to_type_layout().unwrap(), l);
    }
}

#[test]
fn generated_types_kind_matches_classifier() {
    for t in nested_values(3) {
        let (k, _) = t.layout_and_kind_info().unwrap();
        assert_eq!(t.is_resource().unwrap(), k.kind() == MoveKind::Resource);
    }
}

#[test]
fn generated_types_subst_identity_and_tag_determinism() {
    for t in nested_values(3) {
        let s = t.subst(&[FatType::U8]).unwrap();
        assert_eq!(s, t);
        assert_eq!(s.type_tag().unwrap(), t.type_tag().unwrap());
    }
}

#[test]
fn generated_types_subst_through_params() {
    for arg in nested_values(2) {
        let generic = FatType::Vector(Box::new(FatType::TyParam(0)));
        let r = generic.subst(&[arg.deep_copy()]).unwrap();
        assert_eq!(r, FatType::Vector(Box::new(arg.deep_copy())));
        assert_eq!(r.is_resource().unwrap(), arg.is_resource().unwrap());
    }
}
