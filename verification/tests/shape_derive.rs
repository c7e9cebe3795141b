//! Checks of the type-shape analyzer: plans for product and sum
//! shapes, bound injection, and the two rejection cases.

use autorand::shape::{
    derive_random, DeriveError, FieldDesc, GenericParam, GeneratedImpl, ImplBody, TypeBody,
    TypeDef, VariantDesc, VariantShape,
};

fn field(name: Option<&str>, ty: &str) -> FieldDesc {
    FieldDesc {
        name: name.map(|n| n.to_owned()),
        ty: ty.to_owned(),
    }
}

fn param(ident: &str, bounds: &[&str]) -> GenericParam {
    GenericParam {
        ident: ident.to_owned(),
        bounds: bounds.iter().map(|b| (*b).to_owned()).collect(),
    }
}

#[test]
fn product_plan_mirrors_fields() {
    let def = TypeDef {
        name: "Pair".to_owned(),
        params: vec![],
        body: TypeBody::Product(vec![field(Some("x"), "u8"), field(None, "String")]),
    };
    let g: GeneratedImpl = derive_random(&def).ok().unwrap();
    assert_eq!(g.name, "Pair");
    assert!(g.params.is_empty());
    match g.body {
        ImplBody::ProductInit(fs) => {
            assert_eq!(fs.len(), 2);
            assert_eq!(fs[0].name.as_deref(), Some("x"));
            assert_eq!(fs[0].ty, "u8");
            assert_eq!(fs[1].name, None);
            assert_eq!(fs[1].ty, "String");
        }
        ImplBody::SumDispatch(_) => panic!("a product must yield a constructor plan"),
    }
}

#[test]
fn bound_injection_keeps_author_bounds() {
    let def = TypeDef {
        name: "Wrapper".to_owned(),
        params: vec![param("T", &["Ord"]), param("S", &[])],
        body: TypeBody::Product(vec![field(Some("inner"), "T")]),
    };
    let g = derive_random(&def).ok().unwrap();
    assert_eq!(g.params.len(), 2);
    assert_eq!(g.params[0].ident, "T");
    assert_eq!(g.params[0].bounds, vec!["Ord".to_owned(), "autorand::Random".to_owned()]);
    assert_eq!(g.params[1].ident, "S");
    assert_eq!(g.params[1].bounds, vec!["autorand::Random".to_owned()]);
}

#[test]
fn bound_injection_adds_no_duplicate() {
    let def = TypeDef {
        name: "Again".to_owned(),
        params: vec![param("T", &["autorand::Random", "Eq"])],
        body: TypeBody::Product(vec![field(Some("inner"), "T")]),
    };
    let g = derive_random(&def).ok().unwrap();
    assert_eq!(
        g.params[0].bounds,
        vec!["autorand::Random".to_owned(), "Eq".to_owned()]
    );
}

#[test]
fn sum_plan_mirrors_variants() {
    let def = TypeDef {
        name: "Shape".to_owned(),
        params: vec![],
        body: TypeBody::Sum(vec![
            VariantDesc { name: "A".to_owned(), shape: VariantShape::Unit },
            VariantDesc {
                name: "B".to_owned(),
                shape: VariantShape::Named(vec![field(Some("n"), "u32")]),
            },
            VariantDesc {
                name: "C".to_owned(),
                shape: VariantShape::Positional(vec![field(None, "bool")]),
            },
        ]),
    };
    let g = derive_random(&def).ok().unwrap();
    match g.body {
        ImplBody::SumDispatch(ws) => {
            assert_eq!(ws.len(), 3);
            assert_eq!(ws[0].name, "A");
            assert!(matches!(ws[0].shape, VariantShape::Unit));
            match &ws[1].shape {
                VariantShape::Named(fs) => {
                    assert_eq!(fs.len(), 1);
                    assert_eq!(fs[0].name.as_deref(), Some("n"));
                    assert_eq!(fs[0].ty, "u32");
                }
                _ => panic!("second variant carries named fields"),
            }
            match &ws[2].shape {
                VariantShape::Positional(fs) => {
                    assert_eq!(fs.len(), 1);
                    assert_eq!(fs[0].name, None);
                    assert_eq!(fs[0].ty, "bool");
                }
                _ => panic!("third variant carries positional fields"),
            }
        }
        ImplBody::ProductInit(_) => panic!("a sum must yield a dispatch plan"),
    }
}

#[test]
fn union_is_rejected_with_the_type_name() {
    let def = TypeDef {
        name: "Untagged".to_owned(),
        params: vec![],
        body: TypeBody::Union,
    };
    match derive_random(&def) {
        Err(DeriveError::UnsupportedUnion { name }) => assert_eq!(name, "Untagged"),
        _ => panic!("a union body must be rejected"),
    }
}

#[test]
fn empty_sum_is_rejected_with_the_type_name() {
    let def = TypeDef {
        name: "Never".to_owned(),
        params: vec![],
        body: TypeBody::Sum(vec![]),
    };
    match derive_random(&def) {
        Err(DeriveError::EmptySum { name }) => assert_eq!(name, "Never"),
        _ => panic!("a sum with no variants must be rejected"),
    }
}
