//! Checks that the rendered source text of a generator plan is
//! exactly what the derivation prescribes for concrete shapes.

use autorand::render::render_generated;
use autorand::shape::{
    derive_random, FieldDesc, GenericParam, TypeBody, TypeDef, VariantDesc, VariantShape,
};

fn field(name: Option<&str>, ty: &str) -> FieldDesc {
    FieldDesc {
        name: name.map(|n| n.to_owned()),
        ty: ty.to_owned(),
    }
}

#[test]
fn render_named_product() {
    let def = TypeDef {
        name: "Point".to_owned(),
        params: vec![],
        body: TypeBody::Product(vec![field(Some("x"), "u8"), field(Some("y"), "u16")]),
    };
    let plan = derive_random(&def).ok().unwrap();
    assert_eq!(
        render_generated(&plan),
        "impl autorand::Random for Point { fn random() -> Self { \
         Self { x: <u8 as autorand::Random>::random(), y: <u16 as autorand::Random>::random() } \
         } }"
    );
}

#[test]
fn render_generic_positional_product() {
    let def = TypeDef {
        name: "Holder".to_owned(),
        params: vec![GenericParam {
            ident: "T".to_owned(),
            bounds: vec!["Ord".to_owned()],
        }],
        body: TypeBody::Product(vec![field(None, "T")]),
    };
    let plan = derive_random(&def).ok().unwrap();
    assert_eq!(
        render_generated(&plan),
        "impl<T: Ord + autorand::Random> autorand::Random for Holder<T> \
         { fn random() -> Self { Self(<T as autorand::Random>::random()) } }"
    );
}

#[test]
fn render_three_variant_sum() {
    let def = TypeDef {
        name: "Shape".to_owned(),
        params: vec![],
        body: TypeBody::Sum(vec![
            VariantDesc { name: "A".to_owned(), shape: VariantShape::Unit },
            VariantDesc {
                name: "B".to_owned(),
                shape: VariantShape::Named(vec![field(Some("n"), "u32")]),
            },
            VariantDesc {
                name: "C".to_owned(),
                shape: VariantShape::Positional(vec![field(None, "bool")]),
            },
        ]),
    };
    let plan = derive_random(&def).ok().unwrap();
    assert_eq!(
        render_generated(&plan),
        "impl autorand::Random for Shape { fn random() -> Self { \
         let variant = autorand::random_variant_index(3); match variant { \
         0 => Self::A, 1 => Self::B { n: <u32 as autorand::Random>::random() }, \
         _ => Self::C(<bool as autorand::Random>::random()) } } }"
    );
}

#[test]
fn render_twelve_variant_indices() {
    let variants: Vec<VariantDesc> = (0..12)
        .map(|i| VariantDesc {
            name: format!("V{}", i),
            shape: VariantShape::Unit,
        })
        .collect();
    let def = TypeDef {
        name: "Wide".to_owned(),
        params: vec![],
        body: TypeBody::Sum(variants),
    };
    let plan = derive_random(&def).ok().unwrap();
    let text = render_generated(&plan);
    assert!(text.contains("autorand::random_variant_index(12)"));
    assert!(text.contains("10 => Self::V10, "));
    assert!(text.contains("_ => Self::V11 }"));
}
