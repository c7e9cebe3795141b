//! Type-shape analysis and derivation.
//!
//! A [`TypeDef`] describes a user-defined type: its name, its generic
//! parameters with their author-declared capability bounds, and a body
//! that is a product of fields, a sum of variants, or an unsupported
//! union. [`derive_random`] turns a supported definition into a
//! [`GeneratedImpl`]: the plan of a generator implementation that is
//! parameterized identically, carries every author bound plus the
//! injected random-generation bound, and initializes every field of
//! the chosen shape by a recursive generator call, in declaration
//! order.

use vstd::prelude::*;

verus! {

/// A generic parameter: its identifier and the author-declared
/// capability bounds it carries, as path text.
pub struct GenericParam {
    pub ident: String,
    pub bounds: Vec<String>,
}

/// One field of a product shape: a name where the field is named
/// (absent for positional fields) and the text of its type reference.
pub struct FieldDesc {
    pub name: Option<String>,
    pub ty: String,
}

/// The fields carried by one variant of a sum shape.
pub enum VariantShape {
    Unit,
    Named(Vec<FieldDesc>),
    Positional(Vec<FieldDesc>),
}

/// One variant of a sum shape.
pub struct VariantDesc {
    pub name: String,
    pub shape: VariantShape,
}

/// The classified body of a type definition.
pub enum TypeBody {
    Product(Vec<FieldDesc>),
    Sum(Vec<VariantDesc>),
    Union,
}

/// A user-defined type as the derivation sees it.
pub struct TypeDef {
    pub name: String,
    pub params: Vec<GenericParam>,
    pub body: TypeBody,
}

/// The synthesized body of a generated implementation: either one
/// constructor invocation whose fields are each initialized by a
/// recursive generator call, or a uniform dispatch over the variants,
/// each constructed the same way.
pub enum ImplBody {
    ProductInit(Vec<FieldDesc>),
    SumDispatch(Vec<VariantDesc>),
}

/// The generated implementation plan for a type definition.
pub struct GeneratedImpl {
    pub name: String,
    pub params: Vec<GenericParam>,
    pub body: ImplBody,
}

/// Rejection of a type definition whose shape supports no generator:
/// each case names the offending type.
pub enum DeriveError {
    UnsupportedUnion { name: String },
    EmptySum { name: String },
}

/// The path text of the injected random-generation bound.
pub open spec fn random_bound_text() -> Seq<char> {
    "autorand::Random"@
}

/// The bounds of a parameter, as text.
pub open spec fn bound_views(bs: Seq<String>) -> Seq<Seq<char>> {
    bs.map_values(|b: String| b@)
}

/// Whether some bound in `bs` reads exactly `t`.
pub open spec fn has_bound(bs: Seq<String>, t: Seq<char>) -> bool {
    exists|i: int| 0 <= i < bs.len() && bs[i]@ == t
}

/// The constraint set of a parameter after bound injection: the
/// author's bounds, in order, with the random-generation bound
/// appended unless it is already present.
pub open spec fn merged_bound_views(bs: Seq<String>) -> Seq<Seq<char>> {
    if has_bound(bs, random_bound_text()) {
        bound_views(bs)
    } else {
        bound_views(bs).push(random_bound_text())
    }
}

/// Whether `out` is `orig` with the random-generation bound injected
/// into every parameter's constraint set.
pub open spec fn params_merged(orig: Seq<GenericParam>, out: Seq<GenericParam>) -> bool {
    &&& out.len() == orig.len()
    &&& forall|i: int|
        0 <= i < orig.len() ==> {
            &&& (#[trigger] out[i]).ident@ == orig[i].ident@
            &&& bound_views(out[i].bounds@) == merged_bound_views(orig[i].bounds@)
        }
}

/// Whether two variant descriptors describe the same variant.
pub open spec fn variant_matches(a: VariantDesc, b: VariantDesc) -> bool {
    &&& a.name@ == b.name@
    &&& match (a.shape, b.shape) {
        (VariantShape::Unit, VariantShape::Unit) => true,
        (VariantShape::Named(x), VariantShape::Named(y)) => x@ == y@,
        (VariantShape::Positional(x), VariantShape::Positional(y)) => x@ == y@,
        _ => false,
    }
}

/// Whether the definition's shape supports a generator: any product,
/// or a sum with at least one variant.
pub open spec fn shape_supported(body: TypeBody) -> bool {
    match body {
        TypeBody::Product(_) => true,
        TypeBody::Sum(vs) => vs@.len() > 0,
        TypeBody::Union => false,
    }
}

/// Whether `out` is the body synthesized for `src`: field initializers
/// mirror the product's fields one to one and in order, and dispatch
/// arms mirror the sum's variants one to one and in order.
pub open spec fn body_generated(src: TypeBody, out: ImplBody) -> bool {
    match (src, out) {
        (TypeBody::Product(fs), ImplBody::ProductInit(gs)) => gs@ == fs@,
        (TypeBody::Sum(vs), ImplBody::SumDispatch(ws)) => {
            &&& vs@.len() > 0
            &&& ws@.len() == vs@.len()
            &&& forall|i: int| 0 <= i < vs@.len() ==> variant_matches(#[trigger] ws@[i], vs@[i])
        },
        _ => false,
    }
}

fn clone_strings(src: &Vec<String>) -> (out: Vec<String>)
    ensures
        out@ == src@,
{
    let mut out: Vec<String> = Vec::new();
    let mut i: usize = 0;
    while i < src.len()
        invariant
            i <= src@.len(),
            out@ == src@.take(i as int),
        decreases src@.len() - i,
    {
        out.push(src[i].clone());
        proof {
            assert(out@ =~= src@.take(i as int + 1));
        }
        i = i + 1;
    }
    proof {
        assert(src@.take(src@.len() as int) =~= src@);
    }
    out
}

fn clone_field(f: &FieldDesc) -> (g: FieldDesc)
    ensures
        g == *f,
{
    let name = match &f.name {
        Some(s) => Some(s.clone()),
        None => None,
    };
    FieldDesc { name, ty: f.ty.clone() }
}

fn clone_fields(src: &Vec<FieldDesc>) -> (out: Vec<FieldDesc>)
    ensures
        out@ == src@,
{
    let mut out: Vec<FieldDesc> = Vec::new();
    let mut i: usize = 0;
    while i < src.len()
        invariant
            i <= src@.len(),
            out@ == src@.take(i as int),
        decreases src@.len() - i,
    {
        out.push(clone_field(&src[i]));
        proof {
            assert(out@ =~= src@.take(i as int + 1));
        }
        i = i + 1;
    }
    proof {
        assert(src@.take(src@.len() as int) =~= src@);
    }
    out
}

fn clone_variant(v: &VariantDesc) -> (w: VariantDesc)
    ensures
        variant_matches(w, *v),
{
    let shape = match &v.shape {
        VariantShape::Unit => VariantShape::Unit,
        VariantShape::Named(fs) => VariantShape::Named(clone_fields(fs)),
        VariantShape::Positional(fs) => VariantShape::Positional(clone_fields(fs)),
    };
    VariantDesc { name: v.name.clone(), shape }
}

fn clone_variants(src: &Vec<VariantDesc>) -> (out: Vec<VariantDesc>)
    ensures
        out@.len() == src@.len(),
        forall|i: int| 0 <= i < src@.len() ==> variant_matches(#[trigger] out@[i], src@[i]),
{
    let mut out: Vec<VariantDesc> = Vec::new();
    let mut i: usize = 0;
    while i < src.len()
        invariant
            i <= src@.len(),
            out@.len() == i as nat,
            forall|j: int| 0 <= j < i ==> variant_matches(#[trigger] out@[j], src@[j]),
        decreases src@.len() - i,
    {
        out.push(clone_variant(&src[i]));
        i = i + 1;
    }
    out
}

fn has_random_bound(bounds: &Vec<String>) -> (r: bool)
    ensures
        r == has_bound(bounds@, random_bound_text()),
{
    let needle: String = "autorand::Random".to_owned();
    let mut i: usize = 0;
    while i < bounds.len()
        invariant
            i <= bounds@.len(),
            needle@ == random_bound_text(),
            forall|j: int| 0 <= j < i ==> (#[trigger] bounds@[j])@ != random_bound_text(),
        decreases bounds@.len() - i,
    {
        if bounds[i].eq(&needle) {
            proof {
                assert(bounds@[i as int]@ == random_bound_text());
            }
            return true;
        }
        i = i + 1;
    }
    false
}

/// Injects the random-generation bound into one parameter's constraint
/// set, preserving every author-declared bound and its position.
fn merge_param(p: &GenericParam) -> (q: GenericParam)
    ensures
        q.ident@ == p.ident@,
        bound_views(q.bounds@) == merged_bound_views(p.bounds@),
{
    let mut bounds = clone_strings(&p.bounds);
    if !has_random_bound(&bounds) {
        let needle: String = "autorand::Random".to_owned();
        bounds.push(needle);
        proof {
            assert(bound_views(bounds@) =~= merged_bound_views(p.bounds@));
        }
    }
    GenericParam { ident: p.ident.clone(), bounds }
}

fn merge_params(src: &Vec<GenericParam>) -> (out: Vec<GenericParam>)
    ensures
        params_merged(src@, out@),
{
    let mut out: Vec<GenericParam> = Vec::new();
    let mut i: usize = 0;
    while i < src.len()
        invariant
            i <= src@.len(),
            out@.len() == i as nat,
            forall|j: int|
                0 <= j < i ==> {
                    &&& (#[trigger] out@[j]).ident@ == src@[j].ident@
                    &&& bound_views(out@[j].bounds@) == merged_bound_views(src@[j].bounds@)
                },
        decreases src@.len() - i,
    {
        out.push(merge_param(&src[i]));
        i = i + 1;
    }
    out
}

/// Analyzes one type definition and produces its generator plan, or
/// rejects a shape that supports none. On success the plan names the
/// type, carries the identically ordered parameter list with the
/// random-generation bound injected, and mirrors the definition's own
/// fields and variants; the rejection names the offending type and
/// holds exactly for a union body or a sum with no variants.
pub fn derive_random(def: &TypeDef) -> (res: Result<GeneratedImpl, DeriveError>)
    ensures
        match res {
            Ok(g) => {
                &&& shape_supported(def.body)
                &&& g.name@ == def.name@
                &&& params_merged(def.params@, g.params@)
                &&& body_generated(def.body, g.body)
            },
            Err(e) => {
                &&& !shape_supported(def.body)
                &&& match e {
                    DeriveError::UnsupportedUnion { name } => {
                        &&& def.body is Union
                        &&& name@ == def.name@
                    },
                    DeriveError::EmptySum { name } => {
                        &&& def.body matches TypeBody::Sum(vs) && vs@.len() == 0
                        &&& name@ == def.name@
                    },
                }
            },
        },
{
    match &def.body {
        TypeBody::Product(fields) => {
            let inits = clone_fields(fields);
            Ok(
                GeneratedImpl {
                    name: def.name.clone(),
                    params: merge_params(&def.params),
                    body: ImplBody::ProductInit(inits),
                },
            )
        },
        TypeBody::Sum(variants) => {
            if variants.len() == 0 {
                Err(DeriveError::EmptySum { name: def.name.clone() })
            } else {
                let arms = clone_variants(variants);
                Ok(
                    GeneratedImpl {
                        name: def.name.clone(),
                        params: merge_params(&def.params),
                        body: ImplBody::SumDispatch(arms),
                    },
                )
            }
        },
        TypeBody::Union => Err(DeriveError::UnsupportedUnion { name: def.name.clone() }),
    }
}

/// Law: bound injection adds the random-generation capability and
/// preserves every author-declared constraint in place; when the
/// capability is already declared the constraint set is unchanged, so
/// no duplicate bound is ever introduced.
pub proof fn lemma_bound_injection(bs: Seq<String>)
    ensures
        merged_bound_views(bs).contains(random_bound_text()),
        merged_bound_views(bs).len() >= bs.len(),
        forall|i: int| 0 <= i < bs.len() ==> merged_bound_views(bs)[i] == (#[trigger] bs[i])@,
        has_bound(bs, random_bound_text()) ==> merged_bound_views(bs) == bound_views(bs),
        !has_bound(bs, random_bound_text()) ==> merged_bound_views(bs).len() == bs.len() + 1,
{
    if has_bound(bs, random_bound_text()) {
        let i = choose|i: int| 0 <= i < bs.len() && bs[i]@ == random_bound_text();
        assert(merged_bound_views(bs)[i] == random_bound_text());
        assert(merged_bound_views(bs).contains(random_bound_text()));
    } else {
        let n = bound_views(bs).len() as int;
        assert(merged_bound_views(bs)[n] == random_bound_text());
        assert(merged_bound_views(bs).contains(random_bound_text()));
    }
}

} // verus!
