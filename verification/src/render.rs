//! Rendering of a generated implementation plan as Rust source text.
//!
//! Every exec function here is proved to produce exactly the text of
//! its spec-level counterpart, so what is emitted for a plan is
//! pinned down completely.

use vstd::prelude::*;
use vstd::string::StringExecFns;
use crate::shape::{FieldDesc, GenericParam, GeneratedImpl, ImplBody, VariantDesc, VariantShape};

verus! {

/// The decimal digits of `n`, most significant first.
pub open spec fn spec_decimal(n: nat) -> Seq<char>
    decreases n,
{
    if n < 10 {
        seq![spec_digit_char(n)]
    } else {
        spec_decimal(n / 10).push(spec_digit_char(n % 10))
    }
}

/// The character of one decimal digit.
pub open spec fn spec_digit_char(d: nat) -> char {
    ((48 + d) as u8) as char
}

fn decimal_digits(n: usize) -> (ds: Vec<char>)
    ensures
        ds@ == spec_decimal(n as nat),
    decreases n,
{
    let d = (n % 10) as u8;
    let c = (48 + d) as char;
    if n < 10 {
        let mut ds: Vec<char> = Vec::new();
        ds.push(c);
        proof {
            assert(ds@ =~= spec_decimal(n as nat));
        }
        ds
    } else {
        let mut ds = decimal_digits(n / 10);
        ds.push(c);
        ds
    }
}

/// The text of one field initializer: the field's name where it has
/// one, then a recursive generator call at the field's declared type.
pub open spec fn spec_render_init(f: FieldDesc) -> Seq<char> {
    match f.name {
        Some(n) => n@ + ": <"@ + f.ty@ + " as autorand::Random>::random()"@,
        None => "<"@ + f.ty@ + " as autorand::Random>::random()"@,
    }
}

/// The comma-joined initializers of a field list, in field order.
pub open spec fn spec_render_inits(fs: Seq<FieldDesc>) -> Seq<char>
    decreases fs.len(),
{
    if fs.len() == 0 {
        Seq::empty()
    } else if fs.len() == 1 {
        spec_render_init(fs[0])
    } else {
        spec_render_inits(fs.drop_last()) + ", "@ + spec_render_init(fs.last())
    }
}

fn render_init_into(s: &mut String, f: &FieldDesc)
    ensures
        final(s)@ == old(s)@ + spec_render_init(*f),
{
    match &f.name {
        Some(n) => {
            s.append(n.as_str());
            s.append(": <");
        },
        None => {
            s.append("<");
        },
    }
    s.append(f.ty.as_str());
    s.append(" as autorand::Random>::random()");
    proof {
        assert(s@ =~= old(s)@ + spec_render_init(*f));
    }
}

fn render_inits_into(s: &mut String, fs: &Vec<FieldDesc>)
    ensures
        final(s)@ == old(s)@ + spec_render_inits(fs@),
{
    let mut i: usize = 0;
    while i < fs.len()
        invariant
            i <= fs@.len(),
            s@ == old(s)@ + spec_render_inits(fs@.take(i as int)),
        decreases fs@.len() - i,
    {
        if i > 0 {
            s.append(", ");
        }
        render_init_into(s, &fs[i]);
        proof {
            assert(fs@.take(i as int + 1).drop_last() =~= fs@.take(i as int));
            assert(fs@.take(i as int + 1).last() == fs@[i as int]);
            assert(s@ =~= old(s)@ + spec_render_inits(fs@.take(i as int + 1)));
        }
        i = i + 1;
    }
    proof {
        assert(fs@.take(fs@.len() as int) =~= fs@);
    }
}

/// The constructor expression of one variant: unit name, named
/// braces, or positional parentheses, fields initialized in order.
pub open spec fn spec_render_ctor(v: VariantDesc) -> Seq<char> {
    match v.shape {
        VariantShape::Unit => "Self::"@ + v.name@,
        VariantShape::Named(fs) => "Self::"@ + v.name@ + " { "@ + spec_render_inits(fs@) + " }"@,
        VariantShape::Positional(fs) => "Self::"@ + v.name@ + "("@ + spec_render_inits(fs@)
            + ")"@,
    }
}

fn render_ctor_into(s: &mut String, v: &VariantDesc)
    ensures
        final(s)@ == old(s)@ + spec_render_ctor(*v),
{
    s.append("Self::");
    s.append(v.name.as_str());
    match &v.shape {
        VariantShape::Unit => {},
        VariantShape::Named(fs) => {
            s.append(" { ");
            render_inits_into(s, fs);
            s.append(" }");
        },
        VariantShape::Positional(fs) => {
            s.append("(");
            render_inits_into(s, fs);
            s.append(")");
        },
    }
    proof {
        assert(s@ =~= old(s)@ + spec_render_ctor(*v));
    }
}

/// The bounds of one parameter, joined with `+`.
pub open spec fn spec_render_bounds(bs: Seq<String>) -> Seq<char>
    decreases bs.len(),
{
    if bs.len() == 0 {
        Seq::empty()
    } else if bs.len() == 1 {
        bs[0]@
    } else {
        spec_render_bounds(bs.drop_last()) + " + "@ + bs.last()@
    }
}

/// One parameter of the impl header: its identifier, with its merged
/// bounds where it has any.
pub open spec fn spec_render_param(p: GenericParam) -> Seq<char> {
    if p.bounds@.len() == 0 {
        p.ident@
    } else {
        p.ident@ + ": "@ + spec_render_bounds(p.bounds@)
    }
}

/// The comma-joined parameter declarations of the impl header.
pub open spec fn spec_render_params(ps: Seq<GenericParam>) -> Seq<char>
    decreases ps.len(),
{
    if ps.len() == 0 {
        Seq::empty()
    } else if ps.len() == 1 {
        spec_render_param(ps[0])
    } else {
        spec_render_params(ps.drop_last()) + ", "@ + spec_render_param(ps.last())
    }
}

/// The comma-joined parameter identifiers, as type arguments.
pub open spec fn spec_render_args(ps: Seq<GenericParam>) -> Seq<char>
    decreases ps.len(),
{
    if ps.len() == 0 {
        Seq::empty()
    } else if ps.len() == 1 {
        ps[0].ident@
    } else {
        spec_render_args(ps.drop_last()) + ", "@ + ps.last().ident@
    }
}

fn render_param_into(s: &mut String, p: &GenericParam)
    ensures
        final(s)@ == old(s)@ + spec_render_param(*p),
{
    s.append(p.ident.as_str());
    if p.bounds.len() > 0 {
        s.append(": ");
        let mut i: usize = 0;
        while i < p.bounds.len()
            invariant
                i <= p.bounds@.len(),
                s@ == old(s)@ + p.ident@ + ": "@ + spec_render_bounds(p.bounds@.take(i as int)),
            decreases p.bounds@.len() - i,
        {
            if i > 0 {
                s.append(" + ");
            }
            s.append(p.bounds[i].as_str());
            proof {
                assert(p.bounds@.take(i as int + 1).drop_last() =~= p.bounds@.take(i as int));
                assert(p.bounds@.take(i as int + 1).last() == p.bounds@[i as int]);
                assert(s@ =~= old(s)@ + p.ident@ + ": "@ + spec_render_bounds(
                    p.bounds@.take(i as int + 1),
                ));
            }
            i = i + 1;
        }
        proof {
            assert(p.bounds@.take(p.bounds@.len() as int) =~= p.bounds@);
            assert(s@ =~= old(s)@ + spec_render_param(*p));
        }
    }
}

fn render_params_into(s: &mut String, ps: &Vec<GenericParam>)
    ensures
        final(s)@ == old(s)@ + spec_render_params(ps@),
{
    let mut i: usize = 0;
    while i < ps.len()
        invariant
            i <= ps@.len(),
            s@ == old(s)@ + spec_render_params(ps@.take(i as int)),
        decreases ps@.len() - i,
    {
        if i > 0 {
            s.append(", ");
        }
        render_param_into(s, &ps[i]);
        proof {
            assert(ps@.take(i as int + 1).drop_last() =~= ps@.take(i as int));
            assert(ps@.take(i as int + 1).last() == ps@[i as int]);
            assert(s@ =~= old(s)@ + spec_render_params(ps@.take(i as int + 1)));
        }
        i = i + 1;
    }
    proof {
        assert(ps@.take(ps@.len() as int) =~= ps@);
    }
}

fn render_args_into(s: &mut String, ps: &Vec<GenericParam>)
    ensures
        final(s)@ == old(s)@ + spec_render_args(ps@),
{
    let mut i: usize = 0;
    while i < ps.len()
        invariant
            i <= ps@.len(),
            s@ == old(s)@ + spec_render_args(ps@.take(i as int)),
        decreases ps@.len() - i,
    {
        if i > 0 {
            s.append(", ");
        }
        s.append(ps[i].ident.as_str());
        proof {
            assert(ps@.take(i as int + 1).drop_last() =~= ps@.take(i as int));
            assert(ps@.take(i as int + 1).last() == ps@[i as int]);
            assert(s@ =~= old(s)@ + spec_render_args(ps@.take(i as int + 1)));
        }
        i = i + 1;
    }
    proof {
        assert(ps@.take(ps@.len() as int) =~= ps@);
    }
}

/// The numerically indexed dispatch arms for every variant in `ws`,
/// each ending in a comma.
pub open spec fn spec_render_indexed_arms(ws: Seq<VariantDesc>) -> Seq<char>
    decreases ws.len(),
{
    if ws.len() == 0 {
        Seq::empty()
    } else {
        spec_render_indexed_arms(ws.drop_last()) + spec_decimal((ws.len() - 1) as nat) + " => "@
            + spec_render_ctor(ws.last()) + ", "@
    }
}

/// The opening of the dispatch body: the uniform draw over the
/// variant count, then the head of the match.
pub open spec fn spec_dispatch_prefix(ws: Seq<VariantDesc>) -> Seq<char> {
    "let variant = autorand::random_variant_index("@ + spec_decimal(ws.len())
        + "); match variant { "@
}

/// The dispatch body of a sum plan: a uniform draw over the variant
/// count, then one positionally indexed arm per variant, the last one
/// closing the match as the catch-all.
pub open spec fn spec_render_dispatch(ws: Seq<VariantDesc>) -> Seq<char>
    recommends
        ws.len() > 0,
{
    spec_dispatch_prefix(ws) + spec_render_indexed_arms(ws.drop_last()) + "_ => "@
        + spec_render_ctor(ws.last()) + " }"@
}

fn render_dispatch_into(s: &mut String, ws: &Vec<VariantDesc>)
    requires
        ws@.len() > 0,
    ensures
        final(s)@ == old(s)@ + spec_render_dispatch(ws@),
{
    s.append("let variant = autorand::random_variant_index(");
    let ds = decimal_digits(ws.len());
    let dstr = crate::base::chars_to_string(&ds);
    s.append(dstr.as_str());
    s.append("); match variant { ");
    proof {
        assert(s@ =~= old(s)@ + spec_dispatch_prefix(ws@));
    }
    let count = ws.len();
    let mut i: usize = 0;
    while i < count - 1
        invariant
            count == ws@.len(),
            count >= 1,
            i <= count - 1,
            s@ == old(s)@ + spec_dispatch_prefix(ws@) + spec_render_indexed_arms(
                ws@.take(i as int),
            ),
        decreases count - 1 - i,
    {
        let arm_ds = decimal_digits(i);
        let arm_text = crate::base::chars_to_string(&arm_ds);
        s.append(arm_text.as_str());
        s.append(" => ");
        render_ctor_into(s, &ws[i]);
        s.append(", ");
        proof {
            assert(ws@.take(i as int + 1).drop_last() =~= ws@.take(i as int));
            assert(ws@.take(i as int + 1).last() == ws@[i as int]);
            assert(s@ =~= old(s)@ + spec_dispatch_prefix(ws@) + spec_render_indexed_arms(
                ws@.take(i as int + 1),
            ));
        }
        i = i + 1;
    }
    s.append("_ => ");
    render_ctor_into(s, &ws[count - 1]);
    s.append(" }");
    proof {
        assert(ws@.take(count - 1 as int) =~= ws@.drop_last());
        assert(ws@[count - 1 as int] == ws@.last());
        assert(s@ =~= old(s)@ + spec_render_dispatch(ws@));
    }
}

/// Whether every field of a product carries a name.
pub open spec fn spec_all_named(fs: Seq<FieldDesc>) -> bool {
    forall|i: int| 0 <= i < fs.len() ==> (#[trigger] fs[i]).name is Some
}

fn fields_all_named(fs: &Vec<FieldDesc>) -> (r: bool)
    ensures
        r == spec_all_named(fs@),
{
    let mut i: usize = 0;
    while i < fs.len()
        invariant
            i <= fs@.len(),
            forall|j: int| 0 <= j < i ==> (#[trigger] fs@[j]).name is Some,
        decreases fs@.len() - i,
    {
        if fs[i].name.is_none() {
            return false;
        }
        i = i + 1;
    }
    true
}

/// The constructor body of a product plan: named braces when every
/// field is named, positional parentheses otherwise.
pub open spec fn spec_render_product(fs: Seq<FieldDesc>) -> Seq<char> {
    if spec_all_named(fs) {
        "Self { "@ + spec_render_inits(fs) + " }"@
    } else {
        "Self("@ + spec_render_inits(fs) + ")"@
    }
}

/// The body synthesized for a plan.
pub open spec fn spec_render_body(b: ImplBody) -> Seq<char> {
    match b {
        ImplBody::ProductInit(fs) => spec_render_product(fs@),
        ImplBody::SumDispatch(ws) => spec_render_dispatch(ws@),
    }
}

/// The full source text of a generated implementation: the impl
/// header with the merged parameter list, the identically
/// parameterized type, and the synthesized generator body.
pub open spec fn spec_render_generated(g: GeneratedImpl) -> Seq<char> {
    let header = if g.params@.len() == 0 {
        "impl autorand::Random for "@ + g.name@
    } else {
        "impl<"@ + spec_render_params(g.params@) + "> autorand::Random for "@ + g.name@ + "<"@
            + spec_render_args(g.params@) + ">"@
    };
    header + " { fn random() -> Self { "@ + spec_render_body(g.body) + " } }"@
}

/// Renders a generated implementation plan as Rust source text,
/// exactly as [`spec_render_generated`] lays it out. A sum plan must
/// carry at least one variant, as every plan out of `derive_random`
/// does.
pub fn render_generated(g: &GeneratedImpl) -> (s: String)
    requires
        g.body matches ImplBody::SumDispatch(ws) ==> ws@.len() > 0,
    ensures
        s@ == spec_render_generated(*g),
{
    let mut s = String::new();
    if g.params.len() == 0 {
        s.append("impl autorand::Random for ");
        s.append(g.name.as_str());
    } else {
        s.append("impl<");
        render_params_into(&mut s, &g.params);
        s.append("> autorand::Random for ");
        s.append(g.name.as_str());
        s.append("<");
        render_args_into(&mut s, &g.params);
        s.append(">");
    }
    s.append(" { fn random() -> Self { ");
    match &g.body {
        ImplBody::ProductInit(fs) => {
            if fields_all_named(fs) {
                s.append("Self { ");
                render_inits_into(&mut s, fs);
                s.append(" }");
            } else {
                s.append("Self(");
                render_inits_into(&mut s, fs);
                s.append(")");
            }
        },
        ImplBody::SumDispatch(ws) => {
            render_dispatch_into(&mut s, ws);
        },
    }
    s.append(" } }");
    proof {
        assert(s@ =~= spec_render_generated(*g));
    }
    s
}

} // verus!
