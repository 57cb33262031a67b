//! The pipeline's emission stage: a deterministic projection of the
//! intermediate model into the token text of five declarations — the
//! re-declared enum, the `from_repr` / `as_repr` methods, the `From`
//! implementations (owned and by reference), the `TryFrom` implementations
//! (owned and by reference), and the conversion error type.
//!
//! Tokens are separated by single spaces, with multi-character punctuation
//! kept together, the way the host's token printer writes a stream.

use vstd::prelude::*;
use crate::repr_enum::{EnumVariant, ReprEnum, ReprEnumView};
use crate::syntax::{Attr, Generics, ReprType};

verus! {

/// `s` followed by one space, or nothing when `s` is empty.
pub open spec fn spec_sp(s: Seq<char>) -> Seq<char> {
    if s.len() == 0 {
        s
    } else {
        s + " "@
    }
}

/// One space followed by `s`, or nothing when `s` is empty.
pub open spec fn spec_pre(s: Seq<char>) -> Seq<char> {
    if s.len() == 0 {
        s
    } else {
        " "@ + s
    }
}

fn push_sp(out: &mut String, s: &str)
    ensures
        final(out)@ == old(out)@ + spec_sp(s@),
{
    if !s.is_empty() {
        out.append(s);
        out.append(" ");
        proof {
            assert(out@ =~= old(out)@ + spec_sp(s@));
        }
    } else {
        proof {
            assert(out@ =~= old(out)@ + spec_sp(s@));
        }
    }
}

fn push_pre(out: &mut String, s: &str)
    ensures
        final(out)@ == old(out)@ + spec_pre(s@),
{
    if !s.is_empty() {
        out.append(" ");
        out.append(s);
        proof {
            assert(out@ =~= old(out)@ + spec_pre(s@));
        }
    } else {
        proof {
            assert(out@ =~= old(out)@ + spec_pre(s@));
        }
    }
}

/// The annotations re-attached verbatim, each followed by one space.
pub open spec fn spec_attrs_text(attrs: Seq<Attr>) -> Seq<char>
    decreases attrs.len(),
{
    if attrs.len() == 0 {
        Seq::empty()
    } else {
        spec_attrs_text(attrs.drop_last()) + attrs.last().text@ + " "@
    }
}

fn push_attrs(out: &mut String, attrs: &Vec<Attr>)
    ensures
        final(out)@ == old(out)@ + spec_attrs_text(attrs@),
{
    let ghost base = out@;
    let n = attrs.len();
    proof {
        assert(attrs@.take(0) =~= Seq::<Attr>::empty());
        assert(out@ =~= base + spec_attrs_text(attrs@.take(0)));
    }
    let mut i: usize = 0;
    while i < n
        invariant
            0 <= i <= n,
            n == attrs@.len(),
            out@ == base + spec_attrs_text(attrs@.take(i as int)),
        decreases n - i,
    {
        proof {
            assert(attrs@.take(i as int + 1).drop_last() =~= attrs@.take(i as int));
            assert(attrs@.take(i as int + 1).last() == attrs@[i as int]);
        }
        out.append(attrs[i].text.as_str());
        out.append(" ");
        proof {
            assert(out@ =~= base + spec_attrs_text(attrs@.take(i as int + 1)));
        }
        i += 1;
    }
    proof {
        assert(attrs@.take(n as int) =~= attrs@);
    }
}

/// One variant of the re-declared enum: its annotations, its name, and its
/// verbatim discriminant expression where the source wrote one. A variant the
/// modeler classified as implicit is re-declared with no discriminant: the
/// host's own numbering assigns the value, by the same rule the modeler used.
pub open spec fn spec_variant_item(v: EnumVariant) -> Seq<char> {
    spec_attrs_text(v.attributes@) + v.name@ + match v.discriminant {
        Some(e) => " = "@ + e.text@,
        None => Seq::<char>::empty(),
    }
}

/// The variant list, separated by comma tokens.
pub open spec fn spec_variant_list(vs: Seq<EnumVariant>) -> Seq<char>
    decreases vs.len(),
{
    if vs.len() == 0 {
        Seq::empty()
    } else if vs.len() == 1 {
        spec_variant_item(vs[0])
    } else {
        spec_variant_list(vs.drop_last()) + " , "@ + spec_variant_item(vs.last())
    }
}

/// The variant list in braces.
pub open spec fn spec_braced_variants(vs: Seq<EnumVariant>) -> Seq<char> {
    if vs.len() == 0 {
        "{ }"@
    } else {
        "{ "@ + spec_variant_list(vs) + " }"@
    }
}

fn push_variant_item(out: &mut String, v: &EnumVariant)
    ensures
        final(out)@ == old(out)@ + spec_variant_item(*v),
{
    push_attrs(out, &v.attributes);
    out.append(v.name.as_str());
    match &v.discriminant {
        Some(e) => {
            out.append(" = ");
            out.append(e.text.as_str());
        },
        None => {},
    }
    proof {
        assert(out@ =~= old(out)@ + spec_variant_item(*v));
    }
}

fn push_variant_list_braced(out: &mut String, vs: &Vec<EnumVariant>)
    ensures
        final(out)@ == old(out)@ + spec_braced_variants(vs@),
{
    let n = vs.len();
    if n == 0 {
        out.append("{ }");
        proof {
            assert(out@ =~= old(out)@ + spec_braced_variants(vs@));
        }
        return ;
    }
    out.append("{ ");
    let ghost base = out@;
    proof {
        assert(vs@.take(0) =~= Seq::<EnumVariant>::empty());
        assert(out@ =~= base + spec_variant_list(vs@.take(0)));
    }
    let mut i: usize = 0;
    while i < n
        invariant
            0 <= i <= n,
            n == vs@.len(),
            out@ == base + spec_variant_list(vs@.take(i as int)),
        decreases n - i,
    {
        proof {
            assert(vs@.take(i as int + 1).drop_last() =~= vs@.take(i as int));
            assert(vs@.take(i as int + 1).last() == vs@[i as int]);
        }
        let ghost before = out@;
        if i > 0 {
            out.append(" , ");
        }
        push_variant_item(out, &vs[i]);
        proof {
            if i == 0 {
                assert(vs@.take(1).len() == 1);
                assert(vs@.take(1)[0] == vs@[0]);
                assert(out@ =~= base + spec_variant_list(vs@.take(i as int + 1)));
            } else {
                assert(out@ =~= base + spec_variant_list(vs@.take(i as int + 1)));
            }
        }
        i += 1;
    }
    out.append(" }");
    proof {
        assert(vs@.take(n as int) =~= vs@);
        assert(out@ =~= old(out)@ + spec_braced_variants(vs@));
    }
}

/// The error type's name, derived deterministically from the enum's name.
pub open spec fn spec_error_name(name: Seq<char>) -> Seq<char> {
    name + "ConversionError"@
}

fn push_error_name(out: &mut String, name: &str)
    ensures
        final(out)@ == old(out)@ + spec_error_name(name@),
{
    out.append(name);
    out.append("ConversionError");
    proof {
        assert(out@ =~= old(out)@ + spec_error_name(name@));
    }
}

/// The header of an inherent impl block: `impl` with the pass-through
/// generics around the enum's name.
pub open spec fn spec_impl_header(name: Seq<char>, g: Generics) -> Seq<char> {
    "impl "@ + spec_sp(g.impl_text@) + name + spec_pre(g.type_text@) + spec_pre(g.where_text@)
}

fn push_impl_header(out: &mut String, name: &str, g: &Generics)
    ensures
        final(out)@ == old(out)@ + spec_impl_header(name@, *g),
{
    out.append("impl ");
    push_sp(out, g.impl_text.as_str());
    out.append(name);
    push_pre(out, g.type_text.as_str());
    push_pre(out, g.where_text.as_str());
    proof {
        assert(out@ =~= old(out)@ + spec_impl_header(name@, *g));
    }
}

/// The re-declared enum: the kept annotations, the representation annotation
/// naming the chosen type, the declared visibility, and the variant list in
/// original order.
pub open spec fn spec_enum_definition(v: ReprEnumView) -> Seq<char> {
    spec_attrs_text(v.attributes) + "# [repr ("@ + v.repr_type.spec_name() + ")] "@ + spec_sp(
        v.visibility,
    ) + "enum "@ + v.name + " "@ + spec_braced_variants(v.variants)
}

/// Emits the re-declared enum with the representation annotation attached.
pub fn generate_enum_definition(repr_enum: &ReprEnum) -> (r: String)
    ensures
        r@ == spec_enum_definition(repr_enum@),
{
    let mut out = String::new();
    push_attrs(&mut out, &repr_enum.attributes);
    out.append("# [repr (");
    out.append(repr_enum.repr_type.name());
    out.append(")] ");
    push_sp(&mut out, repr_enum.visibility.as_str());
    out.append("enum ");
    out.append(repr_enum.name.as_str());
    out.append(" ");
    push_variant_list_braced(&mut out, &repr_enum.variants);
    proof {
        assert(out@ =~= spec_enum_definition(repr_enum@));
    }
    out
}

/// One test of the fallible conversion: compare the argument against the
/// host's own cast of this variant, and return the variant on a match.
pub open spec fn spec_from_repr_check(name: Seq<char>, rt: ReprType, vname: Seq<char>) -> Seq<
    char,
> {
    "if value == "@ + name + " :: "@ + vname + " as "@ + rt.spec_name()
        + " { return :: core :: option :: Option :: Some ("@ + name + " :: "@ + vname + ") ; } "@
}

/// The tests of the fallible conversion, one per variant, in declaration
/// order.
pub open spec fn spec_from_repr_checks(name: Seq<char>, rt: ReprType, vs: Seq<EnumVariant>) -> Seq<
    char,
>
    decreases vs.len(),
{
    if vs.len() == 0 {
        Seq::empty()
    } else {
        spec_from_repr_checks(name, rt, vs.drop_last()) + spec_from_repr_check(
            name,
            rt,
            vs.last().name@,
        )
    }
}

fn push_from_repr_checks(out: &mut String, name: &str, rt: ReprType, vs: &Vec<EnumVariant>)
    ensures
        final(out)@ == old(out)@ + spec_from_repr_checks(name@, rt, vs@),
{
    let ghost base = out@;
    let n = vs.len();
    proof {
        assert(vs@.take(0) =~= Seq::<EnumVariant>::empty());
        assert(out@ =~= base + spec_from_repr_checks(name@, rt, vs@.take(0)));
    }
    let mut i: usize = 0;
    while i < n
        invariant
            0 <= i <= n,
            n == vs@.len(),
            out@ == base + spec_from_repr_checks(name@, rt, vs@.take(i as int)),
        decreases n - i,
    {
        proof {
            assert(vs@.take(i as int + 1).drop_last() =~= vs@.take(i as int));
            assert(vs@.take(i as int + 1).last() == vs@[i as int]);
        }
        out.append("if value == ");
        out.append(name);
        out.append(" :: ");
        out.append(vs[i].name.as_str());
        out.append(" as ");
        out.append(rt.name());
        out.append(" { return :: core :: option :: Option :: Some (");
        out.append(name);
        out.append(" :: ");
        out.append(vs[i].name.as_str());
        out.append(") ; } ");
        proof {
            assert(out@ =~= base + spec_from_repr_checks(name@, rt, vs@.take(i as int + 1)));
        }
        i += 1;
    }
    proof {
        assert(vs@.take(n as int) =~= vs@);
    }
}

/// One arm of the total conversion: map the variant to the host's own cast of
/// it.
pub open spec fn spec_as_repr_arm(name: Seq<char>, rt: ReprType, vname: Seq<char>) -> Seq<char> {
    name + " :: "@ + vname + " => "@ + name + " :: "@ + vname + " as "@ + rt.spec_name() + " , "@
}

/// The arms of the total conversion, one per variant, in declaration order.
pub open spec fn spec_as_repr_arms(name: Seq<char>, rt: ReprType, vs: Seq<EnumVariant>) -> Seq<
    char,
>
    decreases vs.len(),
{
    if vs.len() == 0 {
        Seq::empty()
    } else {
        spec_as_repr_arms(name, rt, vs.drop_last()) + spec_as_repr_arm(name, rt, vs.last().name@)
    }
}

fn push_as_repr_arms(out: &mut String, name: &str, rt: ReprType, vs: &Vec<EnumVariant>)
    ensures
        final(out)@ == old(out)@ + spec_as_repr_arms(name@, rt, vs@),
{
    let ghost base = out@;
    let n = vs.len();
    proof {
        assert(vs@.take(0) =~= Seq::<EnumVariant>::empty());
        assert(out@ =~= base + spec_as_repr_arms(name@, rt, vs@.take(0)));
    }
    let mut i: usize = 0;
    while i < n
        invariant
            0 <= i <= n,
            n == vs@.len(),
            out@ == base + spec_as_repr_arms(name@, rt, vs@.take(i as int)),
        decreases n - i,
    {
        proof {
            assert(vs@.take(i as int + 1).drop_last() =~= vs@.take(i as int));
            assert(vs@.take(i as int + 1).last() == vs@[i as int]);
        }
        out.append(name);
        out.append(" :: ");
        out.append(vs[i].name.as_str());
        out.append(" => ");
        out.append(name);
        out.append(" :: ");
        out.append(vs[i].name.as_str());
        out.append(" as ");
        out.append(rt.name());
        out.append(" , ");
        proof {
            assert(out@ =~= base + spec_as_repr_arms(name@, rt, vs@.take(i as int + 1)));
        }
        i += 1;
    }
    proof {
        assert(vs@.take(n as int) =~= vs@);
    }
}

/// The inherent impl block with the two conversion methods: the fallible
/// integer-to-variant conversion (first matching variant, else no value) and
/// the total variant-to-integer conversion, both constant-evaluable.
pub open spec fn spec_impl_methods(v: ReprEnumView) -> Seq<char> {
    spec_impl_header(v.name, v.generics) + " { # [inline] pub const "@ + "fn from_repr (value : "@
        + v.repr_type.spec_name() + ") -> :: core :: option :: Option < Self > { "@
        + spec_from_repr_checks(v.name, v.repr_type, v.variants)
        + ":: core :: option :: Option :: None } # [inline] pub const "@
        + "fn as_repr (& self) -> "@ + v.repr_type.spec_name() + " { match self { "@
        + spec_as_repr_arms(v.name, v.repr_type, v.variants) + "} } }"@
}

/// Emits the impl block with the `from_repr` and `as_repr` methods.
pub fn generate_impl_methods(repr_enum: &ReprEnum) -> (r: String)
    ensures
        r@ == spec_impl_methods(repr_enum@),
{
    let mut out = String::new();
    push_impl_header(&mut out, repr_enum.name.as_str(), &repr_enum.generics);
    out.append(" { # [inline] pub const ");
    out.append("fn from_repr (value : ");
    out.append(repr_enum.repr_type.name());
    out.append(") -> :: core :: option :: Option < Self > { ");
    push_from_repr_checks(
        &mut out,
        repr_enum.name.as_str(),
        repr_enum.repr_type,
        &repr_enum.variants,
    );
    out.append(":: core :: option :: Option :: None } # [inline] pub const ");
    out.append("fn as_repr (& self) -> ");
    out.append(repr_enum.repr_type.name());
    out.append(" { match self { ");
    push_as_repr_arms(&mut out, repr_enum.name.as_str(), repr_enum.repr_type, &repr_enum.variants);
    out.append("} } }");
    proof {
        assert(out@ =~= spec_impl_methods(repr_enum@));
    }
    out
}

/// The value-to-integer conversions: `From` over the enum, owned and by
/// reference, both thin wrappers over `as_repr`.
pub open spec fn spec_from_impl(v: ReprEnumView) -> Seq<char> {
    "impl "@ + spec_sp(v.generics.impl_text@) + ":: core :: convert :: From < "@ + v.name
        + spec_pre(v.generics.type_text@) + " > for "@ + v.repr_type.spec_name() + spec_pre(
        v.generics.where_text@,
    ) + " { # [inline] fn from (value : "@ + v.name + spec_pre(v.generics.type_text@)
        + ") -> Self { value . as_repr () } } "@ + "impl "@ + spec_sp(v.generics.impl_text@)
        + ":: core :: convert :: From < & "@ + v.name + spec_pre(v.generics.type_text@)
        + " > for "@ + v.repr_type.spec_name() + spec_pre(v.generics.where_text@)
        + " { # [inline] fn from (value : & "@ + v.name + spec_pre(v.generics.type_text@)
        + ") -> Self { value . as_repr () } }"@
}

/// Emits the `From` implementations, owned and by reference.
pub fn generate_from_impl(repr_enum: &ReprEnum) -> (r: String)
    ensures
        r@ == spec_from_impl(repr_enum@),
{
    let name = repr_enum.name.as_str();
    let rt = repr_enum.repr_type.name();
    let g = &repr_enum.generics;
    let mut out = String::new();
    out.append("impl ");
    push_sp(&mut out, g.impl_text.as_str());
    out.append(":: core :: convert :: From < ");
    out.append(name);
    push_pre(&mut out, g.type_text.as_str());
    out.append(" > for ");
    out.append(rt);
    push_pre(&mut out, g.where_text.as_str());
    out.append(" { # [inline] fn from (value : ");
    out.append(name);
    push_pre(&mut out, g.type_text.as_str());
    out.append(") -> Self { value . as_repr () } } ");
    out.append("impl ");
    push_sp(&mut out, g.impl_text.as_str());
    out.append(":: core :: convert :: From < & ");
    out.append(name);
    push_pre(&mut out, g.type_text.as_str());
    out.append(" > for ");
    out.append(rt);
    push_pre(&mut out, g.where_text.as_str());
    out.append(" { # [inline] fn from (value : & ");
    out.append(name);
    push_pre(&mut out, g.type_text.as_str());
    out.append(") -> Self { value . as_repr () } }");
    proof {
        assert(out@ =~= spec_from_impl(repr_enum@));
    }
    out
}

/// The integer-to-value conversions: `TryFrom` over the representation type,
/// owned and by reference, failing with the conversion error that carries the
/// rejected value.
pub open spec fn spec_try_from_impl(v: ReprEnumView) -> Seq<char> {
    "impl "@ + spec_sp(v.generics.impl_text@) + ":: core :: convert :: TryFrom < "@
        + v.repr_type.spec_name() + " > for "@ + v.name + spec_pre(v.generics.type_text@)
        + spec_pre(v.generics.where_text@) + " { type Error = "@ + spec_error_name(v.name)
        + " ; # [inline] fn try_from (value : "@ + v.repr_type.spec_name()
        + ") -> :: core :: result :: Result < Self , Self :: Error > { Self :: from_repr (value) . ok_or ("@
        + spec_error_name(v.name) + " (value)) } } "@ + "impl "@ + spec_sp(v.generics.impl_text@)
        + ":: core :: convert :: TryFrom < & "@ + v.repr_type.spec_name() + " > for "@ + v.name
        + spec_pre(v.generics.type_text@) + spec_pre(v.generics.where_text@) + " { type Error = "@
        + spec_error_name(v.name) + " ; # [inline] fn try_from (value : & "@
        + v.repr_type.spec_name()
        + ") -> :: core :: result :: Result < Self , Self :: Error > { Self :: from_repr (* value) . ok_or ("@
        + spec_error_name(v.name) + " (* value)) } }"@
}

/// Emits the `TryFrom` implementations, owned and by reference.
pub fn generate_try_from_impl(repr_enum: &ReprEnum) -> (r: String)
    ensures
        r@ == spec_try_from_impl(repr_enum@),
{
    let name = repr_enum.name.as_str();
    let rt = repr_enum.repr_type.name();
    let g = &repr_enum.generics;
    let mut out = String::new();
    out.append("impl ");
    push_sp(&mut out, g.impl_text.as_str());
    out.append(":: core :: convert :: TryFrom < ");
    out.append(rt);
    out.append(" > for ");
    out.append(name);
    push_pre(&mut out, g.type_text.as_str());
    push_pre(&mut out, g.where_text.as_str());
    out.append(" { type Error = ");
    push_error_name(&mut out, name);
    out.append(" ; # [inline] fn try_from (value : ");
    out.append(rt);
    out.append(") -> :: core :: result :: Result < Self , Self :: Error > { Self :: from_repr (value) . ok_or (");
    push_error_name(&mut out, name);
    out.append(" (value)) } } ");
    out.append("impl ");
    push_sp(&mut out, g.impl_text.as_str());
    out.append(":: core :: convert :: TryFrom < & ");
    out.append(rt);
    out.append(" > for ");
    out.append(name);
    push_pre(&mut out, g.type_text.as_str());
    push_pre(&mut out, g.where_text.as_str());
    out.append(" { type Error = ");
    push_error_name(&mut out, name);
    out.append(" ; # [inline] fn try_from (value : & ");
    out.append(rt);
    out.append(") -> :: core :: result :: Result < Self , Self :: Error > { Self :: from_repr (* value) . ok_or (");
    push_error_name(&mut out, name);
    out.append(" (* value)) } }");
    proof {
        assert(out@ =~= spec_try_from_impl(repr_enum@));
    }
    out
}

/// The conversion error type: a distinct nominal type per enum, holding the
/// rejected value as public data, with equality, hash and copy semantics and
/// a human-readable message of the form `unknown <EnumName> variant: <value>`.
pub open spec fn spec_error_type(v: ReprEnumView) -> Seq<char> {
    "# [derive (Debug , Clone , Copy , PartialEq , Eq , Hash)] "@ + spec_sp(v.visibility)
        + "struct "@ + spec_error_name(v.name) + " (pub "@ + v.repr_type.spec_name() + ") ; "@
        + "impl :: core :: fmt :: Display for "@ + spec_error_name(v.name)
        + " { fn fmt (& self , f : & mut :: core :: fmt :: Formatter < '_ >) -> :: core :: fmt :: Result { f . write_str (\"unknown "@
        + v.name + " variant: \") ? ; :: core :: fmt :: Display :: fmt (& self . 0 , f) } } "@
        + "impl :: core :: error :: Error for "@ + spec_error_name(v.name) + " { }"@
}

/// Emits the conversion error type with its formatting and error impls.
pub fn generate_error_type(repr_enum: &ReprEnum) -> (r: String)
    ensures
        r@ == spec_error_type(repr_enum@),
{
    let name = repr_enum.name.as_str();
    let mut out = String::new();
    out.append("# [derive (Debug , Clone , Copy , PartialEq , Eq , Hash)] ");
    push_sp(&mut out, repr_enum.visibility.as_str());
    out.append("struct ");
    push_error_name(&mut out, name);
    out.append(" (pub ");
    out.append(repr_enum.repr_type.name());
    out.append(") ; ");
    out.append("impl :: core :: fmt :: Display for ");
    push_error_name(&mut out, name);
    out.append(
        " { fn fmt (& self , f : & mut :: core :: fmt :: Formatter < '_ >) -> :: core :: fmt :: Result { f . write_str (\"unknown ",
    );
    out.append(name);
    out.append(" variant: \") ? ; :: core :: fmt :: Display :: fmt (& self . 0 , f) } } ");
    out.append("impl :: core :: error :: Error for ");
    push_error_name(&mut out, name);
    out.append(" { }");
    proof {
        assert(out@ =~= spec_error_type(repr_enum@));
    }
    out
}

/// The complete emitted text: the five declaration groups in order, separated
/// by single spaces. Emission is a pure projection of the model: the same
/// model always yields this same text.
pub open spec fn spec_expand_repr_cast(v: ReprEnumView) -> Seq<char> {
    spec_enum_definition(v) + " "@ + spec_impl_methods(v) + " "@ + spec_from_impl(v) + " "@
        + spec_try_from_impl(v) + " "@ + spec_error_type(v)
}

/// Emits the complete expanded code for a validated enum.
pub fn expand_repr_cast(repr_enum: &ReprEnum) -> (r: String)
    ensures
        r@ == spec_expand_repr_cast(repr_enum@),
{
    let impl_methods = generate_impl_methods(repr_enum);
    let from_impl = generate_from_impl(repr_enum);
    let try_from_impl = generate_try_from_impl(repr_enum);
    let error_type = generate_error_type(repr_enum);
    let mut out = generate_enum_definition(repr_enum);
    out.append(" ");
    out.append(impl_methods.as_str());
    out.append(" ");
    out.append(from_impl.as_str());
    out.append(" ");
    out.append(try_from_impl.as_str());
    out.append(" ");
    out.append(error_type.as_str());
    proof {
        assert(out@ =~= spec_expand_repr_cast(repr_enum@));
    }
    out
}

} // verus!
