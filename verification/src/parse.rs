//! The pipeline's validation and modeling stage: validating the declaration's
//! shape, classifying every variant's discriminant, and filtering the
//! representation annotation that the emitter re-attaches itself.

use vstd::prelude::*;
use crate::repr_enum::{CalculatedDiscriminant, EnumVariant, ReprEnum, ReprEnumView};
use crate::syntax::{Attr, Decl, DeclBody, DeclVariant, ExprShape, ParseError, ReprType};
use crate::text::{lemma_digits_val_nonneg, parse_decimal_digits, spec_parse_decimal, str_eq};

verus! {

/// The value of a discriminant expression, as far as best-effort evaluation
/// goes: a bare integer literal, or a chain of unary negations around one,
/// provided the literal's value fits the signed 128-bit range. Anything else
/// has no value here.
pub open spec fn spec_eval(e: ExprShape) -> Option<int>
    decreases e,
{
    match e {
        ExprShape::IntLit(digits) => spec_parse_decimal(digits@),
        ExprShape::Neg(inner) => match spec_eval(*inner) {
            Some(v) => Some(-v),
            None => None,
        },
        ExprShape::Opaque => None,
    }
}

/// Whatever best-effort evaluation yields stays within one sign flip of the
/// signed 128-bit maximum.
pub proof fn lemma_eval_range(e: ExprShape)
    ensures
        spec_eval(e) matches Some(v) ==> -(i128::MAX as int) <= v <= i128::MAX,
    decreases e,
{
    match e {
        ExprShape::IntLit(digits) => {
            if spec_parse_decimal(digits@) is Some {
                lemma_digits_val_nonneg(digits@);
            }
        },
        ExprShape::Neg(inner) => {
            lemma_eval_range(*inner);
        },
        ExprShape::Opaque => {},
    }
}

/// Best-effort evaluation of a discriminant expression: integer literals and
/// unary negation of evaluable expressions, nothing more.
pub fn try_evaluate_expr(expr: &ExprShape) -> (r: Option<i128>)
    ensures
        match r {
            Some(v) => spec_eval(*expr) == Some(v as int),
            None => spec_eval(*expr) is None,
        },
    decreases *expr,
{
    match expr {
        ExprShape::IntLit(digits) => parse_decimal_digits(digits.as_str()),
        ExprShape::Neg(inner) => match try_evaluate_expr(&**inner) {
            Some(v) => {
                proof {
                    lemma_eval_range(**inner);
                }
                Some(-v)
            },
            None => None,
        },
        ExprShape::Opaque => None,
    }
}

/// Whether `a` is a list-style annotation with path `repr`.
pub open spec fn spec_attr_is_repr_list(a: Attr) -> bool {
    a.path@ == "repr"@ && a.list_args is Some
}

/// The representation type named by a list-style `repr` annotation whose
/// argument is exactly one supported type identifier; `None` for any other
/// argument shape.
pub open spec fn spec_repr_list_arg(a: Attr) -> Option<ReprType> {
    match a.list_args {
        Some(args) => if args@.len() == 1 {
            ReprType::spec_of_name(args@[0]@)
        } else {
            None
        },
        None => None,
    }
}

/// Whether `a` is a representation annotation naming exactly `rt`.
pub open spec fn spec_is_matching_repr_attr(a: Attr, rt: ReprType) -> bool {
    spec_attr_is_repr_list(a) && spec_repr_list_arg(a) == Some(rt)
}

/// Checks whether an annotation is a representation annotation matching the
/// given type, in which case the modeler drops it (the emitter re-attaches
/// its own).
pub fn is_matching_repr_attr(attr: &Attr, repr_type: ReprType) -> (r: bool)
    ensures
        r == spec_is_matching_repr_attr(*attr, repr_type),
{
    if !str_eq(attr.path.as_str(), "repr") {
        return false;
    }
    match &attr.list_args {
        Some(args) => {
            if args.len() != 1 {
                return false;
            }
            match ReprType::from_name(args[0].as_str()) {
                Some(t) => t == repr_type,
                None => false,
            }
        },
        None => false,
    }
}

/// The annotations the modeler keeps: those that are not a representation
/// annotation matching the chosen type, in their original order.
pub open spec fn spec_kept_attrs(attrs: Seq<Attr>, rt: ReprType) -> Seq<Attr>
    decreases attrs.len(),
{
    if attrs.len() == 0 {
        Seq::empty()
    } else {
        let rest = spec_kept_attrs(attrs.drop_first(), rt);
        if spec_is_matching_repr_attr(attrs[0], rt) {
            rest
        } else {
            seq![attrs[0]] + rest
        }
    }
}

/// What scanning the declaration's annotations for a representation type
/// yields: the first list-style `repr` annotation decides. If its argument is
/// a single supported type identifier, that type; any other argument shape is
/// a malformed argument. Without any list-style `repr` annotation there is
/// nothing to extract.
pub open spec fn spec_extract_repr(attrs: Seq<Attr>) -> Result<Option<ReprType>, ParseError>
    decreases attrs.len(),
{
    if attrs.len() == 0 {
        Ok(None)
    } else if spec_attr_is_repr_list(attrs[0]) {
        match spec_repr_list_arg(attrs[0]) {
            Some(t) => Ok(Some(t)),
            None => Err(ParseError::MalformedArgument),
        }
    } else {
        spec_extract_repr(attrs.drop_first())
    }
}

/// Scans the declaration's annotations for an existing representation
/// annotation, for invocations that supply no argument of their own.
pub fn extract_repr_from_attrs(input: &Decl) -> (r: Result<Option<ReprType>, ParseError>)
    ensures
        r == spec_extract_repr(input.attrs@),
{
    let n = input.attrs.len();
    proof {
        assert(input.attrs@.skip(0) =~= input.attrs@);
    }
    let mut i: usize = 0;
    while i < n
        invariant
            0 <= i <= n,
            n == input.attrs@.len(),
            spec_extract_repr(input.attrs@) == spec_extract_repr(input.attrs@.skip(i as int)),
        decreases n - i,
    {
        proof {
            assert(input.attrs@.skip(i as int)[0] == input.attrs@[i as int]);
            assert(input.attrs@.skip(i as int).drop_first() =~= input.attrs@.skip(i as int + 1));
        }
        let a = &input.attrs[i];
        if str_eq(a.path.as_str(), "repr") {
            match &a.list_args {
                Some(args) => {
                    if args.len() == 1 {
                        match ReprType::from_name(args[0].as_str()) {
                            Some(t) => {
                                return Ok(Some(t));
                            },
                            None => {
                                return Err(ParseError::MalformedArgument);
                            },
                        }
                    } else {
                        return Err(ParseError::MalformedArgument);
                    }
                },
                None => {},
            }
        }
        i += 1;
    }
    proof {
        assert(input.attrs@.skip(n as int) =~= Seq::<Attr>::empty());
    }
    Ok(None)
}

/// The modeler's "next implicit value" counter just before variant `i`:
/// `0` at the start; after an explicit variant, one past its value when the
/// expression evaluates and `0` again when it does not; after an implicit
/// variant, one past that variant's value.
pub open spec fn spec_counter(vs: Seq<DeclVariant>, i: int) -> int
    decreases i,
{
    if i <= 0 {
        0
    } else {
        match vs[i - 1].discriminant {
            Some(e) => match spec_eval(e.shape) {
                Some(v) => v + 1,
                None => 0,
            },
            None => spec_counter(vs, i - 1) + 1,
        }
    }
}

/// The machine limit on the counter: every value it passes through must fit
/// the signed 128-bit range.
pub open spec fn spec_counter_fits(vs: Seq<DeclVariant>) -> bool {
    forall|i: int| 0 <= i <= vs.len() ==> spec_counter(vs, i) <= i128::MAX
}

/// The counter never goes below one sign flip of the signed 128-bit maximum.
pub proof fn lemma_counter_lower(vs: Seq<DeclVariant>, i: int)
    ensures
        spec_counter(vs, i) >= -(i128::MAX as int),
    decreases i,
{
    if i > 0 {
        match vs[i - 1].discriminant {
            Some(e) => {
                lemma_eval_range(e.shape);
            },
            None => {
                lemma_counter_lower(vs, i - 1);
            },
        }
    }
}

/// The discriminant classification the modeler assigns to variant `i`: the
/// verbatim expression where the source wrote one, otherwise the counter's
/// value.
pub open spec fn spec_calculated(vs: Seq<DeclVariant>, i: int) -> CalculatedDiscriminant {
    match vs[i].discriminant {
        Some(e) => CalculatedDiscriminant::Explicit(e),
        None => CalculatedDiscriminant::Implicit(spec_counter(vs, i) as i128),
    }
}

/// Classifies every variant's discriminant, left to right: an explicit
/// expression is recorded verbatim (and, when it evaluates, steers the
/// counter to one past its value; when it does not, resets the counter to
/// `0`); a variant without an expression receives the counter's value.
pub fn calculate_discriminants(variants: Vec<DeclVariant>) -> (r: Vec<EnumVariant>)
    requires
        spec_counter_fits(variants@),
    ensures
        r@.len() == variants@.len(),
        forall|i: int| 0 <= i < variants@.len() ==> {
            &&& (#[trigger] r@[i]).name == variants@[i].name
            &&& r@[i].attributes == variants@[i].attrs
            &&& r@[i].discriminant == variants@[i].discriminant
            &&& r@[i].calculated_discriminant == spec_calculated(variants@, i)
        },
{
    let ghost orig = variants@;
    let mut vs = variants;
    let mut out: Vec<EnumVariant> = Vec::new();
    let mut counter: i128 = 0;
    while vs.len() > 0
        invariant
            out@.len() + vs@.len() == orig.len(),
            vs@ == orig.skip(out@.len() as int),
            counter as int == spec_counter(orig, out@.len() as int),
            spec_counter_fits(orig),
            forall|i: int| 0 <= i < out@.len() ==> {
                &&& (#[trigger] out@[i]).name == orig[i].name
                &&& out@[i].attributes == orig[i].attrs
                &&& out@[i].discriminant == orig[i].discriminant
                &&& out@[i].calculated_discriminant == spec_calculated(orig, i)
            },
        decreases vs@.len(),
    {
        let ghost i = out@.len() as int;
        proof {
            assert(vs@[0] == orig[i]);
            assert(vs@.remove(0) =~= orig.skip(i + 1));
        }
        let v = vs.remove(0);
        let calc = match &v.discriminant {
            Some(e) => {
                match try_evaluate_expr(&e.shape) {
                    Some(val) => {
                        proof {
                            assert(spec_counter(orig, i + 1) == val + 1);
                            lemma_eval_range(e.shape);
                        }
                        counter = val + 1;
                    },
                    None => {
                        proof {
                            assert(spec_counter(orig, i + 1) == 0);
                        }
                        counter = 0;
                    },
                }
                CalculatedDiscriminant::Explicit(e.clone())
            },
            None => {
                let c = CalculatedDiscriminant::Implicit(counter);
                proof {
                    assert(spec_counter(orig, i + 1) == spec_counter(orig, i) + 1);
                    lemma_counter_lower(orig, i);
                }
                counter = counter + 1;
                c
            },
        };
        out.push(EnumVariant {
            name: v.name,
            attributes: v.attrs,
            discriminant: v.discriminant,
            calculated_discriminant: calc,
        });
    }
    proof {
        assert(out@.len() == orig.len());
    }
    out
}

/// The variant records of the intermediate model, as the modeler builds them:
/// each keeps its declared name, annotations and source discriminant, and
/// carries the discriminant classification.
pub open spec fn spec_modeled_variants(vs: Seq<DeclVariant>) -> Seq<EnumVariant> {
    Seq::new(
        vs.len(),
        |i: int|
            EnumVariant {
                name: vs[i].name,
                attributes: vs[i].attrs,
                discriminant: vs[i].discriminant,
                calculated_discriminant: spec_calculated(vs, i),
            },
    )
}

/// Whether every variant of the declared enum is a bare tag.
pub open spec fn spec_all_unit(vs: Seq<DeclVariant>) -> bool {
    forall|i: int| 0 <= i < vs.len() ==> (#[trigger] vs[i]).is_unit
}

/// Validates the declaration and builds the intermediate model.
///
/// Fails with `NotAnEnum` when the declaration is not an enum and with
/// `HasFields` when some variant carries data fields. Otherwise the model
/// carries the declaration's name, visibility and generics unchanged, its
/// annotations with every representation annotation matching `repr_type`
/// filtered out (order kept), and the variants with their discriminant
/// classification.
pub fn parse_repr_cast(repr_type: ReprType, input: Decl) -> (r: Result<ReprEnum, ParseError>)
    requires
        (input.body matches DeclBody::Enum(vs) && spec_all_unit(vs@)) ==> spec_counter_fits(
            (input.body->0)@,
        ),
    ensures
        r is Ok <==> (input.body is Enum && spec_all_unit((input.body->0)@)),
        r matches Err(pe) ==> if input.body is Other {
            pe == ParseError::NotAnEnum
        } else {
            pe == ParseError::HasFields && !spec_all_unit((input.body->0)@)
        },
        r matches Ok(e) ==> e@ == (ReprEnumView {
            name: input.name@,
            repr_type,
            visibility: input.vis@,
            attributes: spec_kept_attrs(input.attrs@, repr_type),
            generics: input.generics,
            variants: spec_modeled_variants((input.body->0)@),
        }),
{
    let Decl { name, vis, attrs, generics, body } = input;
    let vs = match body {
        DeclBody::Enum(vs) => vs,
        DeclBody::Other => {
            return Err(ParseError::NotAnEnum);
        },
    };
    let n = vs.len();
    let mut i: usize = 0;
    while i < n
        invariant
            0 <= i <= n,
            n == vs@.len(),
            input.body is Enum,
            (input.body->0)@ == vs@,
            forall|j: int| 0 <= j < i ==> (#[trigger] vs@[j]).is_unit,
        decreases n - i,
    {
        if !vs[i].is_unit {
            proof {
                assert(!spec_all_unit(vs@)) by {
                    assert(!vs@[i as int].is_unit);
                }
            }
            return Err(ParseError::HasFields);
        }
        i += 1;
    }
    let variants = calculate_discriminants(vs);
    let ghost orig_attrs = attrs@;
    let mut rest = attrs;
    let mut kept: Vec<Attr> = Vec::new();
    proof {
        assert(kept@ + spec_kept_attrs(rest@, repr_type) =~= spec_kept_attrs(
            orig_attrs,
            repr_type,
        ));
    }
    while rest.len() > 0
        invariant
            kept@ + spec_kept_attrs(rest@, repr_type) == spec_kept_attrs(orig_attrs, repr_type),
        decreases rest@.len(),
    {
        proof {
            assert(rest@.remove(0) =~= rest@.drop_first());
        }
        let ghost prev_rest = rest@;
        let ghost prev_kept = kept@;
        let a = rest.remove(0);
        if !is_matching_repr_attr(&a, repr_type) {
            kept.push(a);
            proof {
                assert(spec_kept_attrs(prev_rest, repr_type) == seq![prev_rest[0]]
                    + spec_kept_attrs(prev_rest.drop_first(), repr_type));
                assert(kept@ + spec_kept_attrs(rest@, repr_type) =~= prev_kept + spec_kept_attrs(
                    prev_rest,
                    repr_type,
                ));
            }
        } else {
            proof {
                assert(spec_kept_attrs(prev_rest, repr_type) == spec_kept_attrs(
                    prev_rest.drop_first(),
                    repr_type,
                ));
            }
        }
    }
    proof {
        assert(spec_kept_attrs(rest@, repr_type) =~= Seq::<Attr>::empty());
        assert(kept@ =~= kept@ + spec_kept_attrs(rest@, repr_type));
    }
    let result = ReprEnum {
        name,
        repr_type,
        visibility: vis,
        attributes: kept,
        generics,
        variants,
    };
    proof {
        assert(result.variants@ =~= spec_modeled_variants((input.body->0)@));
        assert(result@ =~= (ReprEnumView {
            name: input.name@,
            repr_type,
            visibility: input.vis@,
            attributes: spec_kept_attrs(input.attrs@, repr_type),
            generics: input.generics,
            variants: spec_modeled_variants((input.body->0)@),
        }));
    }
    Ok(result)
}

/// Implicit numbering after a reset point: when variant `start` opens a run
/// of variants without discriminants — at the head of the enum, or right
/// after an explicit expression that evaluation could not read — the k-th
/// variant of that run is assigned the implicit value `k`.
pub proof fn lemma_implicit_numbering(vs: Seq<DeclVariant>, start: int, i: int)
    requires
        0 <= start <= i < vs.len(),
        forall|j: int| start <= j <= i ==> (#[trigger] vs[j]).discriminant is None,
        start == 0 || (vs[start - 1].discriminant matches Some(e) && spec_eval(e.shape) is None),
    ensures
        spec_counter(vs, i) == i - start,
    decreases i - start,
{
    if i == start {
        if start > 0 {
            assert(spec_counter(vs, start) == 0);
        }
    } else {
        lemma_implicit_numbering(vs, start, i - 1);
        assert(vs[i - 1].discriminant is None);
    }
}

/// Implicit numbering after an evaluable explicit expression: when variant
/// `start - 1` carries an expression that evaluates to `v`, the k-th variant
/// of an implicit run starting at `start` is assigned `v + 1 + k`.
pub proof fn lemma_implicit_after_evaluable(vs: Seq<DeclVariant>, start: int, i: int, v: int)
    requires
        1 <= start <= i < vs.len(),
        forall|j: int| start <= j <= i ==> (#[trigger] vs[j]).discriminant is None,
        vs[start - 1].discriminant matches Some(e) && spec_eval(e.shape) == Some(v),
    ensures
        spec_counter(vs, i) == v + 1 + (i - start),
    decreases i - start,
{
    if i == start {
        assert(spec_counter(vs, start) == v + 1);
    } else {
        lemma_implicit_after_evaluable(vs, start, i - 1, v);
        assert(vs[i - 1].discriminant is None);
    }
}

/// Annotation fidelity of the modeler's filter: the kept annotations hold no
/// representation annotation matching the chosen type, and every annotation
/// that does not match is kept. The filter keeps the original order by
/// construction.
pub proof fn lemma_attribute_fidelity(attrs: Seq<Attr>, rt: ReprType)
    ensures
        forall|i: int|
            0 <= i < spec_kept_attrs(attrs, rt).len() ==> !spec_is_matching_repr_attr(
                #[trigger] spec_kept_attrs(attrs, rt)[i],
                rt,
            ),
        forall|i: int|
            0 <= i < attrs.len() && !spec_is_matching_repr_attr(#[trigger] attrs[i], rt)
                ==> spec_kept_attrs(attrs, rt).contains(attrs[i]),
    decreases attrs.len(),
{
    if attrs.len() > 0 {
        lemma_attribute_fidelity(attrs.drop_first(), rt);
        let rest = spec_kept_attrs(attrs.drop_first(), rt);
        let kept = spec_kept_attrs(attrs, rt);
        if spec_is_matching_repr_attr(attrs[0], rt) {
            assert(kept == rest);
        } else {
            assert(kept == seq![attrs[0]] + rest);
            assert(kept[0] == attrs[0]);
            assert(forall|i: int| 1 <= i < kept.len() ==> kept[i] == rest[i - 1]);
        }
        assert forall|i: int|
            0 <= i < attrs.len() && !spec_is_matching_repr_attr(attrs[i], rt) implies kept.contains(
            attrs[i],
        ) by {
            if i == 0 {
                assert(kept[0] == attrs[0]);
            } else {
                assert(attrs.drop_first()[i - 1] == attrs[i]);
                assert(rest.contains(attrs[i]));
                let j = choose|j: int| 0 <= j < rest.len() && rest[j] == attrs[i];
                if spec_is_matching_repr_attr(attrs[0], rt) {
                    assert(kept[j] == attrs[i]);
                } else {
                    assert(kept[j + 1] == attrs[i]);
                }
            }
        }
    }
}

} // verus!
