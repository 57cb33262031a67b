//! A code generator for fieldless enums with an integer representation type.
//!
//! Given a description of an enum declaration annotated with an integer
//! representation type, the pipeline validates the declaration, computes a
//! discriminant classification for every variant, and emits the token text of
//! the conversion boilerplate: the re-declared enum, `from_repr` / `as_repr`
//! methods, `From` and `TryFrom` implementations, and a conversion error type.
//!
//! The pipeline is a pure function of the declaration model in
//! [`syntax`]: a thin adapter around the host language's own syntax tree
//! reduces the annotated declaration to that model and turns the emitted
//! token text back into a stream.

pub mod expand;
pub mod parse;
pub mod repr_enum;
pub mod semantics;
pub mod syntax;
pub mod text;

use vstd::prelude::*;
use crate::expand::spec_expand_repr_cast;
use crate::parse::{
    extract_repr_from_attrs, parse_repr_cast, spec_all_unit, spec_counter_fits, spec_extract_repr,
    spec_kept_attrs, spec_modeled_variants,
};
use crate::repr_enum::ReprEnumView;
use crate::syntax::{Attr, Decl, DeclBody, ParseError, ReprType};

verus! {

/// The representation type an invocation resolves to. Argument tokens, when
/// present, must form exactly one supported type identifier. Without
/// arguments, the declaration's own representation annotation supplies the
/// type; lacking both, the invocation fails.
pub open spec fn spec_resolved_repr_type(args: Seq<String>, attrs: Seq<Attr>) -> Result<
    ReprType,
    ParseError,
> {
    if args.len() == 0 {
        match spec_extract_repr(attrs) {
            Ok(Some(t)) => Ok(t),
            Ok(None) => Err(ParseError::MissingReprType),
            Err(e) => Err(e),
        }
    } else if args.len() == 1 {
        match ReprType::spec_of_name(args[0]@) {
            Some(t) => Ok(t),
            None => Err(ParseError::MalformedArgument),
        }
    } else {
        Err(ParseError::MalformedArgument)
    }
}

/// The diagnostic the whole pipeline aborts with, where it aborts: a
/// resolution failure first, then the declaration's kind, then its variants'
/// shape.
pub open spec fn spec_pipeline_error(args: Seq<String>, input: Decl) -> ParseError {
    match spec_resolved_repr_type(args, input.attrs@) {
        Err(e) => e,
        Ok(rt) => if input.body is Other {
            ParseError::NotAnEnum
        } else {
            ParseError::HasFields
        },
    }
}

fn resolve_repr_type(args: &Vec<String>, input: &Decl) -> (r: Result<ReprType, ParseError>)
    ensures
        r == spec_resolved_repr_type(args@, input.attrs@),
{
    if args.len() == 0 {
        match extract_repr_from_attrs(input) {
            Ok(Some(t)) => Ok(t),
            Ok(None) => Err(ParseError::MissingReprType),
            Err(e) => Err(e),
        }
    } else if args.len() == 1 {
        match ReprType::from_name(args[0].as_str()) {
            Some(t) => Ok(t),
            None => Err(ParseError::MalformedArgument),
        }
    } else {
        Err(ParseError::MalformedArgument)
    }
}

/// Runs the whole pipeline: resolves the representation type from the
/// argument tokens or the declaration's own annotations, validates and models
/// the declaration, and emits the token text of the five generated
/// declaration groups.
///
/// Succeeds exactly on a fieldless enum with a resolvable representation
/// type; the emitted text is the fixed projection of the modeled enum.
pub fn repr_cast(args: &Vec<String>, input: Decl) -> (r: Result<String, ParseError>)
    requires
        (input.body matches DeclBody::Enum(vs) && spec_all_unit(vs@)) ==> spec_counter_fits(
            (input.body->0)@,
        ),
    ensures
        r is Ok <==> (spec_resolved_repr_type(args@, input.attrs@) is Ok && input.body is Enum
            && spec_all_unit((input.body->0)@)),
        r matches Err(pe) ==> pe == spec_pipeline_error(args@, input),
        r matches Ok(s) ==> (spec_resolved_repr_type(args@, input.attrs@) matches Ok(rt) && s@
            == spec_expand_repr_cast(
            ReprEnumView {
                name: input.name@,
                repr_type: rt,
                visibility: input.vis@,
                attributes: spec_kept_attrs(input.attrs@, rt),
                generics: input.generics,
                variants: spec_modeled_variants((input.body->0)@),
            },
        )),
{
    let repr_type = match resolve_repr_type(args, &input) {
        Ok(t) => t,
        Err(e) => {
            return Err(e);
        },
    };
    let model = match parse_repr_cast(repr_type, input) {
        Ok(m) => m,
        Err(e) => {
            return Err(e);
        },
    };
    Ok(crate::expand::expand_repr_cast(&model))
}

} // verus!
