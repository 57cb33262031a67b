//! The validated intermediate model: one `ReprEnum` per accepted declaration,
//! produced by the modeler and read (never changed) by the emitter.

use vstd::prelude::*;
use crate::syntax::{Attr, DiscExpr, Generics, ReprType};
use crate::text::{push_i128_tokens, spec_int_tokens};

verus! {

/// A fieldless enum that has been validated and fully classified.
#[derive(Debug)]
pub struct ReprEnum {
    /// The name of the enum.
    pub name: String,
    /// The integer type used for representation.
    pub repr_type: ReprType,
    /// Visibility of the enum, as verbatim token text (empty for private).
    pub visibility: String,
    /// Annotations to re-attach verbatim, with any representation annotation
    /// that names `repr_type` filtered out.
    pub attributes: Vec<Attr>,
    /// Generic parameters, passed through to the emitted declarations.
    pub generics: Generics,
    /// The variants, in declaration order.
    pub variants: Vec<EnumVariant>,
}

/// The mathematical view of a `ReprEnum`: the same record with every text
/// field read as its character sequence.
#[verifier::ext_equal]
pub ghost struct ReprEnumView {
    pub name: Seq<char>,
    pub repr_type: ReprType,
    pub visibility: Seq<char>,
    pub attributes: Seq<Attr>,
    pub generics: Generics,
    pub variants: Seq<EnumVariant>,
}

impl View for ReprEnum {
    type V = ReprEnumView;

    open spec fn view(&self) -> ReprEnumView {
        ReprEnumView {
            name: self.name@,
            repr_type: self.repr_type,
            visibility: self.visibility@,
            attributes: self.attributes@,
            generics: self.generics,
            variants: self.variants@,
        }
    }
}

/// One variant of the validated enum.
#[derive(Debug)]
pub struct EnumVariant {
    /// The name of the variant.
    pub name: String,
    /// Annotations applied to this variant, re-attached verbatim.
    pub attributes: Vec<Attr>,
    /// The discriminant expression, if the source wrote one.
    pub discriminant: Option<DiscExpr>,
    /// The discriminant classification computed by the modeler.
    pub calculated_discriminant: CalculatedDiscriminant,
}

/// The discriminant classification of one variant.
#[derive(Debug)]
pub enum CalculatedDiscriminant {
    /// A discriminant expression written in the source, emitted unmodified.
    Explicit(DiscExpr),
    /// No discriminant was written; the modeler's counter assigned this value.
    Implicit(i128),
}

impl CalculatedDiscriminant {
    /// The token text of this discriminant: the verbatim expression for an
    /// explicit one, the decimal rendering for an implicit one.
    pub open spec fn spec_pattern_tokens(self) -> Seq<char> {
        match self {
            CalculatedDiscriminant::Explicit(e) => e.text@,
            CalculatedDiscriminant::Implicit(v) => spec_int_tokens(v as int),
        }
    }

    /// Renders this discriminant as token text.
    pub fn as_pattern_tokens(&self) -> (r: String)
        ensures
            r@ == self.spec_pattern_tokens(),
    {
        match self {
            CalculatedDiscriminant::Explicit(e) => e.text.clone(),
            CalculatedDiscriminant::Implicit(v) => {
                let mut s = String::new();
                push_i128_tokens(*v, &mut s);
                proof {
                    assert(s@ =~= self.spec_pattern_tokens());
                }
                s
            },
        }
    }
}

} // verus!
