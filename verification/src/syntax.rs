//! The plain-data model of the declaration handed to the pipeline.
//!
//! The pipeline never walks the host language's own syntax tree: a thin
//! adapter reduces the annotated declaration to the types of this module
//! (names, attribute tokens and discriminant expressions as plain text),
//! and the verified stages work on those alone.

use vstd::prelude::*;
use crate::text::str_eq;

verus! {

/// The supported representation types: the fixed-width signed and unsigned
/// integer types and the two pointer-sized integer types. The set is closed.
#[derive(Debug, Clone, Copy, PartialEq, Eq, Structural)]
pub enum ReprType {
    U8,
    U16,
    U32,
    U64,
    U128,
    Usize,
    I8,
    I16,
    I32,
    I64,
    I128,
    Isize,
}

impl ReprType {
    /// The identifier that names this representation type.
    pub open spec fn spec_name(self) -> Seq<char> {
        match self {
            ReprType::U8 => "u8"@,
            ReprType::U16 => "u16"@,
            ReprType::U32 => "u32"@,
            ReprType::U64 => "u64"@,
            ReprType::U128 => "u128"@,
            ReprType::Usize => "usize"@,
            ReprType::I8 => "i8"@,
            ReprType::I16 => "i16"@,
            ReprType::I32 => "i32"@,
            ReprType::I64 => "i64"@,
            ReprType::I128 => "i128"@,
            ReprType::Isize => "isize"@,
        }
    }

    /// The identifier that names this representation type.
    pub fn name(&self) -> (r: &'static str)
        ensures
            r@ == self.spec_name(),
    {
        match self {
            ReprType::U8 => "u8",
            ReprType::U16 => "u16",
            ReprType::U32 => "u32",
            ReprType::U64 => "u64",
            ReprType::U128 => "u128",
            ReprType::Usize => "usize",
            ReprType::I8 => "i8",
            ReprType::I16 => "i16",
            ReprType::I32 => "i32",
            ReprType::I64 => "i64",
            ReprType::I128 => "i128",
            ReprType::Isize => "isize",
        }
    }

    /// The representation type named by `s`, if any.
    pub open spec fn spec_of_name(s: Seq<char>) -> Option<ReprType> {
        if s == "u8"@ {
            Some(ReprType::U8)
        } else if s == "u16"@ {
            Some(ReprType::U16)
        } else if s == "u32"@ {
            Some(ReprType::U32)
        } else if s == "u64"@ {
            Some(ReprType::U64)
        } else if s == "u128"@ {
            Some(ReprType::U128)
        } else if s == "usize"@ {
            Some(ReprType::Usize)
        } else if s == "i8"@ {
            Some(ReprType::I8)
        } else if s == "i16"@ {
            Some(ReprType::I16)
        } else if s == "i32"@ {
            Some(ReprType::I32)
        } else if s == "i64"@ {
            Some(ReprType::I64)
        } else if s == "i128"@ {
            Some(ReprType::I128)
        } else if s == "isize"@ {
            Some(ReprType::Isize)
        } else {
            None
        }
    }

    /// Parses a representation-type identifier.
    pub fn from_name(s: &str) -> (r: Option<ReprType>)
        ensures
            r == Self::spec_of_name(s@),
    {
        if str_eq(s, "u8") {
            Some(ReprType::U8)
        } else if str_eq(s, "u16") {
            Some(ReprType::U16)
        } else if str_eq(s, "u32") {
            Some(ReprType::U32)
        } else if str_eq(s, "u64") {
            Some(ReprType::U64)
        } else if str_eq(s, "u128") {
            Some(ReprType::U128)
        } else if str_eq(s, "usize") {
            Some(ReprType::Usize)
        } else if str_eq(s, "i8") {
            Some(ReprType::I8)
        } else if str_eq(s, "i16") {
            Some(ReprType::I16)
        } else if str_eq(s, "i32") {
            Some(ReprType::I32)
        } else if str_eq(s, "i64") {
            Some(ReprType::I64)
        } else if str_eq(s, "i128") {
            Some(ReprType::I128)
        } else if str_eq(s, "isize") {
            Some(ReprType::Isize)
        } else {
            None
        }
    }
}

/// One annotation on the declaration or on a variant.
///
/// `path` is the annotation's path; `list_args` holds the argument tokens of a
/// list-style annotation such as `# [repr (u8)]`, one token per entry, and is
/// `None` for any other shape; `text` is the annotation's verbatim token text,
/// re-emitted unchanged for annotations that pass through.
#[derive(Debug)]
pub struct Attr {
    pub path: String,
    pub list_args: Option<Vec<String>>,
    pub text: String,
}

/// A discriminant expression as written in the source: its verbatim token
/// text, for re-emission, and its shape, for best-effort evaluation.
#[derive(Debug)]
pub struct DiscExpr {
    pub text: String,
    pub shape: ExprShape,
}

/// The shape of a discriminant expression, as far as evaluation reads it: a
/// bare integer literal (carried as its base-10 digits), a unary negation, or
/// anything else.
#[derive(Debug)]
pub enum ExprShape {
    IntLit(String),
    Neg(Box<ExprShape>),
    Opaque,
}

impl Clone for ExprShape {
    fn clone(&self) -> (r: Self)
        ensures
            r == self,
        decreases *self,
    {
        match self {
            ExprShape::IntLit(digits) => ExprShape::IntLit(digits.clone()),
            ExprShape::Neg(inner) => ExprShape::Neg(Box::new((**inner).clone())),
            ExprShape::Opaque => ExprShape::Opaque,
        }
    }
}

impl Clone for DiscExpr {
    fn clone(&self) -> (r: Self)
        ensures
            r == self,
    {
        DiscExpr { text: self.text.clone(), shape: self.shape.clone() }
    }
}

/// The generic parameters of the declaration, pre-split for emission. The
/// pipeline passes them through without generic-aware logic; for a
/// declaration without generics all three are empty.
#[derive(Debug)]
pub struct Generics {
    pub impl_text: String,
    pub type_text: String,
    pub where_text: String,
}

/// One variant of the declared enum.
#[derive(Debug)]
pub struct DeclVariant {
    pub name: String,
    pub attrs: Vec<Attr>,
    pub is_unit: bool,
    pub discriminant: Option<DiscExpr>,
}

/// The body of the declaration: an enum's variant list, or some other kind of
/// item.
#[derive(Debug)]
pub enum DeclBody {
    Enum(Vec<DeclVariant>),
    Other,
}

/// The annotated declaration, reduced to plain values.
#[derive(Debug)]
pub struct Decl {
    pub name: String,
    pub vis: String,
    pub attrs: Vec<Attr>,
    pub generics: Generics,
    pub body: DeclBody,
}

/// The pipeline's failure kinds. Each aborts the whole pipeline; nothing is
/// emitted.
#[derive(Debug, Clone, Copy, PartialEq, Eq, Structural)]
pub enum ParseError {
    /// No argument was given and the declaration carries no representation
    /// annotation to fall back on.
    MissingReprType,
    /// Argument tokens were present but do not form a single supported
    /// representation-type identifier.
    MalformedArgument,
    /// The annotated declaration is not an enum.
    NotAnEnum,
    /// Some variant of the enum carries data fields.
    HasFields,
}

impl ParseError {
    /// The user-facing diagnostic text of this failure.
    pub fn message(&self) -> (r: &'static str)
        ensures
            r@ == self.spec_message(),
    {
        match self {
            ParseError::MissingReprType => "repr_cast requires either an argument like #[repr_cast(i32)] or an existing #[repr(i32)] attribute",
            ParseError::MalformedArgument => "expected a single integer type identifier, like #[repr_cast(i32)]",
            ParseError::NotAnEnum => "repr_cast can only be applied to enums",
            ParseError::HasFields => "repr_cast can only be applied to fieldless enums (enums with unit variants)",
        }
    }

    /// The user-facing diagnostic text of this failure.
    pub open spec fn spec_message(self) -> Seq<char> {
        match self {
            ParseError::MissingReprType => "repr_cast requires either an argument like #[repr_cast(i32)] or an existing #[repr(i32)] attribute"@,
            ParseError::MalformedArgument => "expected a single integer type identifier, like #[repr_cast(i32)]"@,
            ParseError::NotAnEnum => "repr_cast can only be applied to enums"@,
            ParseError::HasFields => "repr_cast can only be applied to fieldless enums (enums with unit variants)"@,
        }
    }
}

} // verus!
