//! The semantics of the generated conversions, stated and proved over a model
//! of the host's discriminant numbering.
//!
//! The emitted `from_repr` compares its argument against the host's own cast
//! of each variant, in declaration order, and the emitted `as_repr` is that
//! cast itself. This module models those two functions over the sequence of
//! host discriminants, proves the round-trip and rejection laws, and ties the
//! modeler's implicit numbering to the host's rule.

use vstd::prelude::*;
use crate::parse::{spec_counter, spec_eval};
use crate::syntax::DeclVariant;
use crate::text::{push_i128_plain, spec_int_plain};

verus! {

/// The host's discriminant of variant `i`, given each variant's explicit
/// value where the source wrote an expression (`None` for a variant without
/// one): the explicit value where given, `0` at the head, and one past the
/// previous variant's discriminant everywhere else.
pub open spec fn spec_host_disc(given: Seq<Option<i128>>, i: int) -> int
    decreases i,
{
    if 0 <= i < given.len() {
        match given[i] {
            Some(v) => v as int,
            None => if i == 0 {
                0
            } else {
                spec_host_disc(given, i - 1) + 1
            },
        }
    } else {
        0
    }
}

/// The machine limit on the host numbering model: every discriminant must fit
/// the signed 128-bit range. Only the upper bound can fail, since implicit
/// numbering only counts upward.
pub open spec fn spec_host_fits(given: Seq<Option<i128>>) -> bool {
    forall|i: int| 0 <= i < given.len() ==> spec_host_disc(given, i) <= i128::MAX
}

/// Computes the host's discriminant of every variant, from each explicit
/// value. Fails exactly when some discriminant would exceed the signed
/// 128-bit maximum.
pub fn host_discriminants(given: &Vec<Option<i128>>) -> (r: Option<Vec<i128>>)
    ensures
        match r {
            Some(ds) => {
                &&& spec_host_fits(given@)
                &&& ds@.len() == given@.len()
                &&& forall|i: int|
                    0 <= i < ds@.len() ==> (#[trigger] ds@[i]) as int == spec_host_disc(given@, i)
            },
            None => !spec_host_fits(given@),
        },
{
    let n = given.len();
    let mut ds: Vec<i128> = Vec::new();
    let mut prev: i128 = 0;
    let mut i: usize = 0;
    while i < n
        invariant
            0 <= i <= n,
            n == given@.len(),
            ds@.len() == i,
            forall|j: int| 0 <= j < i ==> (#[trigger] ds@[j]) as int == spec_host_disc(given@, j),
            i > 0 ==> prev as int == spec_host_disc(given@, i - 1),
        decreases n - i,
    {
        let d: i128 = match &given[i] {
            Some(v) => *v,
            None => {
                if i == 0 {
                    0
                } else {
                    if prev == i128::MAX {
                        proof {
                            assert(spec_host_disc(given@, i as int) > i128::MAX);
                        }
                        return None;
                    }
                    prev + 1
                }
            },
        };
        proof {
            assert(d as int == spec_host_disc(given@, i as int));
        }
        ds.push(d);
        prev = d;
        i += 1;
    }
    proof {
        assert forall|j: int| 0 <= j < given@.len() implies spec_host_disc(given@, j)
            <= i128::MAX by {
            assert(ds@[j] as int == spec_host_disc(given@, j));
        }
    }
    Some(ds)
}

/// The result of the generated fallible conversion: the index of the first
/// variant whose host discriminant equals `value`, if any.
pub open spec fn spec_from_repr(discs: Seq<i128>, value: i128) -> Option<int>
    decreases discs.len(),
{
    if discs.len() == 0 {
        None
    } else if discs[0] == value {
        Some(0)
    } else {
        match spec_from_repr(discs.drop_first(), value) {
            Some(k) => Some(k + 1),
            None => None,
        }
    }
}

/// What the fallible conversion's result means: a found index is the first
/// match, and no result means no variant matches. In particular every integer
/// input yields at most one variant.
pub proof fn lemma_from_repr_characterization(discs: Seq<i128>, value: i128)
    ensures
        match spec_from_repr(discs, value) {
            Some(k) => {
                &&& 0 <= k < discs.len()
                &&& discs[k] == value
                &&& forall|j: int| 0 <= j < k ==> discs[j] != value
            },
            None => forall|j: int| 0 <= j < discs.len() ==> discs[j] != value,
        },
    decreases discs.len(),
{
    if discs.len() > 0 && discs[0] != value {
        lemma_from_repr_characterization(discs.drop_first(), value);
        match spec_from_repr(discs, value) {
            Some(k) => {
                assert(discs[k] == discs.drop_first()[k - 1]);
                assert forall|j: int| 0 <= j < k implies discs[j] != value by {
                    if j > 0 {
                        assert(discs.drop_first()[j - 1] != value);
                    }
                }
            },
            None => {
                assert forall|j: int| 0 <= j < discs.len() implies discs[j] != value by {
                    if j > 0 {
                        assert(discs.drop_first()[j - 1] != value);
                    }
                }
            },
        }
    }
}

/// The converse: an index whose discriminant matches, with no earlier match,
/// is exactly what the conversion returns.
pub proof fn lemma_from_repr_complete(discs: Seq<i128>, value: i128, k: int)
    requires
        0 <= k < discs.len(),
        discs[k] == value,
        forall|j: int| 0 <= j < k ==> discs[j] != value,
    ensures
        spec_from_repr(discs, value) == Some(k),
    decreases discs.len(),
{
    if k > 0 {
        assert(discs[0] != value);
        assert(forall|j: int| 0 <= j < discs.drop_first().len() ==> discs.drop_first()[j] == discs[
            j + 1
        ]);
        lemma_from_repr_complete(discs.drop_first(), value, k - 1);
    }
}

/// The model of the generated `from_repr`: tests the variants in declaration
/// order against the host's cast and returns the first match.
pub fn from_repr(discs: &Vec<i128>, value: i128) -> (r: Option<usize>)
    ensures
        match r {
            Some(k) => spec_from_repr(discs@, value) == Some(k as int),
            None => spec_from_repr(discs@, value) is None,
        },
{
    let n = discs.len();
    let mut i: usize = 0;
    while i < n
        invariant
            0 <= i <= n,
            n == discs@.len(),
            forall|j: int| 0 <= j < i ==> discs@[j] != value,
        decreases n - i,
    {
        if discs[i] == value {
            proof {
                lemma_from_repr_complete(discs@, value, i as int);
            }
            return Some(i);
        }
        i += 1;
    }
    proof {
        lemma_from_repr_characterization(discs@, value);
        match spec_from_repr(discs@, value) {
            Some(k) => {
                assert(discs@[k] == value);
            },
            None => {},
        }
    }
    None
}

/// The model of the generated `as_repr`: the host's own discriminant of the
/// variant, total over the enum's variants.
pub fn as_repr(discs: &Vec<i128>, variant: usize) -> (r: i128)
    requires
        variant < discs@.len(),
    ensures
        r == discs@[variant as int],
{
    discs[variant]
}

/// The conversion error of the generated fallible conversion, holding exactly
/// the rejected value as public data.
#[derive(Debug, Clone, Copy, PartialEq, Eq, Hash, Structural)]
pub struct ConversionError(pub i128);

/// The model of the generated `TryFrom` conversion: the matching variant, or
/// the conversion error carrying the rejected value.
pub fn try_from_repr(discs: &Vec<i128>, value: i128) -> (r: Result<usize, ConversionError>)
    ensures
        match r {
            Ok(k) => spec_from_repr(discs@, value) == Some(k as int),
            Err(e) => spec_from_repr(discs@, value) is None && e == ConversionError(value),
        },
{
    match from_repr(discs, value) {
        Some(k) => Ok(k),
        None => Err(ConversionError(value)),
    }
}

/// The human-readable message of the conversion error.
pub open spec fn spec_conversion_error_message(name: Seq<char>, value: int) -> Seq<char> {
    "unknown "@ + name + " variant: "@ + spec_int_plain(value)
}

/// Renders the conversion error's message, as the generated error type's
/// formatting writes it.
pub fn conversion_error_message(enum_name: &str, err: &ConversionError) -> (r: String)
    ensures
        r@ == spec_conversion_error_message(enum_name@, err.0 as int),
{
    let mut out = String::new();
    out.append("unknown ");
    out.append(enum_name);
    out.append(" variant: ");
    push_i128_plain(err.0, &mut out);
    proof {
        assert(out@ =~= spec_conversion_error_message(enum_name@, err.0 as int));
    }
    out
}

/// Round trip: in an enum whose host discriminants are pairwise distinct —
/// which the host itself enforces — converting any variant to its integer and
/// back yields that same variant.
pub proof fn lemma_round_trip(discs: Seq<i128>, k: int)
    requires
        0 <= k < discs.len(),
        forall|i: int, j: int| 0 <= i < j < discs.len() ==> discs[i] != discs[j],
    ensures
        spec_from_repr(discs, discs[k]) == Some(k),
{
    assert forall|j: int| 0 <= j < k implies discs[j] != discs[k] by {
        assert(discs[j] != discs[k]);
    }
    lemma_from_repr_complete(discs, discs[k], k);
}

/// Rejection: an integer that equals no variant's discriminant converts to no
/// variant, and the fallible conversion fails with the error carrying it.
pub proof fn lemma_rejection(discs: Seq<i128>, x: i128)
    requires
        forall|j: int| 0 <= j < discs.len() ==> discs[j] != x,
    ensures
        spec_from_repr(discs, x) is None,
{
    lemma_from_repr_characterization(discs, x);
    match spec_from_repr(discs, x) {
        Some(k) => {
            assert(discs[k] == x);
        },
        None => {},
    }
}

/// The modeler's implicit values match the host's numbering wherever
/// evaluation succeeded on every earlier explicit expression: the re-declared
/// enum may then rely on the host's own rule without a literal substituted
/// for any implicit variant.
pub proof fn lemma_implicit_matches_host(vs: Seq<DeclVariant>, given: Seq<Option<i128>>, i: int)
    requires
        given.len() == vs.len(),
        0 <= i < vs.len(),
        forall|j: int|
            0 <= j <= i ==> ((#[trigger] vs[j]).discriminant is Some <==> given[j] is Some),
        forall|j: int|
            0 <= j <= i ==> ((#[trigger] vs[j]).discriminant matches Some(e) ==> (given[j]
                matches Some(g) && spec_eval(e.shape) == Some(g as int))),
        vs[i].discriminant is None,
    ensures
        spec_counter(vs, i) == spec_host_disc(given, i),
    decreases i,
{
    assert(vs[i].discriminant is None);
    assert(given[i] is None);
    if i > 0 {
        match vs[i - 1].discriminant {
            Some(e) => {
                assert(given[i - 1] is Some && spec_eval(e.shape) == Some(
                    match given[i - 1] {
                        Some(g) => g as int,
                        None => 0,
                    },
                ));
                match given[i - 1] {
                    Some(g) => {
                        assert(spec_counter(vs, i) == g + 1);
                        assert(spec_host_disc(given, i - 1) == g as int);
                        assert(spec_host_disc(given, i) == g + 1);
                    },
                    None => {
                        assert(false);
                    },
                }
            },
            None => {
                assert(given[i - 1] is None);
                lemma_implicit_matches_host(vs, given, i - 1);
            },
        }
    } else {
        assert(spec_counter(vs, 0) == 0);
        assert(spec_host_disc(given, 0) == 0);
    }
}

} // verus!
