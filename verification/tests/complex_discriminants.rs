//! Tests of the generated conversions' semantics for enums whose explicit
//! discriminants mix literals, constants and constant expressions. The model
//! takes the value of each explicit expression, as the host's constant
//! evaluation yields it, and numbers the rest by the host's rule.

use repr_cast::semantics::{as_repr, from_repr, host_discriminants, try_from_repr};

const BASE: i128 = 10;
const OFFSET: i128 = 5;

// enum WithConsts { First, Second = BASE, Third, Fourth = BASE + OFFSET, Fifth }
// with representation u8
fn with_consts_discs() -> Vec<i128> {
    host_discriminants(&vec![None, Some(BASE), None, Some(BASE + OFFSET), None]).unwrap()
}

const FIRST: usize = 0;
const SECOND: usize = 1;
const THIRD: usize = 2;
const FOURTH: usize = 3;
const FIFTH: usize = 4;

// enum MixedExpressions { Zero, One, Ten = 10, Eleven, Hundred = 100, HundredOne }
// with representation u16
fn mixed_discs() -> Vec<i128> {
    host_discriminants(&vec![None, None, Some(10), None, Some(100), None]).unwrap()
}

const ZERO: usize = 0;
const ONE: usize = 1;
const TEN: usize = 2;
const ELEVEN: usize = 3;
const HUNDRED: usize = 4;
const HUNDRED_ONE: usize = 5;

// enum SignedMixed { NegTwo = -2, NegOne, Zero, Five = 5, Six }
// with representation i8
fn signed_mixed_discs() -> Vec<i128> {
    host_discriminants(&vec![Some(-2), None, None, Some(5), None]).unwrap()
}

const NEG_TWO: usize = 0;
const NEG_ONE: usize = 1;
const S_ZERO: usize = 2;
const FIVE: usize = 3;
const SIX: usize = 4;

#[test]
fn test_const_expressions() {
    let d = with_consts_discs();
    assert_eq!(as_repr(&d, FIRST), 0);
    assert_eq!(as_repr(&d, SECOND), BASE);
    assert_eq!(as_repr(&d, THIRD), 11);
    assert_eq!(as_repr(&d, FOURTH), BASE + OFFSET);
    assert_eq!(as_repr(&d, FIFTH), 16);

    assert_eq!(try_from_repr(&d, 0).unwrap(), FIRST);
    assert_eq!(try_from_repr(&d, BASE).unwrap(), SECOND);
    assert_eq!(try_from_repr(&d, 11).unwrap(), THIRD);
    assert_eq!(try_from_repr(&d, BASE + OFFSET).unwrap(), FOURTH);
    assert_eq!(try_from_repr(&d, 16).unwrap(), FIFTH);
}

#[test]
fn test_mixed_simple_expressions() {
    let d = mixed_discs();
    assert_eq!(as_repr(&d, ZERO), 0);
    assert_eq!(as_repr(&d, ONE), 1);
    assert_eq!(as_repr(&d, TEN), 10);
    assert_eq!(as_repr(&d, ELEVEN), 11);
    assert_eq!(as_repr(&d, HUNDRED), 100);
    assert_eq!(as_repr(&d, HUNDRED_ONE), 101);

    assert_eq!(try_from_repr(&d, 0).unwrap(), ZERO);
    assert_eq!(try_from_repr(&d, 1).unwrap(), ONE);
    assert_eq!(try_from_repr(&d, 10).unwrap(), TEN);
    assert_eq!(try_from_repr(&d, 11).unwrap(), ELEVEN);
    assert_eq!(try_from_repr(&d, 100).unwrap(), HUNDRED);
    assert_eq!(try_from_repr(&d, 101).unwrap(), HUNDRED_ONE);

    // gaps do not convert
    assert!(try_from_repr(&d, 2).is_err());
    assert!(try_from_repr(&d, 50).is_err());
}

#[test]
fn test_signed_mixed() {
    let d = signed_mixed_discs();
    assert_eq!(as_repr(&d, NEG_TWO), -2);
    assert_eq!(as_repr(&d, NEG_ONE), -1);
    assert_eq!(as_repr(&d, S_ZERO), 0);
    assert_eq!(as_repr(&d, FIVE), 5);
    assert_eq!(as_repr(&d, SIX), 6);

    assert_eq!(try_from_repr(&d, -2).unwrap(), NEG_TWO);
    assert_eq!(try_from_repr(&d, -1).unwrap(), NEG_ONE);
    assert_eq!(try_from_repr(&d, 0).unwrap(), S_ZERO);
    assert_eq!(try_from_repr(&d, 5).unwrap(), FIVE);
    assert_eq!(try_from_repr(&d, 6).unwrap(), SIX);

    assert!(try_from_repr(&d, 1).is_err());
    assert!(try_from_repr(&d, -3).is_err());
}

#[test]
fn test_round_trip_with_consts() {
    let d = with_consts_discs();
    for value in [0, BASE, 11, BASE + OFFSET, 16] {
        if let Ok(variant) = try_from_repr(&d, value) {
            let round_trip = as_repr(&d, variant);
            assert_eq!(value, round_trip, "Round trip failed for value {}", value);
        }
    }
}

#[test]
fn test_from_repr_with_consts() {
    let d = with_consts_discs();
    assert_eq!(from_repr(&d, 0), Some(FIRST));
    assert_eq!(from_repr(&d, BASE), Some(SECOND));
    assert_eq!(from_repr(&d, 11), Some(THIRD));
    assert_eq!(from_repr(&d, BASE + OFFSET), Some(FOURTH));
    assert_eq!(from_repr(&d, 16), Some(FIFTH));
    assert_eq!(from_repr(&d, 99), None);
}

#[test]
fn test_discriminants_match_rust_behavior() {
    // the host's own numbering of WithConsts, which the generated code
    // defers to by casting the variants themselves
    let d = with_consts_discs();
    assert_eq!(d[FIRST], 0);
    assert_eq!(d[SECOND], 10);
    assert_eq!(d[THIRD], 11);
    assert_eq!(d[FOURTH], 15);
    assert_eq!(d[FIFTH], 16);

    // as_repr matches the native cast
    assert_eq!(as_repr(&d, FIRST), d[FIRST]);
    assert_eq!(as_repr(&d, SECOND), d[SECOND]);
    assert_eq!(as_repr(&d, THIRD), d[THIRD]);
    assert_eq!(as_repr(&d, FOURTH), d[FOURTH]);
    assert_eq!(as_repr(&d, FIFTH), d[FIFTH]);
}

#[test]
fn test_host_discriminants_overflow() {
    // one past the maximum leaves no room for the next implicit value
    assert!(host_discriminants(&vec![Some(i128::MAX), None]).is_none());
    // with no variant after it, the maximum itself is fine
    assert_eq!(host_discriminants(&vec![Some(i128::MAX)]).unwrap(), vec![i128::MAX]);
}
