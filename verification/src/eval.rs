//! The decisions of the evaluator, on operand bit patterns.
//!
//! After the input is split (see [`crate::scan`]) the caller parses each
//! operand substring to a binary64 value and hands the outcomes in: `None`
//! for a parse failure, otherwise the value's bit pattern.  The functions
//! here decide every acceptance and every error of the evaluation.  The
//! arithmetic itself happens at the caller, between [`plan_operation`] and
//! [`finish_result`]; whatever bit pattern it produced is passed through
//! unchanged, save for the two final rules (infinity, precision clamp).

use vstd::prelude::*;

use crate::bits::abs_bits;
use crate::bits::abs_bits_of;
use crate::bits::infinite_bits;
use crate::bits::is_infinite_bits;
use crate::bits::is_nan_bits;
use crate::bits::is_sign_negative_bits;
use crate::bits::is_zero_bits;
use crate::bits::nan_bits;
use crate::bits::sign_negative_bits;
use crate::bits::zero_bits;
use crate::errors::CalcError;
use crate::errors::Which;
use crate::scan::lemma_scan_finds_operator;
use crate::scan::scan_start;
use crate::scan::split_spec;
use crate::scan::trim_spec;

verus! {

/// The four operations the evaluator supports.
#[derive(Clone, Copy, Debug, PartialEq, Eq, Structural)]
pub enum Op {
    Add,
    Sub,
    Mul,
    Div,
}

/// Which operation an operator character denotes.
pub open spec fn op_of_char_spec(c: char) -> Result<Op, CalcError> {
    if c == '+' {
        Ok(Op::Add)
    } else if c == '-' {
        Ok(Op::Sub)
    } else if c == '*' {
        Ok(Op::Mul)
    } else if c == '/' {
        Ok(Op::Div)
    } else {
        Err(CalcError::InvalidOperator)
    }
}

/// Maps an operator character to its operation, exactly as
/// [`op_of_char_spec`] describes.
pub fn op_of_char(c: char) -> (r: Result<Op, CalcError>)
    ensures
        r == op_of_char_spec(c),
{
    if c == '+' {
        Ok(Op::Add)
    } else if c == '-' {
        Ok(Op::Sub)
    } else if c == '*' {
        Ok(Op::Mul)
    } else if c == '/' {
        Ok(Op::Div)
    } else {
        Err(CalcError::InvalidOperator)
    }
}

/// How the parsed operands are admitted: a parse failure or an infinite
/// value is reported for the first operand, then for the second; a NaN in
/// either place is reported last; two finite, non-NaN values are accepted.
pub open spec fn check_operands_spec(first: Option<u64>, second: Option<u64>) -> Result<
    (u64, u64),
    CalcError,
> {
    match first {
        None => Err(CalcError::InvalidNumber(Which::First)),
        Some(a) => if is_infinite_bits(a) {
            Err(CalcError::NumberOutOfRange(Which::First))
        } else {
            match second {
                None => Err(CalcError::InvalidNumber(Which::Second)),
                Some(b) => if is_infinite_bits(b) {
                    Err(CalcError::NumberOutOfRange(Which::Second))
                } else if is_nan_bits(a) || is_nan_bits(b) {
                    Err(CalcError::NotANumber)
                } else {
                    Ok((a, b))
                },
            }
        },
    }
}

/// Admits or rejects the two parse outcomes, exactly as
/// [`check_operands_spec`] describes.
pub fn check_operands(first: Option<u64>, second: Option<u64>) -> (r: Result<
    (u64, u64),
    CalcError,
>)
    ensures
        r == check_operands_spec(first, second),
{
    match first {
        None => Err(CalcError::InvalidNumber(Which::First)),
        Some(a) => {
            if infinite_bits(a) {
                Err(CalcError::NumberOutOfRange(Which::First))
            } else {
                match second {
                    None => Err(CalcError::InvalidNumber(Which::Second)),
                    Some(b) => {
                        if infinite_bits(b) {
                            Err(CalcError::NumberOutOfRange(Which::Second))
                        } else if nan_bits(a) || nan_bits(b) {
                            Err(CalcError::NotANumber)
                        } else {
                            Ok((a, b))
                        }
                    },
                }
            }
        },
    }
}

/// Whether the operation may go ahead.  Only a division by zero is refused,
/// with the error that names the dividend's sign: zero, positive, negative.
pub open spec fn plan_operation_spec(op: Op, a: u64, b: u64) -> Result<(), CalcError> {
    if op == Op::Div && is_zero_bits(b) {
        if is_zero_bits(a) {
            Err(CalcError::DivisionByZeroIndeterminate)
        } else if !is_sign_negative_bits(a) {
            Err(CalcError::ResultOverflowPositive)
        } else {
            Err(CalcError::ResultOverflowNegative)
        }
    } else {
        Ok(())
    }
}

/// Decides division by zero, exactly as [`plan_operation_spec`] describes.
/// `a` and `b` are the bit patterns of the dividend and the divisor.
pub fn plan_operation(op: Op, a: u64, b: u64) -> (r: Result<(), CalcError>)
    ensures
        r == plan_operation_spec(op, a, b),
{
    match op {
        Op::Div => {
            if zero_bits(b) {
                if zero_bits(a) {
                    Err(CalcError::DivisionByZeroIndeterminate)
                } else if !sign_negative_bits(a) {
                    Err(CalcError::ResultOverflowPositive)
                } else {
                    Err(CalcError::ResultOverflowNegative)
                }
            } else {
                Ok(())
            }
        },
        _ => Ok(()),
    }
}

/// The bit pattern of `1.0e-14`, the value the precision clamp snaps to.
pub const SNAP_VALUE_BITS: u64 = 0x3D06_849B_86A1_2B9B;

/// The bit pattern of machine epsilon, `2^-52`, the clamp's window width.
pub const EPSILON_BITS: u64 = 0x3CB0_0000_0000_0000;

/// Whether the precision clamp fires.  `diff` is the bit pattern of
/// `result - 1.0e-14`; for any value that is not NaN, comparing the
/// sign-cleared bit pattern against `EPSILON_BITS` as integers is the
/// IEEE-754 comparison `|diff| < epsilon` (bit patterns of non-negative
/// binary64 values are ordered as their values are), and a NaN difference
/// compares as not-below on both sides.
pub open spec fn snaps_spec(diff: u64) -> bool {
    abs_bits(diff) < EPSILON_BITS
}

/// What the evaluator returns once the arithmetic has produced `result`:
/// an infinite result is out of range; a result within the clamp window is
/// replaced by the clamp constant; any other result stands as it is.
pub open spec fn finish_spec(result: u64, diff: u64) -> Result<u64, CalcError> {
    if is_infinite_bits(result) {
        Err(CalcError::ResultOutOfRange)
    } else if snaps_spec(diff) {
        Ok(SNAP_VALUE_BITS)
    } else {
        Ok(result)
    }
}

/// Applies the two final rules to the arithmetic result, exactly as
/// [`finish_spec`] describes.  `diff` is the bit pattern of
/// `result - 1.0e-14`, computed by the caller.
pub fn finish_result(result: u64, diff: u64) -> (r: Result<u64, CalcError>)
    ensures
        r == finish_spec(result, diff),
{
    if infinite_bits(result) {
        Err(CalcError::ResultOutOfRange)
    } else if abs_bits_of(diff) < EPSILON_BITS {
        Ok(SNAP_VALUE_BITS)
    } else {
        Ok(result)
    }
}

/// Law: the operator character that splitting reports always denotes one
/// of the four operations, so mapping it can never fail.
pub proof fn lemma_split_operator_is_valid(input: Seq<char>)
    ensures
        split_spec(input) matches Ok(parts) ==> op_of_char_spec(parts.1) is Ok,
{
    let t = trim_spec(input);
    lemma_scan_finds_operator(t, scan_start(t), false);
}

/// Law: for operands that parsed to finite, non-NaN values, with a divisor
/// that is not zero when dividing, the evaluator admits the operands and
/// the operation, and returns the arithmetic result unchanged — except an
/// infinite result, which it rejects as out of range.  The last premise
/// excludes the precision-clamp window, where the result is replaced by
/// the clamp constant instead.
pub proof fn lemma_evaluator_passes_result_through(a: u64, b: u64, op: Op, result: u64, diff: u64)
    requires
        !is_infinite_bits(a),
        !is_nan_bits(a),
        !is_infinite_bits(b),
        !is_nan_bits(b),
        op == Op::Div ==> !is_zero_bits(b),
        !snaps_spec(diff),
    ensures
        check_operands_spec(Some(a), Some(b)) == Ok::<(u64, u64), CalcError>((a, b)),
        plan_operation_spec(op, a, b) == Ok::<(), CalcError>(()),
        !is_infinite_bits(result) ==> finish_spec(result, diff) == Ok::<u64, CalcError>(result),
        is_infinite_bits(result) ==> finish_spec(result, diff) == Err::<u64, CalcError>(
            CalcError::ResultOutOfRange,
        ),
{
}

} // verus!
