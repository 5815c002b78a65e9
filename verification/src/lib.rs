//! A verified evaluator for single-operation arithmetic expressions.
//!
//! The library tokenizes an input string into two operands and one operator,
//! decides every error case of the evaluation (empty input, missing operator,
//! unparsable or out-of-range operands, NaN operands, division by zero, an
//! infinite result), and applies the final precision clamp.  Operand values
//! are carried as IEEE-754 binary64 bit patterns (`u64`), so every decision
//! the evaluator makes is verified; only the floating-point parsing and
//! arithmetic themselves are performed by the caller, which hands the
//! resulting bit patterns back between the stages:
//!
//! 1. [`split_expression`] trims the input and splits it at the operator;
//! 2. the caller parses each operand substring to a binary64 value;
//! 3. [`check_operands`] admits or rejects the two parse outcomes;
//! 4. [`op_of_char`] and [`plan_operation`] decide the operation, refusing
//!    a division by zero;
//! 5. the caller performs the arithmetic;
//! 6. [`finish_result`] rejects an infinite result and applies the
//!    precision clamp.

mod bits;
mod errors;
mod eval;
mod gui;
mod scan;

pub use bits::ABS_MASK;
pub use bits::EXPONENT_MASK;
pub use bits::abs_bits;
pub use bits::abs_bits_of;
pub use bits::infinite_bits;
pub use bits::is_infinite_bits;
pub use bits::is_nan_bits;
pub use bits::is_sign_negative_bits;
pub use bits::is_zero_bits;
pub use bits::nan_bits;
pub use bits::sign_negative_bits;
pub use bits::zero_bits;
pub use errors::CalcError;
pub use errors::Which;
pub use eval::EPSILON_BITS;
pub use eval::Op;
pub use eval::SNAP_VALUE_BITS;
pub use eval::check_operands;
pub use eval::check_operands_spec;
pub use eval::finish_result;
pub use eval::finish_spec;
pub use eval::lemma_evaluator_passes_result_through;
pub use eval::lemma_split_operator_is_valid;
pub use eval::op_of_char;
pub use eval::op_of_char_spec;
pub use eval::plan_operation;
pub use eval::plan_operation_spec;
pub use eval::snaps_spec;
pub use gui::CalculatorApp;
pub use scan::SplitParts;
pub use scan::find_operator;
pub use scan::lemma_spacing_around_operator_is_immaterial;
pub use scan::find_operator_spec;
pub use scan::split_expression;
pub use scan::split_spec;
pub use scan::trim_spec;
pub use scan::trim_str;
