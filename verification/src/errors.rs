use vstd::prelude::*;

verus! {

/// Which of the two operands of a binary expression an error refers to.
#[derive(Clone, Copy, Debug, PartialEq, Eq, Structural)]
pub enum Which {
    First,
    Second,
}

/// Every way an evaluation can fail.  Each failure is terminal and is
/// reported to the caller as the text given by [`CalcError::message`].
#[derive(Clone, Copy, Debug, PartialEq, Eq, Structural)]
pub enum CalcError {
    /// The input is empty after trimming whitespace.
    EmptyInput,
    /// No operator character was found outside an exponent context.
    NoOperator,
    /// An operand does not parse as a decimal or scientific literal.
    InvalidNumber(Which),
    /// An operand parsed to an infinity (it overflowed during parsing).
    NumberOutOfRange(Which),
    /// An operand parsed to a NaN.
    NotANumber,
    /// Division of zero by zero.
    DivisionByZeroIndeterminate,
    /// Division of a positive number by zero.
    ResultOverflowPositive,
    /// Division of a negative number by zero.
    ResultOverflowNegative,
    /// The computed result is infinite.
    ResultOutOfRange,
    /// The operator character is none of `+`, `-`, `*`, `/`.
    InvalidOperator,
}

impl CalcError {
    /// The human-readable text of each error.
    pub open spec fn message_spec(self) -> Seq<char> {
        match self {
            CalcError::EmptyInput => "Empty input"@,
            CalcError::NoOperator => "No operator found"@,
            CalcError::InvalidNumber(Which::First) => "Invalid first number"@,
            CalcError::InvalidNumber(Which::Second) => "Invalid second number"@,
            CalcError::NumberOutOfRange(Which::First) => "First number is too large or too small"@,
            CalcError::NumberOutOfRange(Which::Second) => "Second number is too large or too small"@,
            CalcError::NotANumber => "NaN is not a valid number"@,
            CalcError::DivisionByZeroIndeterminate => "Division by zero"@,
            CalcError::ResultOverflowPositive => "Result is too large (infinity)"@,
            CalcError::ResultOverflowNegative => "Result is too small (negative infinity)"@,
            CalcError::ResultOutOfRange => "Result is too large or too small"@,
            CalcError::InvalidOperator => "Invalid operator"@,
        }
    }

    /// The error as the text shown to the caller.
    pub fn message(&self) -> (r: String)
        ensures
            r@ == self.message_spec(),
    {
        match self {
            CalcError::EmptyInput => "Empty input".to_owned(),
            CalcError::NoOperator => "No operator found".to_owned(),
            CalcError::InvalidNumber(Which::First) => "Invalid first number".to_owned(),
            CalcError::InvalidNumber(Which::Second) => "Invalid second number".to_owned(),
            CalcError::NumberOutOfRange(Which::First) => {
                "First number is too large or too small".to_owned()
            },
            CalcError::NumberOutOfRange(Which::Second) => {
                "Second number is too large or too small".to_owned()
            },
            CalcError::NotANumber => "NaN is not a valid number".to_owned(),
            CalcError::DivisionByZeroIndeterminate => "Division by zero".to_owned(),
            CalcError::ResultOverflowPositive => "Result is too large (infinity)".to_owned(),
            CalcError::ResultOverflowNegative => {
                "Result is too small (negative infinity)".to_owned()
            },
            CalcError::ResultOutOfRange => "Result is too large or too small".to_owned(),
            CalcError::InvalidOperator => "Invalid operator".to_owned(),
        }
    }
}

} // verus!
