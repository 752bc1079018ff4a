use vstd::prelude::*;

verus! {

/// The closed taxonomy of structural errors a conversion can report.
///
/// Each variant names exactly one malformed-input condition; the first
/// violation found anywhere in the recursion tree aborts the whole
/// conversion and is handed back unchanged.
#[derive(Clone, Copy, Debug, PartialEq, Eq, Structural)]
pub enum StructuralError {
    /// The conversion produced no output at all (the input was empty, or a
    /// parenthesis group held nothing).
    EmptyResult,
    /// The input ended while a parenthesis group was still open.
    MissingClosingParenthesis,
    /// One or more unary operands were left without a value to apply to.
    MissingRightSideValueUnary,
    /// A binary operand was left without a right-hand value.
    MissingRightSideValueBinary,
    /// A binary operand appeared with nothing valid before it.
    MissingLeftSideValueBinary,
    /// A closing parenthesis appeared outside of any open group.
    UnexpectedClosingParenthesis,
    /// Two binary operands appeared with no value between them.
    SuccessiveTwoBinaryOperands,
    /// Two values appeared with no binary operand between them.
    SuccessiveTwoValues,
}

} // verus!
