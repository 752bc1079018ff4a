use crate::error::StructuralError;
use vstd::prelude::*;

verus! {

/// The role a registered symbol plays during conversion. A symbol that is
/// registered under no role at all is treated as a plain value.
#[derive(Clone, Copy, Debug, PartialEq, Eq, Structural)]
pub enum Role {
    OpenParenthesis,
    ClosingParenthesis,
    UnaryOperand,
    BinaryOperand,
}

/// Mathematical model of a converter: the four sets of registered symbols,
/// kept in registration order.
pub struct SymbolTable<T> {
    pub open_parenthesis: Seq<T>,
    pub closing_parenthesis: Seq<T>,
    pub unary_operands: Seq<T>,
    pub binary_operands: Seq<T>,
}

impl<T> SymbolTable<T> {
    /// Every registered symbol, across all four roles.
    pub open spec fn registered(self) -> Seq<T> {
        self.open_parenthesis + self.closing_parenthesis + self.unary_operands
            + self.binary_operands
    }

    /// A symbol may be registered at most once: registering one twice, in
    /// the same role or across roles, is a setup-time contract violation.
    pub open spec fn wf(self) -> bool {
        forall|i: int, j: int|
            0 <= i < j < self.registered().len() ==> self.registered()[i] != self.registered()[j]
    }

    /// The role of a symbol, or `None` for a plain value.
    pub open spec fn classify(self, symbol: T) -> Option<Role> {
        if self.open_parenthesis.contains(symbol) {
            Some(Role::OpenParenthesis)
        } else if self.closing_parenthesis.contains(symbol) {
            Some(Role::ClosingParenthesis)
        } else if self.unary_operands.contains(symbol) {
            Some(Role::UnaryOperand)
        } else if self.binary_operands.contains(symbol) {
            Some(Role::BinaryOperand)
        } else {
            None
        }
    }
}

/// Mathematical model of one recursion level's accumulator.
#[verifier::ext_equal]
pub struct ProcessState<T> {
    /// The postfix output built so far; grows monotonically.
    pub result: Seq<T>,
    /// Zero or one pending operand: a value token, or the whole output of a
    /// fully reduced parenthesized sub-expression.
    pub processed_value: Seq<T>,
    /// Zero or one binary operand waiting for its right operand.
    pub processed_binary_operand: Option<T>,
    /// Unary operands read since the last reduction, in encounter order.
    pub processed_unary_operands: Seq<T>,
    /// Whether this level must still see its matching closing parenthesis.
    pub closing_parenthesis_expected: bool,
}

/// The accumulator a recursion level starts from.
pub open spec fn initial_state<T>(closing_parenthesis_expected: bool) -> ProcessState<T> {
    ProcessState {
        result: Seq::empty(),
        processed_value: Seq::empty(),
        processed_binary_operand: None,
        processed_unary_operands: Seq::empty(),
        closing_parenthesis_expected,
    }
}

/// The reduction rule applied after each dispatched token: complete a
/// pending binary expression or move the first value into the output, and
/// report the structural errors that only the accumulator shape can show.
pub open spec fn reduce<T>(s: ProcessState<T>) -> Result<ProcessState<T>, StructuralError> {
    if s.result.len() > 0 && s.processed_binary_operand is Some && s.processed_value.len() > 0 {
        // A full binary expression: value, its unary chain, then the operand.
        Ok(
            ProcessState {
                result: (s.result + s.processed_value + s.processed_unary_operands).push(
                    s.processed_binary_operand->0,
                ),
                processed_value: Seq::empty(),
                processed_binary_operand: None,
                processed_unary_operands: Seq::empty(),
                closing_parenthesis_expected: s.closing_parenthesis_expected,
            },
        )
    } else if s.result.len() == 0 && s.processed_binary_operand is None && s.processed_value.len()
        > 0 {
        // The first value of this level's expression.
        Ok(
            ProcessState {
                result: s.processed_value + s.processed_unary_operands,
                processed_value: Seq::empty(),
                processed_binary_operand: None,
                processed_unary_operands: Seq::empty(),
                closing_parenthesis_expected: s.closing_parenthesis_expected,
            },
        )
    } else if s.result.len() > 0 && s.processed_binary_operand is None && s.processed_value.len()
        > 0 {
        Err(StructuralError::SuccessiveTwoValues)
    } else if s.result.len() == 0 && s.processed_binary_operand is Some {
        Err(StructuralError::MissingLeftSideValueBinary)
    } else {
        Ok(s)
    }
}

/// The integrity check run once when a level's loop ends, by queue
/// exhaustion or by a matched closing parenthesis.
pub open spec fn finalize<T>(s: ProcessState<T>) -> Result<Seq<T>, StructuralError> {
    if s.result.len() == 0 {
        Err(StructuralError::EmptyResult)
    } else if s.closing_parenthesis_expected {
        Err(StructuralError::MissingClosingParenthesis)
    } else if s.processed_unary_operands.len() > 0 {
        Err(StructuralError::MissingRightSideValueUnary)
    } else if s.processed_binary_operand is Some {
        Err(StructuralError::MissingRightSideValueBinary)
    } else {
        Ok(s.result)
    }
}

/// One level's token loop: dispatch each token by role, reduce after every
/// token that keeps the loop going, and stop on exhaustion or on this
/// level's matching closing parenthesis. Returns the final accumulator and
/// the tokens the level did not consume.
///
/// An open parenthesis descends into `process_level` on the remaining
/// tokens; that call consumes up to and including the matching closing
/// parenthesis, so it always hands back fewer tokens than it was given. The
/// guard on the returned length records that fact for the recursion; the
/// branch where it fails is never reached.
pub open spec fn run_level<T>(
    table: SymbolTable<T>,
    tokens: Seq<T>,
    s: ProcessState<T>,
) -> Result<(ProcessState<T>, Seq<T>), StructuralError>
    decreases tokens.len(), 0int,
{
    if tokens.len() == 0 {
        Ok((s, tokens))
    } else {
        let head = tokens[0];
        let tail = tokens.skip(1);
        match table.classify(head) {
            Some(Role::OpenParenthesis) => match process_level(table, tail, true) {
                Err(e) => Err(e),
                Ok((sub_result, rest)) => {
                    if rest.len() < tokens.len() {
                        let with_sub = ProcessState {
                            result: s.result,
                            processed_value: sub_result,
                            processed_binary_operand: s.processed_binary_operand,
                            processed_unary_operands: s.processed_unary_operands,
                            closing_parenthesis_expected: s.closing_parenthesis_expected,
                        };
                        match reduce(with_sub) {
                            Err(e) => Err(e),
                            Ok(s2) => run_level(table, rest, s2),
                        }
                    } else {
                        arbitrary()
                    }
                },
            },
            Some(Role::ClosingParenthesis) => {
                if !s.closing_parenthesis_expected {
                    Err(StructuralError::UnexpectedClosingParenthesis)
                } else {
                    let closed = ProcessState {
                        result: s.result,
                        processed_value: s.processed_value,
                        processed_binary_operand: s.processed_binary_operand,
                        processed_unary_operands: s.processed_unary_operands,
                        closing_parenthesis_expected: false,
                    };
                    Ok((closed, tail))
                }
            },
            Some(Role::UnaryOperand) => {
                let with_unary = ProcessState {
                    result: s.result,
                    processed_value: s.processed_value,
                    processed_binary_operand: s.processed_binary_operand,
                    processed_unary_operands: s.processed_unary_operands.push(head),
                    closing_parenthesis_expected: s.closing_parenthesis_expected,
                };
                match reduce(with_unary) {
                    Err(e) => Err(e),
                    Ok(s2) => run_level(table, tail, s2),
                }
            },
            Some(Role::BinaryOperand) => {
                if s.processed_binary_operand is Some {
                    Err(StructuralError::SuccessiveTwoBinaryOperands)
                } else {
                    let with_binary = ProcessState {
                        result: s.result,
                        processed_value: s.processed_value,
                        processed_binary_operand: Some(head),
                        processed_unary_operands: s.processed_unary_operands,
                        closing_parenthesis_expected: s.closing_parenthesis_expected,
                    };
                    match reduce(with_binary) {
                        Err(e) => Err(e),
                        Ok(s2) => run_level(table, tail, s2),
                    }
                }
            },
            None => {
                if s.processed_value.len() > 0 {
                    Err(StructuralError::SuccessiveTwoValues)
                } else {
                    let with_value = ProcessState {
                        result: s.result,
                        processed_value: s.processed_value.push(head),
                        processed_binary_operand: s.processed_binary_operand,
                        processed_unary_operands: s.processed_unary_operands,
                        closing_parenthesis_expected: s.closing_parenthesis_expected,
                    };
                    match reduce(with_value) {
                        Err(e) => Err(e),
                        Ok(s2) => run_level(table, tail, s2),
                    }
                }
            },
        }
    }
}

/// One full recursion level: run the token loop from a fresh accumulator,
/// then gate the result through the integrity check. Returns the level's
/// postfix output and the tokens it did not consume.
pub open spec fn process_level<T>(
    table: SymbolTable<T>,
    tokens: Seq<T>,
    closing_parenthesis_expected: bool,
) -> Result<(Seq<T>, Seq<T>), StructuralError>
    decreases tokens.len(), 1int,
{
    match run_level(table, tokens, initial_state(closing_parenthesis_expected)) {
        Err(e) => Err(e),
        Ok((s, rest)) => match finalize(s) {
            Err(e) => Err(e),
            Ok(result) => Ok((result, rest)),
        },
    }
}

/// A level's loop never hands back more tokens than it was given, so the
/// length guard in [`run_level`]'s open-parenthesis branch always holds.
pub proof fn lemma_run_level_remaining<T>(table: SymbolTable<T>, tokens: Seq<T>, s: ProcessState<T>)
    ensures
        run_level(table, tokens, s) matches Ok(level) ==> level.1.len() <= tokens.len(),
    decreases tokens.len(), 0int,
{
    if tokens.len() > 0 {
        let tail = tokens.skip(1);
        match table.classify(tokens[0]) {
            Some(Role::OpenParenthesis) => {
                lemma_process_level_remaining(table, tail, true);
                match process_level(table, tail, true) {
                    Ok(level) => {
                        let with_sub = ProcessState {
                            result: s.result,
                            processed_value: level.0,
                            processed_binary_operand: s.processed_binary_operand,
                            processed_unary_operands: s.processed_unary_operands,
                            closing_parenthesis_expected: s.closing_parenthesis_expected,
                        };
                        match reduce(with_sub) {
                            Ok(s2) => lemma_run_level_remaining(table, level.1, s2),
                            Err(_) => {},
                        }
                    },
                    Err(_) => {},
                }
            },
            Some(Role::ClosingParenthesis) => {},
            Some(Role::UnaryOperand) => {
                let with_unary = ProcessState {
                    result: s.result,
                    processed_value: s.processed_value,
                    processed_binary_operand: s.processed_binary_operand,
                    processed_unary_operands: s.processed_unary_operands.push(tokens[0]),
                    closing_parenthesis_expected: s.closing_parenthesis_expected,
                };
                match reduce(with_unary) {
                    Ok(s2) => lemma_run_level_remaining(table, tail, s2),
                    Err(_) => {},
                }
            },
            Some(Role::BinaryOperand) => {
                if s.processed_binary_operand is None {
                    let with_binary = ProcessState {
                        result: s.result,
                        processed_value: s.processed_value,
                        processed_binary_operand: Some(tokens[0]),
                        processed_unary_operands: s.processed_unary_operands,
                        closing_parenthesis_expected: s.closing_parenthesis_expected,
                    };
                    match reduce(with_binary) {
                        Ok(s2) => lemma_run_level_remaining(table, tail, s2),
                        Err(_) => {},
                    }
                }
            },
            None => {
                if s.processed_value.len() == 0 {
                    let with_value = ProcessState {
                        result: s.result,
                        processed_value: s.processed_value.push(tokens[0]),
                        processed_binary_operand: s.processed_binary_operand,
                        processed_unary_operands: s.processed_unary_operands,
                        closing_parenthesis_expected: s.closing_parenthesis_expected,
                    };
                    match reduce(with_value) {
                        Ok(s2) => lemma_run_level_remaining(table, tail, s2),
                        Err(_) => {},
                    }
                }
            },
        }
    }
}

/// A whole level never hands back more tokens than it was given.
pub proof fn lemma_process_level_remaining<T>(
    table: SymbolTable<T>,
    tokens: Seq<T>,
    closing_parenthesis_expected: bool,
)
    ensures
        process_level(table, tokens, closing_parenthesis_expected) matches Ok(level)
            ==> level.1.len() <= tokens.len(),
    decreases tokens.len(), 1int,
{
    lemma_run_level_remaining(table, tokens, initial_state(closing_parenthesis_expected));
}

/// What a whole conversion returns: the top level runs with no closing
/// parenthesis expected, and its output is the postfix sequence.
pub open spec fn convert_spec<T>(table: SymbolTable<T>, tokens: Seq<T>) -> Result<
    Seq<T>,
    StructuralError,
> {
    match process_level(table, tokens, false) {
        Err(e) => Err(e),
        Ok((result, _rest)) => Ok(result),
    }
}

} // verus!
