pub mod business;
pub mod error;
pub mod laws;
pub mod model;

use std::collections::VecDeque;

use business::InnerProcessVariables;
use error::StructuralError;
use model::{convert_spec, finalize, initial_state, process_level, reduce, run_level};
use model::{ProcessState, Role, SymbolTable};
use vstd::laws_eq::obeys_concrete_eq;
use vstd::prelude::*;

verus! {

/// Modular Reverse Polish Notation converter.
///
/// The caller chooses which symbols act as open parentheses, closing
/// parentheses, unary operands and binary operands; every other symbol is
/// treated as a plain value. The converter's abstract value is a
/// [`SymbolTable`], and [`RpnConverter::remove_parenthesis`] is specified
/// exactly by [`convert_spec`] over that table.
pub struct RpnConverter<T> {
    open_parenthesis: Vec<T>,
    closing_parenthesis: Vec<T>,
    unary_operands: Vec<T>,
    binary_operands: Vec<T>,
}

impl<T> View for RpnConverter<T> {
    type V = SymbolTable<T>;

    closed spec fn view(&self) -> SymbolTable<T> {
        SymbolTable {
            open_parenthesis: self.open_parenthesis@,
            closing_parenthesis: self.closing_parenthesis@,
            unary_operands: self.unary_operands@,
            binary_operands: self.binary_operands@,
        }
    }
}

/* --- PUBLIC --- */

impl<T: std::cmp::Eq + std::hash::Hash> RpnConverter<T> {
    /// A converter is well formed when no symbol is registered under two
    /// roles and the symbol type's `==` agrees with logical equality.
    pub open spec fn wf(self) -> bool {
        &&& obeys_concrete_eq::<T>()
        &&& self@.wf()
    }

    /// Construct a converter with the given symbols registered as open
    /// parentheses, closing parentheses, unary operands and binary operands
    /// respectively. Registering one symbol twice, within a role or across
    /// roles, is a setup-time contract violation and is excluded here.
    pub fn new(
        open_parenthesis: Vec<T>,
        closing_parenthesis: Vec<T>,
        unary_operands: Vec<T>,
        binary_operands: Vec<T>,
    ) -> (r: RpnConverter<T>)
        requires
            obeys_concrete_eq::<T>(),
            (SymbolTable {
                open_parenthesis: open_parenthesis@,
                closing_parenthesis: closing_parenthesis@,
                unary_operands: unary_operands@,
                binary_operands: binary_operands@,
            }).wf(),
        ensures
            r.wf(),
            r@ == (SymbolTable {
                open_parenthesis: open_parenthesis@,
                closing_parenthesis: closing_parenthesis@,
                unary_operands: unary_operands@,
                binary_operands: binary_operands@,
            }),
    {
        RpnConverter { open_parenthesis, closing_parenthesis, unary_operands, binary_operands }
    }

    /// Consume the given standard (infix) notation and return the populated
    /// reverse polish notation with parenthesis removal, or the first
    /// structural error the input shows.
    pub fn remove_parenthesis(&self, standard_notation: VecDeque<T>) -> (r: Result<
        Vec<T>,
        StructuralError,
    >)
        requires
            self.wf(),
        ensures
            (match convert_spec(self@, standard_notation@) {
                Ok(rpn) => r matches Ok(v) && v@ == rpn,
                Err(e) => r == Err::<Vec<T>, StructuralError>(e),
            }),
    {
        let mut queue = standard_notation;
        self.process(&mut queue, false)
    }

    /// The role of a symbol, or `None` for a plain value. Pure lookup.
    pub fn classify(&self, symbol: &T) -> (r: Option<Role>)
        requires
            self.wf(),
        ensures
            r == self@.classify(*symbol),
    {
        if Self::contains_symbol(&self.open_parenthesis, symbol) {
            Some(Role::OpenParenthesis)
        } else if Self::contains_symbol(&self.closing_parenthesis, symbol) {
            Some(Role::ClosingParenthesis)
        } else if Self::contains_symbol(&self.unary_operands, symbol) {
            Some(Role::UnaryOperand)
        } else if Self::contains_symbol(&self.binary_operands, symbol) {
            Some(Role::BinaryOperand)
        } else {
            None
        }
    }
}

/* --- PRIVATE --- */

impl<T: std::cmp::Eq + std::hash::Hash> RpnConverter<T> {
    /// Linear scan for a symbol among the registered symbols of one role.
    fn contains_symbol(symbols: &Vec<T>, symbol: &T) -> (r: bool)
        requires
            obeys_concrete_eq::<T>(),
        ensures
            r == symbols@.contains(*symbol),
    {
        let n = symbols.len();
        let mut i: usize = 0;
        while i < n
            invariant
                obeys_concrete_eq::<T>(),
                n == symbols@.len(),
                i <= n,
                forall|k: int| 0 <= k < i ==> symbols@[k] != *symbol,
            decreases n - i,
        {
            proof {
                reveal(obeys_concrete_eq);
            }
            if *symbol == symbols[i] {
                proof {
                    assert(symbols@.contains(*symbol)) by {
                        assert(symbols@[i as int] == *symbol);
                    }
                }
                return true;
            }
            i += 1;
        }
        false
    }

    /// In case of success, return this level's reverse polish notation and
    /// leave the queue at the first token this level did not consume.
    fn process(&self, standard_notation: &mut VecDeque<T>, closing_parenthesis_expected: bool) -> (r:
        Result<Vec<T>, StructuralError>)
        requires
            self.wf(),
        ensures
            final(standard_notation)@.len() <= old(standard_notation)@.len(),
            (match process_level(self@, old(standard_notation)@, closing_parenthesis_expected) {
                Ok(level) => r matches Ok(v) && v@ == level.0 && final(standard_notation)@
                    == level.1,
                Err(e) => r == Err::<Vec<T>, StructuralError>(e),
            }),
        decreases standard_notation@.len(), 2int,
    {
        let mut inner_process_variables: InnerProcessVariables<T> = InnerProcessVariables::new(
            closing_parenthesis_expected,
        );

        match self.loop_over_keywords(&mut inner_process_variables, standard_notation) {
            Ok(_) => {},
            Err(e) => {
                return Err(e);
            },
        }

        RpnConverter::check_integrity_and_return_result(inner_process_variables)
    }

    /// Loop over the keywords in the queue, dispatch each by role, and fold
    /// the outcome through the accumulator until the queue is exhausted or
    /// this level's closing parenthesis hands control back to the caller.
    fn loop_over_keywords(
        &self,
        inner_process_variables: &mut InnerProcessVariables<T>,
        standard_notation: &mut VecDeque<T>,
    ) -> (r: Result<(), StructuralError>)
        requires
            self.wf(),
        ensures
            final(standard_notation)@.len() <= old(standard_notation)@.len(),
            (match run_level(self@, old(standard_notation)@, old(inner_process_variables)@) {
                Ok(level) => r == Ok::<(), StructuralError>(()) && final(inner_process_variables)@
                    == level.0 && final(standard_notation)@ == level.1,
                Err(e) => r == Err::<(), StructuralError>(e),
            }),
        decreases standard_notation@.len(), 1int,
    {
        loop
            invariant
                self.wf(),
                standard_notation@.len() <= old(standard_notation)@.len(),
                run_level(self@, old(standard_notation)@, old(inner_process_variables)@)
                    == run_level(self@, standard_notation@, inner_process_variables@),
            decreases standard_notation@.len(),
        {
            let ghost iter_tokens = standard_notation@;
            let ghost iter_state = inner_process_variables@;

            let operand = match standard_notation.pop_front() {
                Some(operand) => operand,
                None => {
                    return Ok(());
                },
            };

            proof {
                assert(standard_notation@ =~= iter_tokens.skip(1));
            }

            match self.classify(&operand) {
                Some(Role::OpenParenthesis) => {
                    match self.process_open_parenthesis(
                        inner_process_variables,
                        operand,
                        standard_notation,
                    ) {
                        Ok(_) => {},
                        Err(e) => {
                            return Err(e);
                        },
                    }
                },
                Some(Role::ClosingParenthesis) => {
                    match self.process_closing_parenthesis(
                        inner_process_variables,
                        operand,
                        standard_notation,
                    ) {
                        Ok(_) => {
                            return Ok(());
                        },
                        Err(e) => {
                            return Err(e);
                        },
                    }
                },
                Some(Role::UnaryOperand) => {
                    match self.process_unary_operand(
                        inner_process_variables,
                        operand,
                        standard_notation,
                    ) {
                        Ok(_) => {},
                        Err(e) => {
                            return Err(e);
                        },
                    }
                },
                Some(Role::BinaryOperand) => {
                    match self.process_binary_operand(
                        inner_process_variables,
                        operand,
                        standard_notation,
                    ) {
                        Ok(_) => {},
                        Err(e) => {
                            return Err(e);
                        },
                    }
                },
                None => {
                    match RpnConverter::process_value(inner_process_variables, operand) {
                        Ok(_) => {},
                        Err(e) => {
                            return Err(e);
                        },
                    }
                },
            }

            match RpnConverter::populate_operands(inner_process_variables) {
                Ok(_) => {},
                Err(e) => {
                    return Err(e);
                },
            }
        }
    }

    /// The reduction rule applied after each dispatched token; its exact
    /// behaviour is [`reduce`].
    fn populate_operands(variables: &mut InnerProcessVariables<T>) -> (r: Result<
        (),
        StructuralError,
    >)
        ensures
            (match reduce(old(variables)@) {
                Ok(s) => r == Ok::<(), StructuralError>(()) && final(variables)@ == s,
                Err(e) => r == Err::<(), StructuralError>(e) && final(variables)@ == old(
                    variables,
                )@,
            }),
    {
        match (
            !variables.result().is_empty(),
            variables.processed_binary_operand().is_some(),
            !variables.processed_value().is_empty(),
        ) {
            // Left side, binary operand and right side: a full binary expression.
            (true, true, true) => {
                variables.inner_move_processed_value_to_result();
                variables.inner_move_processed_unary_operands_to_result();
                variables.inner_move_processed_binary_operand_to_result();
            },
            // No binary operand, first value of the expression.
            (false, false, true) => {
                variables.inner_move_processed_value_to_result();
                variables.inner_move_processed_unary_operands_to_result();
                proof {
                    assert(variables@ =~= reduce(old(variables)@)->Ok_0);
                }
            },
            // Two values with no binary operand between them.
            (true, false, true) => {
                return Err(StructuralError::SuccessiveTwoValues);
            },
            // A binary operand with no left side.
            (false, true, _) => {
                return Err(StructuralError::MissingLeftSideValueBinary);
            },
            // Operands but no right side yet: keep reading.
            _ => (),
        }

        Ok(())
    }

    /// The integrity check gate run once a level's loop has ended; its exact
    /// behaviour is [`finalize`].
    fn check_integrity_and_return_result(inner_process_variables: InnerProcessVariables<T>) -> (r:
        Result<Vec<T>, StructuralError>)
        ensures
            (match finalize(inner_process_variables@) {
                Ok(rpn) => r matches Ok(v) && v@ == rpn,
                Err(e) => r == Err::<Vec<T>, StructuralError>(e),
            }),
    {
        if inner_process_variables.result().is_empty() {
            return Err(StructuralError::EmptyResult);
        }
        if inner_process_variables.closing_parenthesis_expected() {
            return Err(StructuralError::MissingClosingParenthesis);
        }
        if !inner_process_variables.processed_unary_operands().is_empty() {
            return Err(StructuralError::MissingRightSideValueUnary);
        }
        match inner_process_variables.processed_binary_operand() {
            Some(_binary_operand) => {
                return Err(StructuralError::MissingRightSideValueBinary);
            },
            None => (),
        }

        Ok(inner_process_variables.into_result())
    }
}

/* --- PROCESSING OF EACH ROLE --- */

impl<T: std::cmp::Eq + std::hash::Hash> RpnConverter<T> {
    /// Open parenthesis: resolve the nested group by a recursive call on the
    /// same queue, and hold its whole output as this level's pending value.
    pub fn process_open_parenthesis(
        &self,
        variables: &mut InnerProcessVariables<T>,
        _head: T,
        standard_notation: &mut VecDeque<T>,
    ) -> (r: Result<bool, StructuralError>)
        requires
            self.wf(),
        ensures
            final(standard_notation)@.len() <= old(standard_notation)@.len(),
            (match process_level(self@, old(standard_notation)@, true) {
                Ok(level) => r == Ok::<bool, StructuralError>(true) && final(variables)@
                    == (ProcessState {
                    processed_value: level.0,
                    ..old(variables)@
                }) && final(standard_notation)@ == level.1,
                Err(e) => r == Err::<bool, StructuralError>(e),
            }),
        decreases standard_notation@.len(), 3int,
    {
        let operands = match self.process(standard_notation, true) {
            Ok(operands) => operands,
            Err(e) => {
                return Err(e);
            },
        };

        variables.set_processed_values(operands);
        Ok(true)
    }

    /// Closing parenthesis: reject it when no group is open, otherwise clear
    /// the expectation and hand control back to the enclosing level.
    pub fn process_closing_parenthesis(
        &self,
        variables: &mut InnerProcessVariables<T>,
        _head: T,
        _tail: &mut VecDeque<T>,
    ) -> (r: Result<bool, StructuralError>)
        ensures
            final(_tail)@ == old(_tail)@,
            (if !old(variables)@.closing_parenthesis_expected {
                r == Err::<bool, StructuralError>(StructuralError::UnexpectedClosingParenthesis)
                    && final(variables)@ == old(variables)@
            } else {
                r == Ok::<bool, StructuralError>(false) && final(variables)@ == (ProcessState {
                    closing_parenthesis_expected: false,
                    ..old(variables)@
                })
            }),
    {
        if !variables.closing_parenthesis_expected() {
            return Err(StructuralError::UnexpectedClosingParenthesis);
        }

        variables.set_closing_parenthesis_expected(false);
        Ok(false)
    }

    /// Binary operand: at most one may wait for its right operand.
    pub fn process_binary_operand(
        &self,
        variables: &mut InnerProcessVariables<T>,
        operand: T,
        _tail: &mut VecDeque<T>,
    ) -> (r: Result<bool, StructuralError>)
        ensures
            final(_tail)@ == old(_tail)@,
            (if old(variables)@.processed_binary_operand is Some {
                r == Err::<bool, StructuralError>(StructuralError::SuccessiveTwoBinaryOperands)
                    && final(variables)@ == old(variables)@
            } else {
                r == Ok::<bool, StructuralError>(true) && final(variables)@ == (ProcessState {
                    processed_binary_operand: Some(operand),
                    ..old(variables)@
                })
            }),
    {
        match variables.processed_binary_operand() {
            None => (),
            Some(_value) => {
                return Err(StructuralError::SuccessiveTwoBinaryOperands);
            },
        }

        variables.set_processed_binary_operand(Some(operand));
        Ok(true)
    }

    /// Unary operand: append it to the pending chain.
    pub fn process_unary_operand(
        &self,
        variables: &mut InnerProcessVariables<T>,
        operand: T,
        _tail: &mut VecDeque<T>,
    ) -> (r: Result<bool, StructuralError>)
        ensures
            final(_tail)@ == old(_tail)@,
            r == Ok::<bool, StructuralError>(true),
            final(variables)@ == (ProcessState {
                processed_unary_operands: old(variables)@.processed_unary_operands.push(operand),
                ..old(variables)@
            }),
    {
        variables.add_processed_unary_operands(operand);
        Ok(true)
    }

    /// Plain value: at most one may wait to be combined.
    pub fn process_value(variables: &mut InnerProcessVariables<T>, value: T) -> (r: Result<
        (),
        StructuralError,
    >)
        ensures
            (if old(variables)@.processed_value.len() > 0 {
                r == Err::<(), StructuralError>(StructuralError::SuccessiveTwoValues)
                    && final(variables)@ == old(variables)@
            } else {
                r == Ok::<(), StructuralError>(()) && final(variables)@ == (ProcessState {
                    processed_value: old(variables)@.processed_value.push(value),
                    ..old(variables)@
                })
            }),
    {
        if !variables.processed_value().is_empty() {
            return Err(StructuralError::SuccessiveTwoValues);
        }

        variables.add_processed_value(value);
        Ok(())
    }
}

} // verus!
