use crate::model::{initial_state, ProcessState};
use vstd::prelude::*;

verus! {

/// The per-recursion-level accumulator: the output built so far, the
/// pending operands, and whether this level still owes a matching closing
/// parenthesis. Created fresh for each level and consumed into its result
/// on return. Its abstract value is a [`ProcessState`].
pub struct InnerProcessVariables<T> {
    result: Vec<T>,
    processed_value: Vec<T>,
    processed_binary_operand: Option<T>,
    processed_unary_operands: Vec<T>,
    closing_parenthesis_expected: bool,
}

impl<T> View for InnerProcessVariables<T> {
    type V = ProcessState<T>;

    closed spec fn view(&self) -> ProcessState<T> {
        ProcessState {
            result: self.result@,
            processed_value: self.processed_value@,
            processed_binary_operand: self.processed_binary_operand,
            processed_unary_operands: self.processed_unary_operands@,
            closing_parenthesis_expected: self.closing_parenthesis_expected,
        }
    }
}

impl<T> InnerProcessVariables<T> {
    /// A fresh accumulator with nothing pending.
    pub fn new(closing_parenthesis_expected: bool) -> (r: InnerProcessVariables<T>)
        ensures
            r@ == initial_state::<T>(closing_parenthesis_expected),
    {
        let result: Vec<T> = Vec::new();
        let processed_value: Vec<T> = Vec::new();
        let processed_binary_operand: Option<T> = None;
        let processed_unary_operands: Vec<T> = Vec::new();

        InnerProcessVariables {
            result,
            processed_value,
            processed_binary_operand,
            processed_unary_operands,
            closing_parenthesis_expected,
        }
    }

    /// Consume the accumulator into the output it has built.
    pub fn into_result(self) -> (r: Vec<T>)
        ensures
            r@ == self@.result,
    {
        self.result
    }
}

/// Setters.
impl<T> InnerProcessVariables<T> {
    /// Install a fully reduced sub-expression's output as the pending value.
    pub fn set_processed_values(&mut self, processed_values: Vec<T>)
        ensures
            final(self)@ == (ProcessState {
                processed_value: processed_values@,
                ..old(self)@
            }),
    {
        self.processed_value = processed_values;
    }

    /// Append one value token to the pending-value slot.
    pub fn add_processed_value(&mut self, processed_value: T)
        ensures
            final(self)@ == (ProcessState {
                processed_value: old(self)@.processed_value.push(processed_value),
                ..old(self)@
            }),
    {
        self.processed_value.push(processed_value);
    }

    /// Append one unary operand to the pending chain.
    pub fn add_processed_unary_operands(&mut self, processed_unary_operand: T)
        ensures
            final(self)@ == (ProcessState {
                processed_unary_operands: old(self)@.processed_unary_operands.push(
                    processed_unary_operand,
                ),
                ..old(self)@
            }),
    {
        self.processed_unary_operands.push(processed_unary_operand);
    }

    /// Replace the pending binary operand.
    pub fn set_processed_binary_operand(&mut self, processed_binary_operand: Option<T>)
        ensures
            final(self)@ == (ProcessState {
                processed_binary_operand,
                ..old(self)@
            }),
    {
        self.processed_binary_operand = processed_binary_operand;
    }

    /// Record whether this level still owes a closing parenthesis.
    pub fn set_closing_parenthesis_expected(&mut self, closing_parenthesis_expected: bool)
        ensures
            final(self)@ == (ProcessState {
                closing_parenthesis_expected,
                ..old(self)@
            }),
    {
        self.closing_parenthesis_expected = closing_parenthesis_expected;
    }
}

/// Immutable getters.
impl<T> InnerProcessVariables<T> {
    pub fn result(&self) -> (r: &Vec<T>)
        ensures
            r@ == self@.result,
    {
        &self.result
    }

    pub fn processed_value(&self) -> (r: &Vec<T>)
        ensures
            r@ == self@.processed_value,
    {
        &self.processed_value
    }

    pub fn processed_binary_operand(&self) -> (r: &Option<T>)
        ensures
            *r == self@.processed_binary_operand,
    {
        &self.processed_binary_operand
    }

    pub fn processed_unary_operands(&self) -> (r: &Vec<T>)
        ensures
            r@ == self@.processed_unary_operands,
    {
        &self.processed_unary_operands
    }

    pub fn closing_parenthesis_expected(&self) -> (r: bool)
        ensures
            r == self@.closing_parenthesis_expected,
    {
        self.closing_parenthesis_expected
    }
}

/// Inner movers: each empties one pending slot into the output.
impl<T> InnerProcessVariables<T> {
    /// Move the pending value into the output, leaving the slot empty.
    pub fn inner_move_processed_value_to_result(&mut self)
        ensures
            final(self)@ == (ProcessState {
                result: old(self)@.result + old(self)@.processed_value,
                processed_value: Seq::empty(),
                ..old(self)@
            }),
    {
        self.result.append(&mut self.processed_value);
    }

    /// Move the pending binary operand into the output; it must be present.
    pub fn inner_move_processed_binary_operand_to_result(&mut self)
        requires
            old(self)@.processed_binary_operand is Some,
        ensures
            final(self)@ == (ProcessState {
                result: old(self)@.result.push(old(self)@.processed_binary_operand->0),
                processed_binary_operand: None,
                ..old(self)@
            }),
    {
        let operand = self.processed_binary_operand.take();
        match operand {
            Some(operand) => self.result.push(operand),
            None => {
                proof {
                    assert(false);
                }
            },
        }
    }

    /// Move the pending unary chain into the output, in encounter order.
    pub fn inner_move_processed_unary_operands_to_result(&mut self)
        ensures
            final(self)@ == (ProcessState {
                result: old(self)@.result + old(self)@.processed_unary_operands,
                processed_unary_operands: Seq::empty(),
                ..old(self)@
            }),
    {
        self.result.append(&mut self.processed_unary_operands);
    }
}

} // verus!
