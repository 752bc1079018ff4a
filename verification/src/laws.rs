use crate::error::StructuralError;
use crate::model::{
    convert_spec, finalize, initial_state, process_level, reduce, run_level, ProcessState, Role,
    SymbolTable,
};
use vstd::prelude::*;

verus! {

/// Conversion is deterministic: any two outcomes that the conversion
/// contract allows for the same converter and the same input are equal. In
/// particular, re-running a conversion on the same input yields identical
/// output.
pub proof fn lemma_convert_deterministic<T>(
    table: SymbolTable<T>,
    tokens: Seq<T>,
    first: Result<Seq<T>, StructuralError>,
    second: Result<Seq<T>, StructuralError>,
)
    requires
        first == convert_spec(table, tokens),
        second == convert_spec(table, tokens),
    ensures
        first == second,
{
}

/// Symbol roles partition the symbols: for a well-formed table, a symbol is
/// classified under a role exactly when it was registered under that role,
/// it is a plain value exactly when it was registered under no role, and so
/// each symbol falls in exactly one of the five categories.
pub proof fn lemma_symbol_roles_partition<T>(table: SymbolTable<T>, symbol: T)
    requires
        table.wf(),
    ensures
        (table.classify(symbol) == Some(Role::OpenParenthesis)) <==> table.open_parenthesis.contains(
            symbol,
        ),
        (table.classify(symbol) == Some(Role::ClosingParenthesis))
            <==> table.closing_parenthesis.contains(symbol),
        (table.classify(symbol) == Some(Role::UnaryOperand)) <==> table.unary_operands.contains(
            symbol,
        ),
        (table.classify(symbol) == Some(Role::BinaryOperand)) <==> table.binary_operands.contains(
            symbol,
        ),
        (table.classify(symbol) is None) <==> !table.registered().contains(symbol),
{
    let reg = table.registered();
    let n0 = table.open_parenthesis.len() as int;
    let n1 = n0 + table.closing_parenthesis.len();
    let n2 = n1 + table.unary_operands.len();

    // A witness index inside `registered` for each role the symbol holds.
    if table.open_parenthesis.contains(symbol) {
        let i = choose|i: int|
            0 <= i < table.open_parenthesis.len() && table.open_parenthesis[i] == symbol;
        assert(reg[i] == symbol);
        assert(reg.contains(symbol));
    }
    if table.closing_parenthesis.contains(symbol) {
        let i = choose|i: int|
            0 <= i < table.closing_parenthesis.len() && table.closing_parenthesis[i] == symbol;
        assert(reg[n0 + i] == symbol);
        assert(reg.contains(symbol));
    }
    if table.unary_operands.contains(symbol) {
        let i = choose|i: int|
            0 <= i < table.unary_operands.len() && table.unary_operands[i] == symbol;
        assert(reg[n1 + i] == symbol);
        assert(reg.contains(symbol));
    }
    if table.binary_operands.contains(symbol) {
        let i = choose|i: int|
            0 <= i < table.binary_operands.len() && table.binary_operands[i] == symbol;
        assert(reg[n2 + i] == symbol);
        assert(reg.contains(symbol));
    }

    // Well-formedness forbids one symbol under two roles: two witnesses at
    // different positions of `registered` would contradict distinctness.
    if reg.contains(symbol) {
        let k = choose|k: int| 0 <= k < reg.len() && reg[k] == symbol;
        if k < n0 {
            assert(table.open_parenthesis[k] == symbol);
            assert(table.open_parenthesis.contains(symbol));
        } else if k < n1 {
            assert(table.closing_parenthesis[k - n0] == symbol);
            assert(table.closing_parenthesis.contains(symbol));
        } else if k < n2 {
            assert(table.unary_operands[k - n1] == symbol);
            assert(table.unary_operands.contains(symbol));
        } else {
            assert(table.binary_operands[k - n2] == symbol);
            assert(table.binary_operands.contains(symbol));
        }
    }
}

/// An expression built purely from single values and binary operands, with
/// explicit full parenthesization: a value, or a parenthesized combination
/// of two sub-expressions by one binary operand.
pub enum BinaryExpression<T> {
    Value(T),
    Operation(Box<BinaryExpression<T>>, T, Box<BinaryExpression<T>>),
}

/// The standard-notation spelling of an expression: each operation is
/// written in full parentheses, `( left operand right )`.
pub open spec fn infix_tokens<T>(e: BinaryExpression<T>, open: T, close: T) -> Seq<T>
    decreases e,
{
    match e {
        BinaryExpression::Value(v) => seq![v],
        BinaryExpression::Operation(left, operand, right) => seq![open] + infix_tokens(
            *left,
            open,
            close,
        ) + seq![operand] + infix_tokens(*right, open, close) + seq![close],
    }
}

/// The reverse-polish spelling of an expression: the left side's spelling,
/// then the right side's, then the operand that combines them.
pub open spec fn postfix_tokens<T>(e: BinaryExpression<T>) -> Seq<T>
    decreases e,
{
    match e {
        BinaryExpression::Value(v) => seq![v],
        BinaryExpression::Operation(left, operand, right) => postfix_tokens(*left)
            + postfix_tokens(*right) + seq![operand],
    }
}

/// The expression uses the table as intended: every leaf is a plain value
/// and every operand is registered as binary.
pub open spec fn expression_wf<T>(table: SymbolTable<T>, e: BinaryExpression<T>) -> bool
    decreases e,
{
    match e {
        BinaryExpression::Value(v) => table.classify(v) is None,
        BinaryExpression::Operation(left, operand, right) => {
            &&& table.classify(operand) == Some(Role::BinaryOperand)
            &&& expression_wf(table, *left)
            &&& expression_wf(table, *right)
        },
    }
}

/// The accumulator shapes from which the engine can accept a whole
/// (sub-)expression as its next value: nothing pending but, past the first
/// value, the binary operand waiting for its right operand.
pub open spec fn awaiting_value<T>(s: ProcessState<T>) -> bool {
    &&& s.processed_value.len() == 0
    &&& s.processed_unary_operands.len() == 0
    &&& (if s.result.len() == 0 {
        s.processed_binary_operand is None
    } else {
        s.processed_binary_operand is Some
    })
}

/// The accumulator after the engine has read a whole expression whose
/// postfix spelling is `produced`, starting from an accumulator that was
/// awaiting a value.
pub open spec fn after_value<T>(s: ProcessState<T>, produced: Seq<T>) -> ProcessState<T> {
    ProcessState {
        result: if s.result.len() == 0 {
            produced
        } else {
            (s.result + produced).push(s.processed_binary_operand->0)
        },
        processed_value: Seq::empty(),
        processed_binary_operand: None,
        processed_unary_operands: Seq::empty(),
        closing_parenthesis_expected: s.closing_parenthesis_expected,
    }
}

/// The postfix spelling of an expression is never empty.
pub proof fn lemma_postfix_tokens_nonempty<T>(e: BinaryExpression<T>)
    ensures
        postfix_tokens(e).len() >= 1,
    decreases e,
{
    match e {
        BinaryExpression::Value(_v) => {},
        BinaryExpression::Operation(left, _operand, right) => {
            lemma_postfix_tokens_nonempty(*left);
            lemma_postfix_tokens_nonempty(*right);
        },
    }
}

/// Reading one fully parenthesized expression from the front of the input
/// turns an accumulator that awaits a value into the accumulator holding the
/// expression's postfix spelling, and leaves the rest of the input to the
/// same level.
proof fn lemma_expression_run<T>(
    table: SymbolTable<T>,
    e: BinaryExpression<T>,
    open: T,
    close: T,
    s: ProcessState<T>,
    rest: Seq<T>,
)
    requires
        table.classify(open) == Some(Role::OpenParenthesis),
        table.classify(close) == Some(Role::ClosingParenthesis),
        expression_wf(table, e),
        awaiting_value(s),
    ensures
        run_level(table, infix_tokens(e, open, close) + rest, s) == run_level(
            table,
            rest,
            after_value(s, postfix_tokens(e)),
        ),
    decreases e,
{
    let tokens = infix_tokens(e, open, close) + rest;
    match e {
        BinaryExpression::Value(v) => {
            assert(tokens[0] == v);
            assert(tokens.skip(1) =~= rest);
            let with_value = ProcessState {
                result: s.result,
                processed_value: s.processed_value.push(v),
                processed_binary_operand: s.processed_binary_operand,
                processed_unary_operands: s.processed_unary_operands,
                closing_parenthesis_expected: s.closing_parenthesis_expected,
            };
            assert(reduce(with_value) matches Ok(s2) && s2 =~= after_value(
                s,
                postfix_tokens(e),
            ));
            assert(run_level(table, tokens, s) == run_level(
                table,
                rest,
                after_value(s, postfix_tokens(e)),
            ));
        },
        BinaryExpression::Operation(left, operand, right) => {
            let il = infix_tokens(*left, open, close);
            let ir = infix_tokens(*right, open, close);
            let inner = il + seq![operand] + ir + seq![close] + rest;
            assert(infix_tokens(e, open, close) == seq![open] + il + seq![operand] + ir + seq![
                close,
            ]);
            assert(tokens[0] == open);
            assert(tokens.skip(1) =~= inner);

            // The nested level reads the left operand, the binary operand,
            // the right operand, and its own closing parenthesis.
            let s0 = initial_state::<T>(true);
            lemma_expression_run(table, *left, open, close, s0, seq![operand] + ir + seq![close]
                + rest);
            assert(il + (seq![operand] + ir + seq![close] + rest) =~= inner);
            let s1 = after_value(s0, postfix_tokens(*left));
            assert(run_level(table, inner, s0) == run_level(
                table,
                seq![operand] + ir + seq![close] + rest,
                s1,
            ));

            lemma_postfix_tokens_nonempty(*left);
            let t1 = seq![operand] + ir + seq![close] + rest;
            assert(t1[0] == operand);
            assert(t1.skip(1) =~= ir + seq![close] + rest);
            let s2 = ProcessState { processed_binary_operand: Some(operand), ..s1 };
            assert(reduce(s2) == Ok::<ProcessState<T>, StructuralError>(s2));
            assert(run_level(table, t1, s1) == run_level(table, ir + seq![close] + rest, s2));

            assert(awaiting_value(s2));
            lemma_expression_run(table, *right, open, close, s2, seq![close] + rest);
            assert(ir + (seq![close] + rest) =~= ir + seq![close] + rest);
            let s3 = after_value(s2, postfix_tokens(*right));
            assert(run_level(table, ir + seq![close] + rest, s2) == run_level(
                table,
                seq![close] + rest,
                s3,
            ));

            let t3 = seq![close] + rest;
            assert(t3[0] == close);
            assert(t3.skip(1) =~= rest);
            let s4 = ProcessState { closing_parenthesis_expected: false, ..s3 };
            assert(run_level(table, t3, s3) == Ok::<(ProcessState<T>, Seq<T>), StructuralError>(
                (s4, rest),
            ));

            // The nested level's integrity check passes and it hands back
            // exactly the postfix spelling of this operation.
            lemma_postfix_tokens_nonempty(*right);
            assert(finalize(s4) == Ok::<Seq<T>, StructuralError>(s4.result));
            assert(process_level(table, tokens.skip(1), true) == Ok::<
                (Seq<T>, Seq<T>),
                StructuralError,
            >((s4.result, rest)));
            assert(s4.result =~= postfix_tokens(e));

            // Back at the enclosing level: the whole nested output becomes
            // the single pending value and is reduced at once.
            assert(rest.len() < tokens.len());
            let with_sub = ProcessState {
                result: s.result,
                processed_value: s4.result,
                processed_binary_operand: s.processed_binary_operand,
                processed_unary_operands: s.processed_unary_operands,
                closing_parenthesis_expected: s.closing_parenthesis_expected,
            };
            assert(reduce(with_sub) matches Ok(s5) && s5 =~= after_value(
                s,
                postfix_tokens(e),
            ));
            assert(run_level(table, tokens, s) == run_level(
                table,
                rest,
                after_value(s, postfix_tokens(e)),
            ));
        },
    }
}

/// Round-trip structural law: converting the fully parenthesized standard
/// notation of any expression built purely from single values and binary
/// operands succeeds, and yields exactly the expression's reverse-polish
/// spelling — for every grouping the left side comes out first, then the
/// right side, then the operand, so postfix evaluation order matches
/// left-to-right evaluation of the original grouping.
pub proof fn lemma_round_trip<T>(table: SymbolTable<T>, e: BinaryExpression<T>, open: T, close: T)
    requires
        table.classify(open) == Some(Role::OpenParenthesis),
        table.classify(close) == Some(Role::ClosingParenthesis),
        expression_wf(table, e),
    ensures
        convert_spec(table, infix_tokens(e, open, close)) == Ok::<Seq<T>, StructuralError>(
            postfix_tokens(e),
        ),
{
    let tokens = infix_tokens(e, open, close);
    let s0 = initial_state::<T>(false);
    lemma_expression_run(table, e, open, close, s0, Seq::empty());
    assert(tokens + Seq::<T>::empty() =~= tokens);
    let s1 = after_value(s0, postfix_tokens(e));
    assert(run_level(table, Seq::<T>::empty(), s1) == Ok::<
        (ProcessState<T>, Seq<T>),
        StructuralError,
    >((s1, Seq::<T>::empty())));
    lemma_postfix_tokens_nonempty(e);
    assert(finalize(s1) == Ok::<Seq<T>, StructuralError>(postfix_tokens(e)));
    assert(convert_spec(table, tokens) == Ok::<Seq<T>, StructuralError>(postfix_tokens(e)));
}

} // verus!

