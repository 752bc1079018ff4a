use std::collections::VecDeque;

use rpn_converter::error::StructuralError;
use rpn_converter::model::Role;
use rpn_converter::RpnConverter;

fn converter() -> RpnConverter<&'static str> {
    RpnConverter::new(
        ["("].to_vec(),
        [")"].to_vec(),
        ["!"].to_vec(),
        ["+", "^", "|"].to_vec(),
    )
}

#[test]
fn test_valid1() {
    let standard_notation = "( A | B ) ^ C".split_ascii_whitespace().collect();
    let attempted_rpn: Vec<&str> = "A B | C ^".split_ascii_whitespace().collect();

    let rpn = converter().remove_parenthesis(standard_notation).unwrap();

    assert_eq!(rpn, attempted_rpn);
}

#[test]
fn test_valid2() {
    let standard_notation = "A | ( B ^ C )".split_ascii_whitespace().collect();
    let attempted_rpn: Vec<&str> = "A B C ^ |".split_ascii_whitespace().collect();

    let rpn = converter().remove_parenthesis(standard_notation).unwrap();

    assert_eq!(rpn, attempted_rpn);
}

#[test]
fn test_valid3() {
    let standard_notation = "B + ( ! A | C )".split_ascii_whitespace().collect();
    let attempted_rpn: Vec<&str> = "B A ! C | +".split_ascii_whitespace().collect();

    let rpn = converter().remove_parenthesis(standard_notation).unwrap();

    assert_eq!(rpn, attempted_rpn);
}

#[test]
fn test_valid4() {
    let standard_notation = "( ( A + B ) | ( D | ( ( K + O ) ^ A ) ) ) ^ B"
        .split_ascii_whitespace()
        .collect();
    let attempted_rpn: Vec<&str> = "A B + D K O + A ^ | | B ^".split_ascii_whitespace().collect();

    let rpn = converter().remove_parenthesis(standard_notation).unwrap();

    assert_eq!(rpn, attempted_rpn);
}

#[test]
fn test_valid5() {
    let standard_notation = "B ^ ( ( A + B ) | ( D | ( ( K + O ) ^ A ) ) )"
        .split_ascii_whitespace()
        .collect();
    let attempted_rpn: Vec<&str> = "B A B + D K O + A ^ | | ^".split_ascii_whitespace().collect();

    let rpn = converter().remove_parenthesis(standard_notation).unwrap();

    assert_eq!(rpn, attempted_rpn);
}

#[test]
fn test_valid6() {
    let standard_notation = "( ( A | B ) + C ) + ( D ^ E ) + ( F | G | I )"
        .split_ascii_whitespace()
        .collect();
    let attempted_rpn: Vec<&str> = "A B | C + D E ^ + F G | I | +"
        .split_ascii_whitespace()
        .collect();

    let rpn = converter().remove_parenthesis(standard_notation).unwrap();

    assert_eq!(rpn, attempted_rpn);
}

#[test]
fn test_valid7() {
    let standard_notation = "A + B ^ ( A + ! ( ! C + B ) + yolo )"
        .split_ascii_whitespace()
        .collect();
    let attempted_rpn: Vec<&str> = "A B + A C ! B + ! + yolo + ^"
        .split_ascii_whitespace()
        .collect();

    let rpn = converter().remove_parenthesis(standard_notation).unwrap();

    assert_eq!(rpn, attempted_rpn);
}

#[test]
fn test_invalid_empty() {
    let standard_notation = "".split_ascii_whitespace().collect();

    match converter().remove_parenthesis(standard_notation) {
        Err(error) => assert_eq!(error, StructuralError::EmptyResult),
        _ => panic!("Should not be valid"),
    }
}

#[test]
fn test_invalid_missing_closing_parenthesis() {
    let standard_notation = "A + B ^ ( A + ! ( ! C + B ) + yolo"
        .split_ascii_whitespace()
        .collect();

    match converter().remove_parenthesis(standard_notation) {
        Err(error) => assert_eq!(error, StructuralError::MissingClosingParenthesis),
        _ => panic!("Should not be valid"),
    }
}

#[test]
fn test_invalid_missing_right_side_value_unary() {
    let standard_notation = "A + B ^ ( A + ! ( ! C + B ) + yolo + ! )"
        .split_ascii_whitespace()
        .collect();

    match converter().remove_parenthesis(standard_notation) {
        Err(error) => assert_eq!(error, StructuralError::MissingRightSideValueUnary),
        _ => panic!("Should not be valid"),
    }
}

#[test]
fn test_invalid_missing_right_side_value_binary() {
    let standard_notation = "A + B ^ ( A + ! ( ! C + B ) + yolo + )"
        .split_ascii_whitespace()
        .collect();

    match converter().remove_parenthesis(standard_notation) {
        Err(error) => assert_eq!(error, StructuralError::MissingRightSideValueBinary),
        _ => panic!("Should not be valid"),
    }
}

#[test]
fn test_invalid_missing_left_side_value_binary() {
    let standard_notation = "+ B ^ ( A + ! ( ! C + B ) + yolo )"
        .split_ascii_whitespace()
        .collect();

    match converter().remove_parenthesis(standard_notation) {
        Err(error) => assert_eq!(error, StructuralError::MissingLeftSideValueBinary),
        _ => panic!("Should not be valid"),
    }
}

#[test]
fn test_invalid_unexpected_closing_parenthesis() {
    let standard_notation = "A + B ^ ( A + ! ( ! C + B ) + yolo ) )"
        .split_ascii_whitespace()
        .collect();

    match converter().remove_parenthesis(standard_notation) {
        Err(error) => assert_eq!(error, StructuralError::UnexpectedClosingParenthesis),
        _ => panic!("Should not be valid"),
    }
}

#[test]
fn test_invalid_successive_two_binary_operands() {
    let standard_notation = "A + B ^ ( A + ! ( ! C + B ) + + yolo )"
        .split_ascii_whitespace()
        .collect();

    match converter().remove_parenthesis(standard_notation) {
        Err(error) => assert_eq!(error, StructuralError::SuccessiveTwoBinaryOperands),
        _ => panic!("Should not valid"),
    }
}

#[test]
fn test_invalid_successive_two_values() {
    let standard_notation = "A + B ^ ( A + ! ( ! C + B B ) + yolo )"
        .split_ascii_whitespace()
        .collect();

    match converter().remove_parenthesis(standard_notation) {
        Err(error) => assert_eq!(error, StructuralError::SuccessiveTwoValues),
        _ => panic!("Should not valid"),
    }
}

#[test]
fn test_convert_twice_same_output() {
    let tokens: Vec<&str> = "( A | B ) ^ ( ! C + D )".split_ascii_whitespace().collect();
    let rpn_converter = converter();

    let first_queue: VecDeque<&str> = tokens.iter().copied().collect();
    let second_queue: VecDeque<&str> = tokens.iter().copied().collect();

    let first = rpn_converter.remove_parenthesis(first_queue).unwrap();
    let second = rpn_converter.remove_parenthesis(second_queue).unwrap();

    assert_eq!(first, second);

    let attempted_rpn: Vec<&str> = "A B | C ! D + ^".split_ascii_whitespace().collect();
    assert_eq!(first, attempted_rpn);
}

#[test]
fn test_symbol_roles_partition() {
    let rpn_converter = converter();

    assert_eq!(rpn_converter.classify(&"("), Some(Role::OpenParenthesis));
    assert_eq!(rpn_converter.classify(&")"), Some(Role::ClosingParenthesis));
    assert_eq!(rpn_converter.classify(&"!"), Some(Role::UnaryOperand));
    assert_eq!(rpn_converter.classify(&"+"), Some(Role::BinaryOperand));
    assert_eq!(rpn_converter.classify(&"^"), Some(Role::BinaryOperand));
    assert_eq!(rpn_converter.classify(&"|"), Some(Role::BinaryOperand));
    assert_eq!(rpn_converter.classify(&"A"), None);
    assert_eq!(rpn_converter.classify(&"yolo"), None);
}

#[test]
fn test_fully_parenthesized_round_trip() {
    let standard_notation = "( ( A + B ) | ( C ^ D ) )".split_ascii_whitespace().collect();
    let attempted_rpn: Vec<&str> = "A B + C D ^ |".split_ascii_whitespace().collect();

    let rpn = converter().remove_parenthesis(standard_notation).unwrap();

    assert_eq!(rpn, attempted_rpn);
}

#[test]
fn test_single_value() {
    let standard_notation = "A".split_ascii_whitespace().collect();
    let attempted_rpn: Vec<&str> = "A".split_ascii_whitespace().collect();

    let rpn = converter().remove_parenthesis(standard_notation).unwrap();

    assert_eq!(rpn, attempted_rpn);
}

#[test]
fn test_unary_chain_kept_in_encounter_order() {
    let standard_notation = "! ! A + B".split_ascii_whitespace().collect();
    let attempted_rpn: Vec<&str> = "A ! ! B +".split_ascii_whitespace().collect();

    let rpn = converter().remove_parenthesis(standard_notation).unwrap();

    assert_eq!(rpn, attempted_rpn);
}
