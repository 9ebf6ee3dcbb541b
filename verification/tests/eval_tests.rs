use randomart::EvalError;
use randomart::Node;
use randomart::UNIT;
use randomart::Vector2;
use randomart::evaluate;

fn at(x: i64, y: i64) -> Vector2 {
    Vector2 { x, y }
}

fn half() -> i64 {
    UNIT / 2
}

#[test]
fn add_of_literals_is_fixed_sum() {
    let n = Node::add(Node::Number(half()), Node::Number(half()));
    assert_eq!(evaluate(&n, at(0, 0)), Ok(Node::Number(UNIT)));
}

#[test]
fn mul_of_literals_is_fixed_product() {
    let n = Node::mul(Node::Number(half()), Node::Number(half()));
    assert_eq!(evaluate(&n, at(0, 0)), Ok(Node::Number(UNIT / 4)));
}

#[test]
fn fmodf_of_literals_is_dividend_sign_remainder() {
    let n = Node::fmodf(Node::Number(-5), Node::Number(3));
    assert_eq!(evaluate(&n, at(0, 0)), Ok(Node::Number(-2)));
    let m = Node::fmodf(Node::Number(half()), Node::Number(-half()));
    assert_eq!(evaluate(&m, at(0, 0)), Ok(Node::Number(0)));
}

#[test]
fn fmodf_by_zero_is_zero() {
    let n = Node::fmodf(Node::Number(7), Node::Number(0));
    assert_eq!(evaluate(&n, at(0, 0)), Ok(Node::Number(0)));
}

#[test]
fn greater_than_of_literals_is_comparison() {
    let n = Node::gt(Node::Number(2), Node::Number(1));
    assert_eq!(evaluate(&n, at(0, 0)), Ok(Node::Boolean(true)));
    let m = Node::gt(Node::Number(1), Node::Number(2));
    assert_eq!(evaluate(&m, at(0, 0)), Ok(Node::Boolean(false)));
}

#[test]
fn add_saturates_at_the_i64_bounds() {
    let n = Node::add(Node::Number(i64::MAX), Node::Number(1));
    assert_eq!(evaluate(&n, at(0, 0)), Ok(Node::Number(i64::MAX)));
    let m = Node::add(Node::Number(i64::MIN), Node::Number(-1));
    assert_eq!(evaluate(&m, at(0, 0)), Ok(Node::Number(i64::MIN)));
}

#[test]
fn coordinates_resolve_to_components() {
    assert_eq!(evaluate(&Node::X, at(123, -456)), Ok(Node::Number(123)));
    assert_eq!(evaluate(&Node::Y, at(123, -456)), Ok(Node::Number(-456)));
}

#[test]
fn literals_evaluate_to_themselves() {
    assert_eq!(evaluate(&Node::Number(7), at(1, 2)), Ok(Node::Number(7)));
    assert_eq!(evaluate(&Node::Boolean(true), at(1, 2)), Ok(Node::Boolean(true)));
}

#[test]
fn conditional_true_returns_then_branch() {
    let n = Node::ifthenelse(Node::Boolean(true), Node::Number(1), Node::Number(2));
    assert_eq!(evaluate(&n, at(0, 0)), Ok(Node::Number(1)));
}

#[test]
fn conditional_false_returns_else_branch() {
    let n = Node::ifthenelse(Node::Boolean(false), Node::Number(1), Node::Number(2));
    assert_eq!(evaluate(&n, at(0, 0)), Ok(Node::Number(2)));
}

#[test]
fn conditional_evaluates_unchosen_branch_eagerly() {
    // The else-branch is evaluated even when the condition is true, so its
    // placeholder error wins over the selected then-branch.
    let n = Node::ifthenelse(Node::Boolean(true), Node::Number(1), Node::Rule(0));
    assert_eq!(evaluate(&n, at(0, 0)), Err(EvalError::RuleError(0)));
}

#[test]
fn conditional_with_non_boolean_condition_fails() {
    let n = Node::ifthenelse(Node::Number(3), Node::Number(1), Node::Number(2));
    assert_eq!(
        evaluate(&n, at(0, 0)),
        Err(EvalError::IfThenElseError(Node::Number(3), Node::Number(1), Node::Number(2)))
    );
}

#[test]
fn add_type_error_carries_reduced_operands() {
    let triple = Node::triple(Node::X, Node::Y, Node::Number(0));
    let n = Node::add(triple, Node::Number(UNIT));
    let reduced = Node::triple(Node::Number(5), Node::Number(6), Node::Number(0));
    assert_eq!(
        evaluate(&n, at(5, 6)),
        Err(EvalError::AddError(reduced, Node::Number(UNIT)))
    );
}

#[test]
fn mul_type_error_carries_reduced_operands() {
    let n = Node::mul(Node::Boolean(true), Node::Number(1));
    assert_eq!(
        evaluate(&n, at(0, 0)),
        Err(EvalError::MulError(Node::Boolean(true), Node::Number(1)))
    );
}

#[test]
fn fmodf_type_error_carries_reduced_operands() {
    let n = Node::fmodf(Node::Number(1), Node::Boolean(false));
    assert_eq!(
        evaluate(&n, at(0, 0)),
        Err(EvalError::FmodfError(Node::Number(1), Node::Boolean(false)))
    );
}

#[test]
fn greater_than_type_error_carries_reduced_operands() {
    let n = Node::gt(Node::Boolean(true), Node::Boolean(false));
    assert_eq!(
        evaluate(&n, at(0, 0)),
        Err(EvalError::GreaterThanError(Node::Boolean(true), Node::Boolean(false)))
    );
}

#[test]
fn rule_placeholder_always_fails() {
    assert_eq!(evaluate(&Node::Rule(3), at(0, 0)), Err(EvalError::RuleError(3)));
    assert_eq!(evaluate(&Node::Rule(3), at(-UNIT, UNIT)), Err(EvalError::RuleError(3)));
}

#[test]
fn rand_placeholder_always_fails() {
    assert_eq!(evaluate(&Node::Rand, at(0, 0)), Err(EvalError::RandError));
    assert_eq!(evaluate(&Node::Rand, at(UNIT, -UNIT)), Err(EvalError::RandError));
}

#[test]
fn left_operand_error_wins() {
    let n = Node::add(Node::Rule(1), Node::Rand);
    assert_eq!(evaluate(&n, at(0, 0)), Err(EvalError::RuleError(1)));
}

#[test]
fn random_evaluates_to_fresh_number_in_range() {
    for _ in 0..100 {
        match evaluate(&Node::Random, at(0, 0)) {
            Ok(Node::Number(q)) => {
                assert!(-UNIT <= q && q < UNIT);
            },
            other => panic!("expected a number, got {:?}", other),
        }
    }
}

#[test]
fn triple_evaluates_children_in_place() {
    let n = Node::triple(Node::X, Node::Y, Node::Boolean(false));
    let expect = Node::triple(Node::Number(1), Node::Number(2), Node::Boolean(false));
    assert_eq!(evaluate(&n, at(1, 2)), Ok(expect));
}
