use randomart::EvalError;
use randomart::Node;
use randomart::UNIT;
use randomart::Vector2;
use randomart::Vector3;
use randomart::channel_of;
use randomart::eval_render;
use randomart::parse_number;
use randomart::parse_number_isize;
use randomart::pixel_coord;
use randomart::render;

fn checkerboard_tree() -> Node {
    // If(GreaterThan(Mul(X, Y), 0), Triple(X, Y, 1), Triple(X%Y, X%Y, X%Y))
    Node::ifthenelse(
        Node::gt(Node::mul(Node::X, Node::Y), Node::Number(0)),
        Node::triple(Node::X, Node::Y, Node::Number(UNIT)),
        Node::triple(
            Node::fmodf(Node::X, Node::Y),
            Node::fmodf(Node::X, Node::Y),
            Node::fmodf(Node::X, Node::Y),
        ),
    )
}

#[test]
fn render_scenario_positive_quadrant() {
    let half = UNIT / 2;
    let tree = checkerboard_tree();
    let uv = Vector2 { x: half, y: half };
    assert_eq!(eval_render(&tree, uv), Some(Vector3 { x: half, y: half, z: UNIT }));
}

#[test]
fn render_scenario_mixed_quadrant() {
    let half = UNIT / 2;
    let tree = checkerboard_tree();
    let uv = Vector2 { x: half, y: -half };
    assert_eq!(eval_render(&tree, uv), Some(Vector3 { x: 0, y: 0, z: 0 }));
}

#[test]
fn render_maps_channels() {
    let tree = checkerboard_tree();
    let half = UNIT / 2;
    let uv = Vector2 { x: half, y: half };
    // (0.5 + 1) * 127.5 rounds to 191; (1 + 1) * 127.5 is 255.
    assert_eq!(render(&tree, uv), Some((191, 191, 255)));
}

#[test]
fn render_rejects_wrong_shape() {
    let uv = Vector2 { x: 0, y: 0 };
    assert_eq!(eval_render(&Node::Number(3), uv), None);
    assert_eq!(render(&Node::Boolean(true), uv), None);
}

#[test]
fn render_rejects_evaluation_error() {
    let uv = Vector2 { x: 0, y: 0 };
    assert_eq!(eval_render(&Node::Rule(0), uv), None);
}

#[test]
fn eval_render_requires_numbers_in_triple() {
    let uv = Vector2 { x: 0, y: 0 };
    let tree = Node::triple(Node::Number(1), Node::Boolean(true), Node::Number(2));
    assert_eq!(eval_render(&tree, uv), None);
}

#[test]
fn channel_mapping_fixes_the_endpoints() {
    assert_eq!(channel_of(-UNIT), 0);
    assert_eq!(channel_of(UNIT), 255);
    assert_eq!(channel_of(0), 128);
}

#[test]
fn channel_mapping_clamps_out_of_range_values() {
    assert_eq!(channel_of(-3 * UNIT), 0);
    assert_eq!(channel_of(i64::MIN), 0);
    assert_eq!(channel_of(3 * UNIT), 255);
    assert_eq!(channel_of(i64::MAX), 255);
}

#[test]
fn pixel_coordinates_span_the_square() {
    assert_eq!(pixel_coord(0, 300), -UNIT);
    assert_eq!(pixel_coord(150, 300), 0);
    assert_eq!(pixel_coord(299, 300), 65099);
}

#[test]
fn parse_number_accepts_decimals() {
    assert_eq!(parse_number("300"), Ok(300));
    assert_eq!(parse_number("+12"), Ok(12));
    assert_eq!(parse_number("0"), Ok(0));
    assert_eq!(parse_number("4294967295"), Ok(u32::MAX));
}

#[test]
fn parse_number_rejects_junk() {
    assert_eq!(parse_number("abc"), Err("Not a number"));
    assert_eq!(parse_number(""), Err("Not a number"));
    assert_eq!(parse_number("+"), Err("Not a number"));
    assert_eq!(parse_number("-1"), Err("Not a number"));
    assert_eq!(parse_number("12x"), Err("Not a number"));
    assert_eq!(parse_number("4294967296"), Err("Not a number"));
    assert_eq!(parse_number("99999999999999999999"), Err("Not a number"));
}

#[test]
fn parse_number_isize_accepts_signed_decimals() {
    assert_eq!(parse_number_isize("10"), Ok(10));
    assert_eq!(parse_number_isize("-10"), Ok(-10));
    assert_eq!(parse_number_isize("+7"), Ok(7));
    assert_eq!(parse_number_isize("9223372036854775807"), Ok(isize::MAX));
    assert_eq!(parse_number_isize("-9223372036854775808"), Ok(isize::MIN));
}

#[test]
fn parse_number_isize_rejects_junk() {
    assert_eq!(parse_number_isize(""), Err("Not a number"));
    assert_eq!(parse_number_isize("-"), Err("Not a number"));
    assert_eq!(parse_number_isize("--1"), Err("Not a number"));
    assert_eq!(parse_number_isize("1.5"), Err("Not a number"));
    assert_eq!(parse_number_isize("9223372036854775808"), Err("Not a number"));
}

#[test]
fn evaluation_error_kinds_are_distinct() {
    let e = EvalError::AddError(Node::X, Node::Y);
    assert_ne!(e, EvalError::MulError(Node::X, Node::Y));
    assert_ne!(e, EvalError::RandError);
}
