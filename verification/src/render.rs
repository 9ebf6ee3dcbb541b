//! The render adapter: evaluate a tree at one coordinate and shape the
//! result into a color.
//!
//! A render succeeds only when the evaluated tree is a `Triple` of three
//! `Number`s; any evaluation error or any other shape is a failure for
//! that coordinate, returned as `None` (the caller treats it as fatal).
//! The channel mapping from a fixed-point scalar to an 8-bit value is
//! `fixed::channel_of`.

use vstd::prelude::*;

use crate::eval::eval_det;
use crate::eval::eval_rel;
use crate::eval::evaluate;
use crate::eval::outcome;
use crate::fixed::channel_of;
use crate::fixed::channel_spec;
use crate::node::EvalError;
use crate::node::Node;
use crate::node::Vector2;
use crate::node::Vector3;
use crate::node::has_random;

verus! {

/// The one render result of a `Random`-free tree at `(u, v)`: the triple
/// of scalars if the tree evaluates to a `Triple` of three `Number`s,
/// nothing otherwise.
pub open spec fn render_det(n: Node, u: i64, v: i64) -> Option<Vector3> {
    match eval_det(n, u, v) {
        Ok(m) => match m {
            Node::Triple(a, b, c) => match (*a, *b, *c) {
                (Node::Number(x), Node::Number(y), Node::Number(z)) => Some(
                    Vector3 { x, y, z },
                ),
                _ => None,
            },
            _ => None,
        },
        Err(_) => None,
    }
}

/// The one pixel of a `Random`-free tree at `(u, v)`: the render result
/// with each component sent through the channel mapping.
pub open spec fn render_pixel_det(n: Node, u: i64, v: i64) -> Option<(u8, u8, u8)> {
    match render_det(n, u, v) {
        Some(c3) => Some(
            (
                channel_spec(c3.x as int) as u8,
                channel_spec(c3.y as int) as u8,
                channel_spec(c3.z as int) as u8,
            ),
        ),
        None => None,
    }
}

/// Evaluate a tree at a coordinate and require the result to be a `Triple`
/// of three `Number`s; return those three scalars, or `None` on any
/// evaluation error or any other shape.
pub fn eval_render(node: &Node, uv: Vector2) -> (r: Option<Vector3>)
    ensures
        !has_random(*node) ==> r == render_det(*node, uv.x, uv.y),
        r matches Some(c3) ==> eval_rel(
            *node,
            uv.x,
            uv.y,
            Ok(
                Node::Triple(
                    Box::new(Node::Number(c3.x)),
                    Box::new(Node::Number(c3.y)),
                    Box::new(Node::Number(c3.z)),
                ),
            ),
        ),
{
    match evaluate(node, uv) {
        Ok(m) => match m {
            Node::Triple(a, b, c) => match (*a, *b, *c) {
                (Node::Number(x), Node::Number(y), Node::Number(z)) => Some(
                    Vector3 { x, y, z },
                ),
                _ => None,
            },
            _ => None,
        },
        Err(_) => None,
    }
}

/// Render one pixel: evaluate the tree at the coordinate and map each
/// component of the resulting triple through the channel mapping. `None`
/// on any evaluation error or wrong shape.
pub fn render(node: &Node, uv: Vector2) -> (r: Option<(u8, u8, u8)>)
    ensures
        !has_random(*node) ==> r == render_pixel_det(*node, uv.x, uv.y),
        r matches Some(px) ==> exists|res: Result<Node, EvalError>|
            #[trigger] outcome(res) && eval_rel(*node, uv.x, uv.y, res) && (res matches Ok(m)
                && (m matches Node::Triple(a, b, c) && (exists|x: i64, y: i64, z: i64|
                #![trigger channel_spec(x as int), channel_spec(y as int), channel_spec(z as int)]
                *a == Node::Number(x) && *b == Node::Number(y) && *c == Node::Number(z) && px == (
                    channel_spec(x as int) as u8,
                    channel_spec(y as int) as u8,
                    channel_spec(z as int) as u8,
                )))),
{
    match eval_render(node, uv) {
        Some(c3) => {
            let pr = channel_of(c3.x);
            let pg = channel_of(c3.y);
            let pb = channel_of(c3.z);
            proof {
                assert(outcome(
                    Ok::<Node, EvalError>(
                        Node::Triple(
                            Box::new(Node::Number(c3.x)),
                            Box::new(Node::Number(c3.y)),
                            Box::new(Node::Number(c3.z)),
                        ),
                    ),
                ));
            }
            Some((pr, pg, pb))
        },
        None => None,
    }
}

} // verus!
