//! The evaluator: strict, recursive, type-checked reduction of a tree to a
//! fully evaluated tree under a coordinate.
//!
//! Two specifications describe it. `eval_det` is a function: it gives the
//! one result of evaluating a tree with no `Random` node. `eval_rel` is a
//! relation: it describes every admissible result, letting each `Random`
//! node stand for some fresh scalar in `[-UNIT, UNIT)`. The executable
//! `evaluate` satisfies both: it always meets the relation, and on
//! `Random`-free trees it returns exactly `eval_det`.

use vstd::prelude::*;

use crate::fixed::UNIT;
use crate::fixed::fx_add;
use crate::fixed::fx_mul;
use crate::fixed::fx_rem;
use crate::fixed::fixed_add;
use crate::fixed::fixed_mul;
use crate::fixed::fixed_rem;
use crate::node::EvalError;
use crate::node::Node;
use crate::node::Vector2;
use crate::node::has_random;
use crate::sample::sample_scalar;

verus! {

/// The result of `Add` on two evaluated operands: their saturating
/// fixed-point sum if both are numbers, the type error carrying both
/// otherwise.
pub open spec fn combine_add(l: Node, r: Node) -> Result<Node, EvalError> {
    match (l, r) {
        (Node::Number(a), Node::Number(b)) => Ok(Node::Number(fx_add(a as int, b as int) as i64)),
        (a, b) => Err(EvalError::AddError(a, b)),
    }
}

/// The result of `Mul` on two evaluated operands.
pub open spec fn combine_mul(l: Node, r: Node) -> Result<Node, EvalError> {
    match (l, r) {
        (Node::Number(a), Node::Number(b)) => Ok(Node::Number(fx_mul(a as int, b as int) as i64)),
        (a, b) => Err(EvalError::MulError(a, b)),
    }
}

/// The result of `Fmodf` on two evaluated operands.
pub open spec fn combine_fmodf(l: Node, r: Node) -> Result<Node, EvalError> {
    match (l, r) {
        (Node::Number(a), Node::Number(b)) => Ok(Node::Number(fx_rem(a as int, b as int) as i64)),
        (a, b) => Err(EvalError::FmodfError(a, b)),
    }
}

/// The result of `GreaterThan` on two evaluated operands.
pub open spec fn combine_gt(l: Node, r: Node) -> Result<Node, EvalError> {
    match (l, r) {
        (Node::Number(a), Node::Number(b)) => Ok(Node::Boolean(a > b)),
        (a, b) => Err(EvalError::GreaterThanError(a, b)),
    }
}

/// Error propagation around `combine_add`: the left error wins, then the
/// right.
pub open spec fn eval_add(rx: Result<Node, EvalError>, ry: Result<Node, EvalError>) -> Result<
    Node,
    EvalError,
> {
    match rx {
        Err(e) => Err(e),
        Ok(a) => match ry {
            Err(e) => Err(e),
            Ok(b) => combine_add(a, b),
        },
    }
}

/// Error propagation around `combine_mul`.
pub open spec fn eval_mul(rx: Result<Node, EvalError>, ry: Result<Node, EvalError>) -> Result<
    Node,
    EvalError,
> {
    match rx {
        Err(e) => Err(e),
        Ok(a) => match ry {
            Err(e) => Err(e),
            Ok(b) => combine_mul(a, b),
        },
    }
}

/// Error propagation around `combine_fmodf`.
pub open spec fn eval_fmodf(rx: Result<Node, EvalError>, ry: Result<Node, EvalError>) -> Result<
    Node,
    EvalError,
> {
    match rx {
        Err(e) => Err(e),
        Ok(a) => match ry {
            Err(e) => Err(e),
            Ok(b) => combine_fmodf(a, b),
        },
    }
}

/// Error propagation around `combine_gt`.
pub open spec fn eval_gt(rx: Result<Node, EvalError>, ry: Result<Node, EvalError>) -> Result<
    Node,
    EvalError,
> {
    match rx {
        Err(e) => Err(e),
        Ok(a) => match ry {
            Err(e) => Err(e),
            Ok(b) => combine_gt(a, b),
        },
    }
}

/// The result of `IfThenElse` from its three evaluated sub-results, in
/// evaluation order: condition, then-branch, else-branch. All three are
/// evaluated before the condition is inspected; the selected branch is
/// returned verbatim, with no check that the branches share a shape.
pub open spec fn eval_if(
    rc: Result<Node, EvalError>,
    rt: Result<Node, EvalError>,
    re: Result<Node, EvalError>,
) -> Result<Node, EvalError> {
    match rc {
        Err(e) => Err(e),
        Ok(c) => match rt {
            Err(e) => Err(e),
            Ok(t) => match re {
                Err(e) => Err(e),
                Ok(el) => match c {
                    Node::Boolean(b) => if b {
                        Ok(t)
                    } else {
                        Ok(el)
                    },
                    _ => Err(EvalError::IfThenElseError(c, t, el)),
                },
            },
        },
    }
}

/// The result of `Triple` from its three evaluated children, in order; the
/// children's shapes are not checked.
pub open spec fn eval_triple(
    ra: Result<Node, EvalError>,
    rb: Result<Node, EvalError>,
    rc: Result<Node, EvalError>,
) -> Result<Node, EvalError> {
    match ra {
        Err(e) => Err(e),
        Ok(a) => match rb {
            Err(e) => Err(e),
            Ok(b) => match rc {
                Err(e) => Err(e),
                Ok(c) => Ok(Node::Triple(Box::new(a), Box::new(b), Box::new(c))),
            },
        },
    }
}

/// The one result of evaluating a `Random`-free tree at `(u, v)`.
///
/// On a tree holding `Random` this function is left unspecified (its
/// `Random` arm is an arbitrary value): `evaluate` promises to match it
/// only where `has_random` is false.
pub open spec fn eval_det(n: Node, u: i64, v: i64) -> Result<Node, EvalError>
    decreases n,
{
    match n {
        Node::X => Ok(Node::Number(u)),
        Node::Y => Ok(Node::Number(v)),
        Node::Number(a) => Ok(Node::Number(a)),
        Node::Boolean(b) => Ok(Node::Boolean(b)),
        Node::Rule(i) => Err(EvalError::RuleError(i)),
        Node::Rand => Err(EvalError::RandError),
        Node::Random => arbitrary(),
        Node::Add(x, y) => eval_add(eval_det(*x, u, v), eval_det(*y, u, v)),
        Node::Mul(x, y) => eval_mul(eval_det(*x, u, v), eval_det(*y, u, v)),
        Node::Fmodf(x, y) => eval_fmodf(eval_det(*x, u, v), eval_det(*y, u, v)),
        Node::GreaterThan(x, y) => eval_gt(eval_det(*x, u, v), eval_det(*y, u, v)),
        Node::IfThenElse(c, t, e) => eval_if(
            eval_det(*c, u, v),
            eval_det(*t, u, v),
            eval_det(*e, u, v),
        ),
        Node::Triple(a, b, c) => eval_triple(
            eval_det(*a, u, v),
            eval_det(*b, u, v),
            eval_det(*c, u, v),
        ),
    }
}

/// Whether a scalar is a possible fresh sample: in `[-UNIT, UNIT)`.
pub open spec fn in_sample_range(q: i64) -> bool {
    -UNIT <= q < UNIT
}

/// Always true. Its only purpose is to name an evaluation result, so that
/// the quantifiers inside `eval_rel` have a stable trigger: a proof offers
/// a witness by mentioning `outcome` of a concrete result.
pub open spec fn outcome(r: Result<Node, EvalError>) -> bool {
    true
}

/// Whether `r` is an admissible result of evaluating `n` at `(u, v)`: the
/// result of the deterministic rules, with each `Random` node standing for
/// some fresh scalar in `[-UNIT, UNIT)`. Operands are evaluated left to
/// right; the first error ends the evaluation, so sub-trees to the right of
/// an error are not constrained.
pub open spec fn eval_rel(n: Node, u: i64, v: i64, r: Result<Node, EvalError>) -> bool
    decreases n,
{
    match n {
        Node::X => r == Ok::<Node, EvalError>(Node::Number(u)),
        Node::Y => r == Ok::<Node, EvalError>(Node::Number(v)),
        Node::Number(a) => r == Ok::<Node, EvalError>(Node::Number(a)),
        Node::Boolean(b) => r == Ok::<Node, EvalError>(Node::Boolean(b)),
        Node::Rule(i) => r == Err::<Node, EvalError>(EvalError::RuleError(i)),
        Node::Rand => r == Err::<Node, EvalError>(EvalError::RandError),
        Node::Random => exists|q: i64|
            #[trigger] in_sample_range(q) && r == Ok::<Node, EvalError>(Node::Number(q)),
        Node::Add(x, y) => {
            ||| (exists|rx: Result<Node, EvalError>|
                #[trigger] outcome(rx) && eval_rel(*x, u, v, rx) && rx is Err && r == rx)
            ||| (exists|rx: Result<Node, EvalError>, ry: Result<Node, EvalError>|
                #![trigger outcome(rx), outcome(ry)]
                eval_rel(*x, u, v, rx) && rx is Ok && eval_rel(*y, u, v, ry) && r == eval_add(
                    rx,
                    ry,
                ))
        },
        Node::Mul(x, y) => {
            ||| (exists|rx: Result<Node, EvalError>|
                #[trigger] outcome(rx) && eval_rel(*x, u, v, rx) && rx is Err && r == rx)
            ||| (exists|rx: Result<Node, EvalError>, ry: Result<Node, EvalError>|
                #![trigger outcome(rx), outcome(ry)]
                eval_rel(*x, u, v, rx) && rx is Ok && eval_rel(*y, u, v, ry) && r == eval_mul(
                    rx,
                    ry,
                ))
        },
        Node::Fmodf(x, y) => {
            ||| (exists|rx: Result<Node, EvalError>|
                #[trigger] outcome(rx) && eval_rel(*x, u, v, rx) && rx is Err && r == rx)
            ||| (exists|rx: Result<Node, EvalError>, ry: Result<Node, EvalError>|
                #![trigger outcome(rx), outcome(ry)]
                eval_rel(*x, u, v, rx) && rx is Ok && eval_rel(*y, u, v, ry) && r == eval_fmodf(
                    rx,
                    ry,
                ))
        },
        Node::GreaterThan(x, y) => {
            ||| (exists|rx: Result<Node, EvalError>|
                #[trigger] outcome(rx) && eval_rel(*x, u, v, rx) && rx is Err && r == rx)
            ||| (exists|rx: Result<Node, EvalError>, ry: Result<Node, EvalError>|
                #![trigger outcome(rx), outcome(ry)]
                eval_rel(*x, u, v, rx) && rx is Ok && eval_rel(*y, u, v, ry) && r == eval_gt(
                    rx,
                    ry,
                ))
        },
        Node::IfThenElse(c, t, e) => {
            ||| (exists|rc: Result<Node, EvalError>|
                #[trigger] outcome(rc) && eval_rel(*c, u, v, rc) && rc is Err && r == rc)
            ||| (exists|rc: Result<Node, EvalError>, rt: Result<Node, EvalError>|
                #![trigger outcome(rc), outcome(rt)]
                eval_rel(*c, u, v, rc) && rc is Ok && eval_rel(*t, u, v, rt) && rt is Err && r
                    == rt)
            ||| (exists|
                rc: Result<Node, EvalError>,
                rt: Result<Node, EvalError>,
                re: Result<Node, EvalError>,
            |
                #![trigger outcome(rc), outcome(rt), outcome(re)]
                eval_rel(*c, u, v, rc) && rc is Ok && eval_rel(*t, u, v, rt) && rt is Ok
                    && eval_rel(*e, u, v, re) && r == eval_if(rc, rt, re))
        },
        Node::Triple(a, b, c) => {
            ||| (exists|ra: Result<Node, EvalError>|
                #[trigger] outcome(ra) && eval_rel(*a, u, v, ra) && ra is Err && r == ra)
            ||| (exists|ra: Result<Node, EvalError>, rb: Result<Node, EvalError>|
                #![trigger outcome(ra), outcome(rb)]
                eval_rel(*a, u, v, ra) && ra is Ok && eval_rel(*b, u, v, rb) && rb is Err && r
                    == rb)
            ||| (exists|
                ra: Result<Node, EvalError>,
                rb: Result<Node, EvalError>,
                rc: Result<Node, EvalError>,
            |
                #![trigger outcome(ra), outcome(rb), outcome(rc)]
                eval_rel(*a, u, v, ra) && ra is Ok && eval_rel(*b, u, v, rb) && rb is Ok
                    && eval_rel(*c, u, v, rc) && r == eval_triple(ra, rb, rc))
        },
    }
}

/// Evaluate a tree at a coordinate: terminals resolve to themselves or to
/// the coordinate's components, `Random` to a fresh scalar in
/// `[-UNIT, UNIT)`, placeholders to their errors, and operators reduce
/// their strictly evaluated operands, failing with the operator's type
/// error when an operand has the wrong shape.
pub fn evaluate(node: &Node, uv: Vector2) -> (r: Result<Node, EvalError>)
    ensures
        eval_rel(*node, uv.x, uv.y, r),
        !has_random(*node) ==> r == eval_det(*node, uv.x, uv.y),
    decreases node,
{
    match node {
        Node::X => Ok(Node::Number(uv.x)),
        Node::Y => Ok(Node::Number(uv.y)),
        Node::Number(a) => Ok(Node::Number(*a)),
        Node::Boolean(b) => Ok(Node::Boolean(*b)),
        Node::Rule(i) => Err(EvalError::RuleError(*i)),
        Node::Rand => Err(EvalError::RandError),
        Node::Random => {
            let q = sample_scalar();
            proof {
                assert(in_sample_range(q));
            }
            Ok(Node::Number(q))
        },
        Node::Add(x, y) => {
            let va = match evaluate(&**x, uv) {
                Ok(n) => n,
                Err(e) => {
                    proof {
                        assert(outcome(Err::<Node, EvalError>(e)));
                    }
                    return Err(e);
                },
            };
            let vb = match evaluate(&**y, uv) {
                Ok(n) => n,
                Err(e) => {
                    proof {
                        assert(outcome(Ok::<Node, EvalError>(va)));
                        assert(outcome(Err::<Node, EvalError>(e)));
                    }
                    return Err(e);
                },
            };
            proof {
                assert(outcome(Ok::<Node, EvalError>(va)));
                assert(outcome(Ok::<Node, EvalError>(vb)));
            }
            match (va, vb) {
                (Node::Number(a), Node::Number(b)) => Ok(Node::Number(fixed_add(a, b))),
                (a, b) => Err(EvalError::AddError(a, b)),
            }
        },
        Node::Mul(x, y) => {
            let va = match evaluate(&**x, uv) {
                Ok(n) => n,
                Err(e) => {
                    proof {
                        assert(outcome(Err::<Node, EvalError>(e)));
                    }
                    return Err(e);
                },
            };
            let vb = match evaluate(&**y, uv) {
                Ok(n) => n,
                Err(e) => {
                    proof {
                        assert(outcome(Ok::<Node, EvalError>(va)));
                        assert(outcome(Err::<Node, EvalError>(e)));
                    }
                    return Err(e);
                },
            };
            proof {
                assert(outcome(Ok::<Node, EvalError>(va)));
                assert(outcome(Ok::<Node, EvalError>(vb)));
            }
            match (va, vb) {
                (Node::Number(a), Node::Number(b)) => Ok(Node::Number(fixed_mul(a, b))),
                (a, b) => Err(EvalError::MulError(a, b)),
            }
        },
        Node::Fmodf(x, y) => {
            let va = match evaluate(&**x, uv) {
                Ok(n) => n,
                Err(e) => {
                    proof {
                        assert(outcome(Err::<Node, EvalError>(e)));
                    }
                    return Err(e);
                },
            };
            let vb = match evaluate(&**y, uv) {
                Ok(n) => n,
                Err(e) => {
                    proof {
                        assert(outcome(Ok::<Node, EvalError>(va)));
                        assert(outcome(Err::<Node, EvalError>(e)));
                    }
                    return Err(e);
                },
            };
            proof {
                assert(outcome(Ok::<Node, EvalError>(va)));
                assert(outcome(Ok::<Node, EvalError>(vb)));
            }
            match (va, vb) {
                (Node::Number(a), Node::Number(b)) => Ok(Node::Number(fixed_rem(a, b))),
                (a, b) => Err(EvalError::FmodfError(a, b)),
            }
        },
        Node::GreaterThan(x, y) => {
            let va = match evaluate(&**x, uv) {
                Ok(n) => n,
                Err(e) => {
                    proof {
                        assert(outcome(Err::<Node, EvalError>(e)));
                    }
                    return Err(e);
                },
            };
            let vb = match evaluate(&**y, uv) {
                Ok(n) => n,
                Err(e) => {
                    proof {
                        assert(outcome(Ok::<Node, EvalError>(va)));
                        assert(outcome(Err::<Node, EvalError>(e)));
                    }
                    return Err(e);
                },
            };
            proof {
                assert(outcome(Ok::<Node, EvalError>(va)));
                assert(outcome(Ok::<Node, EvalError>(vb)));
            }
            match (va, vb) {
                (Node::Number(a), Node::Number(b)) => Ok(Node::Boolean(a > b)),
                (a, b) => Err(EvalError::GreaterThanError(a, b)),
            }
        },
        Node::IfThenElse(c, t, e) => {
            let vc = match evaluate(&**c, uv) {
                Ok(n) => n,
                Err(err) => {
                    proof {
                        assert(outcome(Err::<Node, EvalError>(err)));
                    }
                    return Err(err);
                },
            };
            let vt = match evaluate(&**t, uv) {
                Ok(n) => n,
                Err(err) => {
                    proof {
                        assert(outcome(Ok::<Node, EvalError>(vc)));
                        assert(outcome(Err::<Node, EvalError>(err)));
                    }
                    return Err(err);
                },
            };
            let ve = match evaluate(&**e, uv) {
                Ok(n) => n,
                Err(err) => {
                    proof {
                        assert(outcome(Ok::<Node, EvalError>(vc)));
                        assert(outcome(Ok::<Node, EvalError>(vt)));
                        assert(outcome(Err::<Node, EvalError>(err)));
                    }
                    return Err(err);
                },
            };
            proof {
                assert(outcome(Ok::<Node, EvalError>(vc)));
                assert(outcome(Ok::<Node, EvalError>(vt)));
                assert(outcome(Ok::<Node, EvalError>(ve)));
            }
            match vc {
                Node::Boolean(b) => if b {
                    Ok(vt)
                } else {
                    Ok(ve)
                },
                other => Err(EvalError::IfThenElseError(other, vt, ve)),
            }
        },
        Node::Triple(a, b, c) => {
            let va = match evaluate(&**a, uv) {
                Ok(n) => n,
                Err(e) => {
                    proof {
                        assert(outcome(Err::<Node, EvalError>(e)));
                    }
                    return Err(e);
                },
            };
            let vb = match evaluate(&**b, uv) {
                Ok(n) => n,
                Err(e) => {
                    proof {
                        assert(outcome(Ok::<Node, EvalError>(va)));
                        assert(outcome(Err::<Node, EvalError>(e)));
                    }
                    return Err(e);
                },
            };
            let vc = match evaluate(&**c, uv) {
                Ok(n) => n,
                Err(e) => {
                    proof {
                        assert(outcome(Ok::<Node, EvalError>(va)));
                        assert(outcome(Ok::<Node, EvalError>(vb)));
                        assert(outcome(Err::<Node, EvalError>(e)));
                    }
                    return Err(e);
                },
            };
            proof {
                assert(outcome(Ok::<Node, EvalError>(va)));
                assert(outcome(Ok::<Node, EvalError>(vb)));
                assert(outcome(Ok::<Node, EvalError>(vc)));
            }
            Ok(Node::Triple(Box::new(va), Box::new(vb), Box::new(vc)))
        },
    }
}

} // verus!
