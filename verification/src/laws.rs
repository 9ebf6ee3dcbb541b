//! Laws of the evaluator, stated over its deterministic specification
//! `eval_det` (which `evaluate` returns exactly on `Random`-free trees)
//! and over the admissibility relation `eval_rel`.

use vstd::prelude::*;

use crate::eval::eval_det;
use crate::eval::eval_rel;
use crate::expand::node_always;
use crate::expand::rule_always;
use crate::fixed::UNIT;
use crate::fixed::fx_add;
use crate::fixed::fx_mul;
use crate::fixed::fx_rem;
use crate::grammar::Rule;
use crate::grammar::sum_probs;
use crate::node::EvalError;
use crate::node::Node;
use crate::node::rules_in_bounds;

verus! {

/// Law: on two literal numbers, `Add` evaluates to their fixed-point sum,
/// `Mul` to their fixed-point product, `Fmodf` to their dividend-sign
/// remainder, and `GreaterThan` to the boolean of their comparison — at
/// every coordinate.
pub proof fn lemma_literal_arithmetic(a: i64, b: i64, u: i64, v: i64)
    ensures
        eval_det(Node::Add(Box::new(Node::Number(a)), Box::new(Node::Number(b))), u, v) == Ok::<
            Node,
            EvalError,
        >(Node::Number(fx_add(a as int, b as int) as i64)),
        eval_det(Node::Mul(Box::new(Node::Number(a)), Box::new(Node::Number(b))), u, v) == Ok::<
            Node,
            EvalError,
        >(Node::Number(fx_mul(a as int, b as int) as i64)),
        eval_det(Node::Fmodf(Box::new(Node::Number(a)), Box::new(Node::Number(b))), u, v) == Ok::<
            Node,
            EvalError,
        >(Node::Number(fx_rem(a as int, b as int) as i64)),
        eval_det(Node::GreaterThan(Box::new(Node::Number(a)), Box::new(Node::Number(b))), u, v)
            == Ok::<Node, EvalError>(Node::Boolean(a > b)),
{
    assert(eval_det(Node::Number(a), u, v) == Ok::<Node, EvalError>(Node::Number(a)));
    assert(eval_det(Node::Number(b), u, v) == Ok::<Node, EvalError>(Node::Number(b)));
}

/// Law: `X` evaluates to the coordinate's first component and `Y` to its
/// second, as literal numbers, at every coordinate.
pub proof fn lemma_coordinates(u: i64, v: i64)
    ensures
        eval_det(Node::X, u, v) == Ok::<Node, EvalError>(Node::Number(u)),
        eval_det(Node::Y, u, v) == Ok::<Node, EvalError>(Node::Number(v)),
{
}

/// Law: a conditional on a literal `true` returns the then-branch's
/// result. Both branches are evaluated eagerly, so this holds except when
/// the then-branch succeeds and the else-branch fails — then the
/// else-branch's error wins; the `requires` excludes exactly those inputs
/// (for example `e == Node::Rule(0)` with any succeeding `t`).
pub proof fn lemma_if_true(t: Node, e: Node, u: i64, v: i64)
    requires
        eval_det(t, u, v) is Err || eval_det(e, u, v) is Ok,
    ensures
        eval_det(
            Node::IfThenElse(Box::new(Node::Boolean(true)), Box::new(t), Box::new(e)),
            u,
            v,
        ) == eval_det(t, u, v),
{
    assert(eval_det(Node::Boolean(true), u, v) == Ok::<Node, EvalError>(Node::Boolean(true)));
}

/// Law: a conditional on a literal `false` returns the else-branch's
/// result. Both branches are evaluated eagerly and the then-branch first,
/// so this holds except when the then-branch fails with a different result
/// than the else-branch's — then the then-branch's error wins; the
/// `requires` excludes exactly those inputs (for example
/// `t == Node::Rule(0)` with any succeeding `e`).
pub proof fn lemma_if_false(t: Node, e: Node, u: i64, v: i64)
    requires
        eval_det(t, u, v) is Ok || eval_det(e, u, v) == eval_det(t, u, v),
    ensures
        eval_det(
            Node::IfThenElse(Box::new(Node::Boolean(false)), Box::new(t), Box::new(e)),
            u,
            v,
        ) == eval_det(e, u, v),
{
    assert(eval_det(Node::Boolean(false), u, v) == Ok::<Node, EvalError>(Node::Boolean(false)));
}

/// Law: when the operands of `Add` evaluate to values that are not both
/// numbers, the result is `AddError` carrying both reduced operands — for
/// instance a fully reduced `Triple` and a number.
pub proof fn lemma_add_type_error(x: Node, y: Node, u: i64, v: i64, vx: Node, vy: Node)
    requires
        eval_det(x, u, v) == Ok::<Node, EvalError>(vx),
        eval_det(y, u, v) == Ok::<Node, EvalError>(vy),
        !(vx is Number) || !(vy is Number),
    ensures
        eval_det(Node::Add(Box::new(x), Box::new(y)), u, v) == Err::<Node, EvalError>(
            EvalError::AddError(vx, vy),
        ),
{
}

/// Law: the generation-time placeholders always fail evaluation, whatever
/// the coordinate: `Rule(i)` with `RuleError(i)` and `Rand` with
/// `RandError`. The relation clauses say that no other result is
/// admissible for them even where evaluation draws randomness.
pub proof fn lemma_placeholders_fail(i: usize, u: i64, v: i64, r: Result<Node, EvalError>)
    ensures
        eval_det(Node::Rule(i), u, v) == Err::<Node, EvalError>(EvalError::RuleError(i)),
        eval_det(Node::Rand, u, v) == Err::<Node, EvalError>(EvalError::RandError),
        eval_rel(Node::Rule(i), u, v, r) ==> r == Err::<Node, EvalError>(EvalError::RuleError(i)),
        eval_rel(Node::Rand, u, v, r) ==> r == Err::<Node, EvalError>(EvalError::RandError),
{
}

/// A tree with no `Rule` placeholder always expands, at every depth
/// budget: only rule recursion can run out of budget or fail to be
/// picked. "No `Rule` placeholder" is `rules_in_bounds` against an empty
/// grammar, which no index satisfies.
pub proof fn lemma_rule_free_always_expands(g: Seq<Vec<Rule>>, n: Node, depth: int)
    requires
        rules_in_bounds(n, 0),
    ensures
        node_always(g, n, depth),
    decreases n,
{
    match n {
        Node::GreaterThan(a, b) => {
            lemma_rule_free_always_expands(g, *a, depth);
            lemma_rule_free_always_expands(g, *b, depth);
        },
        Node::Add(a, b) => {
            lemma_rule_free_always_expands(g, *a, depth);
            lemma_rule_free_always_expands(g, *b, depth);
        },
        Node::Mul(a, b) => {
            lemma_rule_free_always_expands(g, *a, depth);
            lemma_rule_free_always_expands(g, *b, depth);
        },
        Node::Fmodf(a, b) => {
            lemma_rule_free_always_expands(g, *a, depth);
            lemma_rule_free_always_expands(g, *b, depth);
        },
        Node::IfThenElse(a, b, c) => {
            lemma_rule_free_always_expands(g, *a, depth);
            lemma_rule_free_always_expands(g, *b, depth);
            lemma_rule_free_always_expands(g, *c, depth);
        },
        Node::Triple(a, b, c) => {
            lemma_rule_free_always_expands(g, *a, depth);
            lemma_rule_free_always_expands(g, *b, depth);
            lemma_rule_free_always_expands(g, *c, depth);
        },
        _ => {},
    }
}

/// Law: expansion of a terminal rule-set cannot fail. When every template
/// of rule-set `entry` holds no `Rule` placeholder and the weights sum to
/// at least `UNIT`, `rule_always` holds at every depth budget of at least
/// one — so `expand_rule` returns a tree whatever the random draws.
pub proof fn lemma_terminal_ruleset_always_expands(g: Seq<Vec<Rule>>, entry: int, depth: int)
    requires
        0 <= entry < g.len(),
        depth >= 1,
        sum_probs(g[entry]@) >= UNIT,
        forall|j: int| 0 <= j < g[entry]@.len() ==> rules_in_bounds((#[trigger] g[entry]@[j]).node, 0),
    ensures
        rule_always(g, entry, depth),
{
    assert forall|j: int| 0 <= j < g[entry]@.len() implies node_always(
        g,
        (#[trigger] g[entry]@[j]).node,
        depth,
    ) by {
        lemma_rule_free_always_expands(g, g[entry]@[j].node, depth);
    }
}

} // verus!
