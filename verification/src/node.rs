//! The expression-tree type and its error type.
//!
//! A `Node` is both an unevaluated expression and an evaluated value: the
//! evaluator reduces a tree to a `Number`, a `Boolean`, or a `Triple` of
//! evaluated children. `Rule` and `Rand` are generation-time placeholders
//! only; evaluating either is an error.

use vstd::prelude::*;

verus! {

/// A node of the expression tree. `Number` holds a fixed-point scalar
/// (see the `fixed` module).
#[derive(Debug, PartialEq)]
pub enum Node {
    /// The first coordinate component.
    X,
    /// The second coordinate component.
    Y,
    /// A literal fixed-point number.
    Number(i64),
    /// A literal boolean.
    Boolean(bool),
    /// Ordering comparison of two numbers, producing a boolean.
    GreaterThan(Box<Node>, Box<Node>),
    /// Conditional: condition, then-branch, else-branch. All three are
    /// evaluated eagerly.
    IfThenElse(Box<Node>, Box<Node>, Box<Node>),
    /// Saturating fixed-point addition of two numbers.
    Add(Box<Node>, Box<Node>),
    /// Saturating fixed-point multiplication of two numbers.
    Mul(Box<Node>, Box<Node>),
    /// Fixed-point remainder, sign following the dividend.
    Fmodf(Box<Node>, Box<Node>),
    /// A 3-tuple aggregator bundling three results into a color.
    Triple(Box<Node>, Box<Node>, Box<Node>),
    /// A nonterminal placeholder carrying a grammar rule-set index;
    /// resolved away by expansion, never legal at evaluation.
    Rule(usize),
    /// A fresh uniform sample in `[-UNIT, UNIT)`, drawn anew on every
    /// evaluation.
    Random,
    /// A generation-time random placeholder, frozen to a literal `Number`
    /// by expansion; never legal at evaluation.
    Rand,
}

/// Why an evaluation failed. The operand payloads are the fully reduced
/// sub-results, kept for diagnostics.
#[derive(Debug, PartialEq)]
pub enum EvalError {
    /// A `Rand` placeholder reached evaluation.
    RandError,
    /// A `Rule` placeholder reached evaluation; carries its rule-set index.
    RuleError(usize),
    /// The operands of `Add` did not both reduce to numbers.
    AddError(Node, Node),
    /// The operands of `Mul` did not both reduce to numbers.
    MulError(Node, Node),
    /// The operands of `Fmodf` did not both reduce to numbers.
    FmodfError(Node, Node),
    /// The operands of `GreaterThan` did not both reduce to numbers.
    GreaterThanError(Node, Node),
    /// The condition of `IfThenElse` did not reduce to a boolean; carries
    /// all three reduced sub-results.
    IfThenElseError(Node, Node, Node),
}

/// A coordinate pair, each component a fixed-point scalar (by the rendering
/// convention in `[-UNIT, UNIT]`, though nothing enforces that).
#[derive(Debug, Clone, Copy, PartialEq, Eq, Structural)]
pub struct Vector2 {
    pub x: i64,
    pub y: i64,
}

/// An evaluated color triple of fixed-point scalars.
#[derive(Debug, Clone, Copy, PartialEq, Eq, Structural)]
pub struct Vector3 {
    pub x: i64,
    pub y: i64,
    pub z: i64,
}

/// Whether a tree holds no generation-time placeholder: no `Rule` and no
/// `Rand` anywhere. Only such trees evaluate without a placeholder error.
pub open spec fn resolved(n: Node) -> bool
    decreases n,
{
    match n {
        Node::Rule(_) => false,
        Node::Rand => false,
        Node::GreaterThan(a, b) => resolved(*a) && resolved(*b),
        Node::Add(a, b) => resolved(*a) && resolved(*b),
        Node::Mul(a, b) => resolved(*a) && resolved(*b),
        Node::Fmodf(a, b) => resolved(*a) && resolved(*b),
        Node::IfThenElse(a, b, c) => resolved(*a) && resolved(*b) && resolved(*c),
        Node::Triple(a, b, c) => resolved(*a) && resolved(*b) && resolved(*c),
        _ => true,
    }
}

/// Whether a tree holds a `Random` node somewhere. Evaluation of such a
/// tree draws fresh entropy and is not deterministic.
pub open spec fn has_random(n: Node) -> bool
    decreases n,
{
    match n {
        Node::Random => true,
        Node::GreaterThan(a, b) => has_random(*a) || has_random(*b),
        Node::Add(a, b) => has_random(*a) || has_random(*b),
        Node::Mul(a, b) => has_random(*a) || has_random(*b),
        Node::Fmodf(a, b) => has_random(*a) || has_random(*b),
        Node::IfThenElse(a, b, c) => has_random(*a) || has_random(*b) || has_random(*c),
        Node::Triple(a, b, c) => has_random(*a) || has_random(*b) || has_random(*c),
        _ => false,
    }
}

/// Whether every `Rule` index in the tree is below `bound`, the number of
/// rule-sets of the grammar at hand.
pub open spec fn rules_in_bounds(n: Node, bound: int) -> bool
    decreases n,
{
    match n {
        Node::Rule(i) => i < bound,
        Node::GreaterThan(a, b) => rules_in_bounds(*a, bound) && rules_in_bounds(*b, bound),
        Node::Add(a, b) => rules_in_bounds(*a, bound) && rules_in_bounds(*b, bound),
        Node::Mul(a, b) => rules_in_bounds(*a, bound) && rules_in_bounds(*b, bound),
        Node::Fmodf(a, b) => rules_in_bounds(*a, bound) && rules_in_bounds(*b, bound),
        Node::IfThenElse(a, b, c) => rules_in_bounds(*a, bound) && rules_in_bounds(*b, bound)
            && rules_in_bounds(*c, bound),
        Node::Triple(a, b, c) => rules_in_bounds(*a, bound) && rules_in_bounds(*b, bound)
            && rules_in_bounds(*c, bound),
        _ => true,
    }
}

/// The number of nodes of a tree: a structural measure used to show that
/// expansion terminates.
pub open spec fn node_size(n: Node) -> nat
    decreases n,
{
    match n {
        Node::GreaterThan(a, b) => 1 + node_size(*a) + node_size(*b),
        Node::Add(a, b) => 1 + node_size(*a) + node_size(*b),
        Node::Mul(a, b) => 1 + node_size(*a) + node_size(*b),
        Node::Fmodf(a, b) => 1 + node_size(*a) + node_size(*b),
        Node::IfThenElse(a, b, c) => 1 + node_size(*a) + node_size(*b) + node_size(*c),
        Node::Triple(a, b, c) => 1 + node_size(*a) + node_size(*b) + node_size(*c),
        _ => 1,
    }
}

impl Node {
    /// Build an `Add` node.
    pub fn add(a: Node, b: Node) -> (r: Node)
        ensures
            r == Node::Add(Box::new(a), Box::new(b)),
    {
        Node::Add(Box::new(a), Box::new(b))
    }

    /// Build a `Mul` node.
    pub fn mul(a: Node, b: Node) -> (r: Node)
        ensures
            r == Node::Mul(Box::new(a), Box::new(b)),
    {
        Node::Mul(Box::new(a), Box::new(b))
    }

    /// Build an `Fmodf` node.
    pub fn fmodf(a: Node, b: Node) -> (r: Node)
        ensures
            r == Node::Fmodf(Box::new(a), Box::new(b)),
    {
        Node::Fmodf(Box::new(a), Box::new(b))
    }

    /// Build a `GreaterThan` node.
    pub fn gt(a: Node, b: Node) -> (r: Node)
        ensures
            r == Node::GreaterThan(Box::new(a), Box::new(b)),
    {
        Node::GreaterThan(Box::new(a), Box::new(b))
    }

    /// Build an `IfThenElse` node.
    pub fn ifthenelse(c: Node, t: Node, e: Node) -> (r: Node)
        ensures
            r == Node::IfThenElse(Box::new(c), Box::new(t), Box::new(e)),
    {
        Node::IfThenElse(Box::new(c), Box::new(t), Box::new(e))
    }

    /// Build a `Triple` node.
    pub fn triple(a: Node, b: Node, c: Node) -> (r: Node)
        ensures
            r == Node::Triple(Box::new(a), Box::new(b), Box::new(c)),
    {
        Node::Triple(Box::new(a), Box::new(b), Box::new(c))
    }
}

} // verus!
