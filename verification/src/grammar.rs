//! The grammar: an ordered sequence of rule-sets, each an ordered sequence
//! of weighted productions.
//!
//! Weights are fixed-point probabilities (`UNIT` stands for one); within a
//! rule-set they are expected to sum to about `UNIT`. Selection walks the
//! rule-set in order accumulating weights, and the first production whose
//! cumulative weight reaches the sampled threshold wins.

use vstd::prelude::*;

use crate::fixed::UNIT;
use crate::node::Node;
use crate::node::rules_in_bounds;

verus! {

/// One production: a template tree and its selection weight, a fixed-point
/// probability.
#[derive(Debug, PartialEq)]
pub struct Rule {
    pub node: Node,
    pub prob: i64,
}

/// The sum of the weights of a rule-set.
pub open spec fn sum_probs(rs: Seq<Rule>) -> int
    decreases rs.len(),
{
    if rs.len() == 0 {
        0
    } else {
        sum_probs(rs.drop_last()) + rs.last().prob
    }
}

/// Well-formedness of one rule-set against a grammar of `bound` rule-sets:
/// every weight is nonnegative, every template's rule indices are in
/// bounds, and the total weight fits an `i64` (so cumulative sums cannot
/// overflow).
pub open spec fn ruleset_wf(rs: Seq<Rule>, bound: int) -> bool {
    &&& forall|j: int|
        0 <= j < rs.len() ==> (#[trigger] rs[j]).prob >= 0 && rules_in_bounds(rs[j].node, bound)
    &&& sum_probs(rs) <= i64::MAX
}

/// Well-formedness of a whole grammar: every rule-set is well-formed
/// against the grammar's own length.
pub open spec fn grammar_wf(g: Seq<Vec<Rule>>) -> bool {
    forall|e: int| 0 <= e < g.len() ==> ruleset_wf((#[trigger] g[e])@, g.len() as int)
}

/// One step of a prefix sum: taking one more rule adds its weight.
pub proof fn lemma_sum_take_step(rs: Seq<Rule>, j: int)
    requires
        0 <= j < rs.len(),
    ensures
        sum_probs(rs.take(j + 1)) == sum_probs(rs.take(j)) + rs[j].prob,
{
    assert(rs.take(j + 1).drop_last() =~= rs.take(j));
    assert(rs.take(j + 1).last() == rs[j]);
}

/// With nonnegative weights, every prefix sum is nonnegative.
pub proof fn lemma_sum_take_nonneg(rs: Seq<Rule>, j: int)
    requires
        0 <= j <= rs.len(),
        forall|k: int| 0 <= k < rs.len() ==> (#[trigger] rs[k]).prob >= 0,
    ensures
        sum_probs(rs.take(j)) >= 0,
    decreases j,
{
    if j > 0 {
        lemma_sum_take_nonneg(rs, j - 1);
        lemma_sum_take_step(rs, j - 1);
    } else {
        assert(rs.take(0) =~= Seq::<Rule>::empty());
    }
}

/// With nonnegative weights, no prefix sum exceeds the total.
pub proof fn lemma_sum_take_le_total(rs: Seq<Rule>, j: int)
    requires
        0 <= j <= rs.len(),
        forall|k: int| 0 <= k < rs.len() ==> (#[trigger] rs[k]).prob >= 0,
    ensures
        sum_probs(rs.take(j)) <= sum_probs(rs),
    decreases rs.len() - j,
{
    if j == rs.len() {
        assert(rs.take(j) =~= rs);
    } else {
        lemma_sum_take_step(rs, j);
        lemma_sum_take_le_total(rs, j + 1);
    }
}

/// The production picked for threshold `t` starting at index `j` with the
/// weights of the first `j` productions already summed in `acc`: the first
/// index from `j` on whose cumulative weight reaches `t`.
pub open spec fn pick_from(rs: Seq<Rule>, t: i64, j: int, acc: int) -> Option<int>
    decreases rs.len() - j,
{
    if j < 0 || j >= rs.len() {
        None
    } else if acc + rs[j].prob >= t {
        Some(j)
    } else {
        pick_from(rs, t, j + 1, acc + rs[j].prob)
    }
}

/// The production picked for threshold `t`: the first whose cumulative
/// weight reaches `t`, or nothing if the whole sum stays below `t`.
pub open spec fn pick_spec(rs: Seq<Rule>, t: i64) -> Option<int> {
    pick_from(rs, t, 0, 0)
}

/// Walk a rule-set in order, accumulating weights, and return the index of
/// the first production whose cumulative weight reaches the threshold `t`.
/// Returns nothing only when the rule-set's total weight stays below `t`
/// (in particular never, for a nonempty rule-set whose weights sum to at
/// least `UNIT`, when `t < UNIT`).
pub fn pick_rule_index(ruleset: &Vec<Rule>, t: i64) -> (r: Option<usize>)
    requires
        forall|k: int| 0 <= k < ruleset@.len() ==> (#[trigger] ruleset@[k]).prob >= 0,
        sum_probs(ruleset@) <= i64::MAX,
    ensures
        r matches Some(j) ==> j < ruleset@.len() && pick_spec(ruleset@, t) == Some(j as int),
        r is None ==> pick_spec(ruleset@, t) is None,
        r is None && ruleset@.len() > 0 ==> sum_probs(ruleset@) < t,
{
    let mut j: usize = 0;
    let mut acc: i64 = 0;
    while j < ruleset.len()
        invariant
            0 <= j <= ruleset@.len(),
            acc as int == sum_probs(ruleset@.take(j as int)),
            pick_spec(ruleset@, t) == pick_from(ruleset@, t, j as int, acc as int),
            j > 0 ==> acc < t,
            forall|k: int| 0 <= k < ruleset@.len() ==> (#[trigger] ruleset@[k]).prob >= 0,
            sum_probs(ruleset@) <= i64::MAX,
        decreases ruleset@.len() - j,
    {
        let p = ruleset[j].prob;
        proof {
            lemma_sum_take_step(ruleset@, j as int);
            lemma_sum_take_nonneg(ruleset@, j as int);
            lemma_sum_take_le_total(ruleset@, j as int + 1);
        }
        if acc + p >= t {
            return Some(j);
        }
        acc = acc + p;
        j = j + 1;
    }
    proof {
        assert(ruleset@.take(ruleset@.len() as int) =~= ruleset@);
    }
    None
}

/// Check that every rule index in a tree is below `bound`.
pub fn check_node(n: &Node, bound: usize) -> (b: bool)
    ensures
        b == rules_in_bounds(*n, bound as int),
    decreases n,
{
    match n {
        Node::Rule(i) => *i < bound,
        Node::GreaterThan(a, b) => check_node(&**a, bound) && check_node(&**b, bound),
        Node::Add(a, b) => check_node(&**a, bound) && check_node(&**b, bound),
        Node::Mul(a, b) => check_node(&**a, bound) && check_node(&**b, bound),
        Node::Fmodf(a, b) => check_node(&**a, bound) && check_node(&**b, bound),
        Node::IfThenElse(a, b, c) => check_node(&**a, bound) && check_node(&**b, bound)
            && check_node(&**c, bound),
        Node::Triple(a, b, c) => check_node(&**a, bound) && check_node(&**b, bound) && check_node(
            &**c,
            bound,
        ),
        _ => true,
    }
}

/// Check that one rule-set is well-formed against a grammar of `bound`
/// rule-sets: nonnegative weights, in-bounds templates, total weight within
/// `i64`.
pub fn check_ruleset(rs: &Vec<Rule>, bound: usize) -> (b: bool)
    ensures
        b == ruleset_wf(rs@, bound as int),
{
    let mut j: usize = 0;
    while j < rs.len()
        invariant
            0 <= j <= rs@.len(),
            forall|k: int|
                0 <= k < j ==> (#[trigger] rs@[k]).prob >= 0 && rules_in_bounds(
                    rs@[k].node,
                    bound as int,
                ),
        decreases rs@.len() - j,
    {
        if rs[j].prob < 0 {
            return false;
        }
        if !check_node(&rs[j].node, bound) {
            return false;
        }
        j = j + 1;
    }
    let mut acc: i64 = 0;
    j = 0;
    while j < rs.len()
        invariant
            0 <= j <= rs@.len(),
            acc as int == sum_probs(rs@.take(j as int)),
            acc <= i64::MAX,
            forall|k: int|
                0 <= k < rs@.len() ==> (#[trigger] rs@[k]).prob >= 0 && rules_in_bounds(
                    rs@[k].node,
                    bound as int,
                ),
        decreases rs@.len() - j,
    {
        let p = rs[j].prob;
        proof {
            lemma_sum_take_step(rs@, j as int);
            lemma_sum_take_nonneg(rs@, j as int);
        }
        if p > i64::MAX - acc {
            proof {
                lemma_sum_take_le_total(rs@, j as int + 1);
            }
            return false;
        }
        acc = acc + p;
        j = j + 1;
    }
    proof {
        assert(rs@.take(rs@.len() as int) =~= rs@);
    }
    true
}

/// Check that a whole grammar is well-formed, so that `expand_rule` and
/// `expand_node` may be called on it.
pub fn check_grammar(g: &Vec<Vec<Rule>>) -> (b: bool)
    ensures
        b == grammar_wf(g@),
{
    let bound = g.len();
    let mut e: usize = 0;
    while e < g.len()
        invariant
            0 <= e <= g@.len(),
            bound == g@.len(),
            forall|k: int| 0 <= k < e ==> ruleset_wf((#[trigger] g@[k])@, g@.len() as int),
        decreases g@.len() - e,
    {
        if !check_ruleset(&g[e], bound) {
            return false;
        }
        e = e + 1;
    }
    true
}

/// The built-in grammar. Rule-set 0 is the start symbol: a `Triple` of
/// three rule-2 expansions. Rule-set 1 is the terminals: `Rand`, `X` or
/// `Y`, a third each. Rule-set 2 is an expression: a terminal (a quarter)
/// or an `Add` or `Mul` of two further expressions (three eighths each).
/// Weights are fixed-point; each rule-set's weights sum to exactly `UNIT`.
pub fn default_grammar() -> (g: Vec<Vec<Rule>>)
    ensures
        grammar_wf(g@),
        g@.len() == 3,
        g@[0]@.len() == 1,
        g@[1]@.len() == 3,
        g@[2]@.len() == 3,
        g@[0]@[0] == (Rule {
            node: Node::Triple(
                Box::new(Node::Rule(2)),
                Box::new(Node::Rule(2)),
                Box::new(Node::Rule(2)),
            ),
            prob: UNIT,
        }),
        g@[1]@[0] == (Rule { node: Node::Rand, prob: 21846 }),
        g@[1]@[1] == (Rule { node: Node::X, prob: 21845 }),
        g@[1]@[2] == (Rule { node: Node::Y, prob: 21845 }),
        g@[2]@[0] == (Rule { node: Node::Rule(1), prob: 16384 }),
        g@[2]@[1] == (Rule {
            node: Node::Add(Box::new(Node::Rule(2)), Box::new(Node::Rule(2))),
            prob: 24576,
        }),
        g@[2]@[2] == (Rule {
            node: Node::Mul(Box::new(Node::Rule(2)), Box::new(Node::Rule(2))),
            prob: 24576,
        }),
{
    let mut rs0: Vec<Rule> = Vec::new();
    rs0.push(
        Rule { node: Node::triple(Node::Rule(2), Node::Rule(2), Node::Rule(2)), prob: UNIT },
    );

    let mut rs1: Vec<Rule> = Vec::new();
    rs1.push(Rule { node: Node::Rand, prob: 21846 });
    rs1.push(Rule { node: Node::X, prob: 21845 });
    rs1.push(Rule { node: Node::Y, prob: 21845 });

    let mut rs2: Vec<Rule> = Vec::new();
    rs2.push(Rule { node: Node::Rule(1), prob: 16384 });
    rs2.push(Rule { node: Node::add(Node::Rule(2), Node::Rule(2)), prob: 24576 });
    rs2.push(Rule { node: Node::mul(Node::Rule(2), Node::Rule(2)), prob: 24576 });

    let mut g: Vec<Vec<Rule>> = Vec::new();
    g.push(rs0);
    g.push(rs1);
    g.push(rs2);
    proof {
        assert(rules_in_bounds(Node::Rule(1), 3));
        assert(rules_in_bounds(Node::Rule(2), 3));
        let s0 = g@[0]@;
        let s1 = g@[1]@;
        let s2 = g@[2]@;
        assert(s0.take(0) =~= Seq::<Rule>::empty());
        assert(s0.take(1) =~= s0);
        lemma_sum_take_step(s0, 0);
        assert(sum_probs(s0) == UNIT);
        assert(s1.take(0) =~= Seq::<Rule>::empty());
        lemma_sum_take_step(s1, 0);
        lemma_sum_take_step(s1, 1);
        lemma_sum_take_step(s1, 2);
        assert(s1.take(3) =~= s1);
        assert(sum_probs(s1) == UNIT);
        assert(s2.take(0) =~= Seq::<Rule>::empty());
        lemma_sum_take_step(s2, 0);
        lemma_sum_take_step(s2, 1);
        lemma_sum_take_step(s2, 2);
        assert(s2.take(3) =~= s2);
        assert(sum_probs(s2) == UNIT);
    }
    g
}

} // verus!
