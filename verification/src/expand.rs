//! The random tree generator: recursive expansion of a template against
//! the grammar, with bounded-depth termination and bounded-retry recovery.
//!
//! `expand_node` walks a template structurally: terminals pass through,
//! `Rand` freezes to a literal number sampled in `[-UNIT, UNIT)`, operators
//! expand their operands and fail as soon as one fails, and `Rule(i)`
//! recurses into `expand_rule` with one less depth. `expand_rule` retries
//! up to `MAX_ATTEMPTS` times: each attempt draws a fresh threshold in
//! `[0, UNIT)`, picks the first production whose cumulative weight reaches
//! it, and attempts that one production; on failure it resamples rather
//! than trying the remaining productions of the same draw.
//!
//! `instance_of` says what a successful expansion is: the template with
//! every `Rand` frozen to an in-range number and every `Rule(i)` replaced
//! by an expansion of one of rule-set `i`'s templates. `node_always` and
//! `rule_always` give a sufficient condition under which expansion cannot
//! fail, whatever the random draws.

use vstd::prelude::*;

use crate::eval::in_sample_range;
use crate::fixed::UNIT;
use crate::grammar::Rule;
use crate::grammar::grammar_wf;
use crate::grammar::pick_rule_index;
use crate::grammar::ruleset_wf;
use crate::grammar::sum_probs;
use crate::node::Node;
use crate::node::node_size;
use crate::node::resolved;
use crate::node::rules_in_bounds;
use crate::sample::sample_scalar;
use crate::sample::sample_threshold;

verus! {

/// The retry ceiling of `expand_rule`: how many thresholds are drawn
/// before a rule's expansion fails as a whole.
pub const MAX_ATTEMPTS: u32 = 10;

/// The depth part of the termination measure of expansion: a depth budget,
/// never below zero.
pub open spec fn depth_measure(depth: int) -> int {
    if depth >= 0 {
        depth
    } else {
        0
    }
}

/// Whether `m` is a possible expansion of `template` against grammar `g`
/// with depth budget `depth`: terminals other than `Rand` pass through
/// unchanged, `Rand` freezes to some number in `[-UNIT, UNIT)`, operators
/// expand their operands in place, and `Rule(i)` stands for an expansion
/// of one of rule-set `i`'s templates with one less depth (which requires
/// a remaining budget of at least one, so `depth >= 2`).
pub open spec fn instance_of(g: Seq<Vec<Rule>>, template: Node, m: Node, depth: int) -> bool
    decreases depth_measure(depth), template,
{
    match template {
        Node::X => m == template,
        Node::Y => m == template,
        Node::Number(_) => m == template,
        Node::Boolean(_) => m == template,
        Node::Random => m == template,
        Node::Rand => m matches Node::Number(q) && in_sample_range(q),
        Node::Rule(i) => depth >= 2 && i < g.len() && (exists|j: int|
            0 <= j < g[i as int]@.len() && instance_of(
                g,
                (#[trigger] g[i as int]@[j]).node,
                m,
                depth - 1,
            )),
        Node::Add(x, y) => m matches Node::Add(mx, my) && instance_of(g, *x, *mx, depth)
            && instance_of(g, *y, *my, depth),
        Node::Mul(x, y) => m matches Node::Mul(mx, my) && instance_of(g, *x, *mx, depth)
            && instance_of(g, *y, *my, depth),
        Node::Fmodf(x, y) => m matches Node::Fmodf(mx, my) && instance_of(g, *x, *mx, depth)
            && instance_of(g, *y, *my, depth),
        Node::GreaterThan(x, y) => m matches Node::GreaterThan(mx, my) && instance_of(
            g,
            *x,
            *mx,
            depth,
        ) && instance_of(g, *y, *my, depth),
        Node::IfThenElse(c, t, e) => m matches Node::IfThenElse(mc, mt, me) && instance_of(
            g,
            *c,
            *mc,
            depth,
        ) && instance_of(g, *t, *mt, depth) && instance_of(g, *e, *me, depth),
        Node::Triple(a, b, c) => m matches Node::Triple(ma, mb, mc) && instance_of(
            g,
            *a,
            *ma,
            depth,
        ) && instance_of(g, *b, *mb, depth) && instance_of(g, *c, *mc, depth),
    }
}

/// A sufficient condition for `expand_node` to succeed on `template` with
/// budget `depth`, whatever the random draws: every `Rule(i)` in the
/// template has budget left (`depth >= 2`), names a rule-set whose weights
/// sum to at least `UNIT` (so some production is always picked), and all of
/// that rule-set's templates again always expand with one less depth.
pub open spec fn node_always(g: Seq<Vec<Rule>>, n: Node, depth: int) -> bool
    decreases depth_measure(depth), n,
{
    match n {
        Node::Rule(i) => depth >= 2 && i < g.len() && sum_probs(g[i as int]@) >= UNIT && (forall|
            j: int,
        |
            0 <= j < g[i as int]@.len() ==> node_always(
                g,
                (#[trigger] g[i as int]@[j]).node,
                depth - 1,
            )),
        Node::Add(x, y) => node_always(g, *x, depth) && node_always(g, *y, depth),
        Node::Mul(x, y) => node_always(g, *x, depth) && node_always(g, *y, depth),
        Node::Fmodf(x, y) => node_always(g, *x, depth) && node_always(g, *y, depth),
        Node::GreaterThan(x, y) => node_always(g, *x, depth) && node_always(g, *y, depth),
        Node::IfThenElse(c, t, e) => node_always(g, *c, depth) && node_always(g, *t, depth)
            && node_always(g, *e, depth),
        Node::Triple(a, b, c) => node_always(g, *a, depth) && node_always(g, *b, depth)
            && node_always(g, *c, depth),
        _ => true,
    }
}

/// A sufficient condition for `expand_rule` on rule-set `entry` with
/// budget `depth` to succeed whatever the random draws: budget left, the
/// rule-set's weights sum to at least `UNIT`, and every one of its
/// templates always expands at this budget.
pub open spec fn rule_always(g: Seq<Vec<Rule>>, entry: int, depth: int) -> bool {
    &&& depth >= 1
    &&& 0 <= entry < g.len()
    &&& sum_probs(g[entry]@) >= UNIT
    &&& forall|j: int|
        0 <= j < g[entry]@.len() ==> node_always(g, (#[trigger] g[entry]@[j]).node, depth)
}

/// Expand a template against the grammar: terminals other than `Rand` pass
/// through unchanged, `Rand` is frozen to a literal number sampled in
/// `[-UNIT, UNIT)`, operators expand each operand and fail as soon as one
/// fails, and `Rule(i)` recurses into `expand_rule` with one less depth.
pub fn expand_node(grammar: &Vec<Vec<Rule>>, template: &Node, depth: isize) -> (r: Option<Node>)
    requires
        grammar_wf(grammar@),
        rules_in_bounds(*template, grammar@.len() as int),
    ensures
        r matches Some(m) ==> resolved(m) && instance_of(grammar@, *template, m, depth as int),
        node_always(grammar@, *template, depth as int) ==> r is Some,
    decreases depth_measure(depth as int), 0int, node_size(*template),
{
    match template {
        Node::X => Some(Node::X),
        Node::Y => Some(Node::Y),
        Node::Number(v) => Some(Node::Number(*v)),
        Node::Boolean(b) => Some(Node::Boolean(*b)),
        Node::Random => Some(Node::Random),
        Node::Rand => {
            let q = sample_scalar();
            proof {
                assert(in_sample_range(q));
            }
            Some(Node::Number(q))
        },
        Node::Rule(i) => {
            if depth <= 1 {
                // expand_rule would be entered with no budget left and
                // fail at once; node_always demands depth >= 2.
                None
            } else {
                expand_rule(grammar, *i, depth - 1)
            }
        },
        Node::Add(x, y) => {
            let lhs = match expand_node(grammar, &**x, depth) {
                Some(n) => n,
                None => {
                    return None;
                },
            };
            let rhs = match expand_node(grammar, &**y, depth) {
                Some(n) => n,
                None => {
                    return None;
                },
            };
            Some(Node::Add(Box::new(lhs), Box::new(rhs)))
        },
        Node::Mul(x, y) => {
            let lhs = match expand_node(grammar, &**x, depth) {
                Some(n) => n,
                None => {
                    return None;
                },
            };
            let rhs = match expand_node(grammar, &**y, depth) {
                Some(n) => n,
                None => {
                    return None;
                },
            };
            Some(Node::Mul(Box::new(lhs), Box::new(rhs)))
        },
        Node::Fmodf(x, y) => {
            let lhs = match expand_node(grammar, &**x, depth) {
                Some(n) => n,
                None => {
                    return None;
                },
            };
            let rhs = match expand_node(grammar, &**y, depth) {
                Some(n) => n,
                None => {
                    return None;
                },
            };
            Some(Node::Fmodf(Box::new(lhs), Box::new(rhs)))
        },
        Node::GreaterThan(x, y) => {
            let lhs = match expand_node(grammar, &**x, depth) {
                Some(n) => n,
                None => {
                    return None;
                },
            };
            let rhs = match expand_node(grammar, &**y, depth) {
                Some(n) => n,
                None => {
                    return None;
                },
            };
            Some(Node::GreaterThan(Box::new(lhs), Box::new(rhs)))
        },
        Node::IfThenElse(c, t, e) => {
            let cond = match expand_node(grammar, &**c, depth) {
                Some(n) => n,
                None => {
                    return None;
                },
            };
            let then_ = match expand_node(grammar, &**t, depth) {
                Some(n) => n,
                None => {
                    return None;
                },
            };
            let else_ = match expand_node(grammar, &**e, depth) {
                Some(n) => n,
                None => {
                    return None;
                },
            };
            Some(Node::IfThenElse(Box::new(cond), Box::new(then_), Box::new(else_)))
        },
        Node::Triple(a, b, c) => {
            let ea = match expand_node(grammar, &**a, depth) {
                Some(n) => n,
                None => {
                    return None;
                },
            };
            let eb = match expand_node(grammar, &**b, depth) {
                Some(n) => n,
                None => {
                    return None;
                },
            };
            let ec = match expand_node(grammar, &**c, depth) {
                Some(n) => n,
                None => {
                    return None;
                },
            };
            Some(Node::Triple(Box::new(ea), Box::new(eb), Box::new(ec)))
        },
    }
}

/// Expand rule-set `entry` of the grammar with the given depth budget. An
/// exhausted budget (`depth <= 0`) fails at once. Otherwise, up to
/// `MAX_ATTEMPTS` times: draw a threshold in `[0, UNIT)`, pick the first
/// production whose cumulative weight reaches it, and try to expand that
/// production's template at this budget; on failure, resample afresh
/// rather than trying the remaining productions of the same draw. Fails as
/// a whole when every attempt fails.
pub fn expand_rule(grammar: &Vec<Vec<Rule>>, entry: usize, depth: isize) -> (r: Option<Node>)
    requires
        grammar_wf(grammar@),
        entry < grammar@.len(),
    ensures
        depth <= 0 ==> r is None,
        r matches Some(m) ==> resolved(m) && depth >= 1 && (exists|j: int|
            0 <= j < grammar@[entry as int]@.len() && instance_of(
                grammar@,
                (#[trigger] grammar@[entry as int]@[j]).node,
                m,
                depth as int,
            )),
        rule_always(grammar@, entry as int, depth as int) ==> r is Some,
    decreases depth_measure(depth as int), 1int, 0int,
{
    if depth <= 0 {
        return None;
    }
    let ruleset: &Vec<Rule> = &grammar[entry];
    proof {
        assert(ruleset_wf(grammar@[entry as int]@, grammar@.len() as int));
    }
    let mut attempt: u32 = 0;
    while attempt < MAX_ATTEMPTS
        invariant
            grammar_wf(grammar@),
            entry < grammar@.len(),
            depth >= 1,
            ruleset == &grammar@[entry as int],
            rule_always(grammar@, entry as int, depth as int) ==> attempt == 0,
            attempt <= MAX_ATTEMPTS,
        decreases MAX_ATTEMPTS - attempt,
    {
        let t = sample_threshold();
        let picked = pick_rule_index(ruleset, t);
        match picked {
            Some(j) => {
                let expanded = expand_node(grammar, &ruleset[j].node, depth);
                match expanded {
                    Some(m) => {
                        proof {
                            assert(grammar@[entry as int]@[j as int] == ruleset@[j as int]);
                        }
                        return Some(m);
                    },
                    None => {
                        proof {
                            if rule_always(grammar@, entry as int, depth as int) {
                                assert(node_always(
                                    grammar@,
                                    grammar@[entry as int]@[j as int].node,
                                    depth as int,
                                ));
                                assert(false);
                            }
                        }
                    },
                }
            },
            None => {
                proof {
                    if rule_always(grammar@, entry as int, depth as int) {
                        if grammar@[entry as int]@.len() == 0 {
                            assert(sum_probs(grammar@[entry as int]@) == 0);
                        }
                        assert(false);
                    }
                }
            },
        }
        attempt = attempt + 1;
    }
    None
}

} // verus!
