use randomart::Node;
use randomart::Rule;
use randomart::UNIT;
use randomart::check_grammar;
use randomart::default_grammar;
use randomart::expand_node;
use randomart::expand_rule;

fn contains_placeholder(n: &Node) -> bool {
    match n {
        Node::Rule(_) => true,
        Node::Rand => true,
        Node::GreaterThan(a, b) => contains_placeholder(a) || contains_placeholder(b),
        Node::Add(a, b) => contains_placeholder(a) || contains_placeholder(b),
        Node::Mul(a, b) => contains_placeholder(a) || contains_placeholder(b),
        Node::Fmodf(a, b) => contains_placeholder(a) || contains_placeholder(b),
        Node::IfThenElse(a, b, c) => {
            contains_placeholder(a) || contains_placeholder(b) || contains_placeholder(c)
        },
        Node::Triple(a, b, c) => {
            contains_placeholder(a) || contains_placeholder(b) || contains_placeholder(c)
        },
        _ => false,
    }
}

fn terminal_grammar() -> Vec<Vec<Rule>> {
    vec![
        vec![Rule {
            node: Node::triple(Node::Rule(1), Node::Rule(1), Node::Rule(1)),
            prob: UNIT,
        }],
        vec![
            Rule { node: Node::X, prob: UNIT / 2 },
            Rule { node: Node::Y, prob: UNIT / 2 },
        ],
    ]
}

#[test]
fn depth_zero_always_fails() {
    let g = terminal_grammar();
    assert!(expand_rule(&g, 0, 0).is_none());
    assert!(expand_rule(&g, 1, 0).is_none());
}

#[test]
fn negative_depth_always_fails() {
    let g = terminal_grammar();
    assert!(expand_rule(&g, 0, -7).is_none());
}

#[test]
fn terminal_grammar_always_yields_triple_of_coordinates() {
    let g = terminal_grammar();
    for _ in 0..100 {
        match expand_rule(&g, 0, 5) {
            Some(Node::Triple(a, b, c)) => {
                for child in [&*a, &*b, &*c] {
                    assert!(
                        matches!(child, Node::X | Node::Y),
                        "unexpected child {:?}",
                        child
                    );
                }
            },
            other => panic!("expected a triple, got {:?}", other),
        }
    }
}

#[test]
fn expansion_resolves_all_placeholders() {
    let g = terminal_grammar();
    for _ in 0..100 {
        let n = expand_rule(&g, 0, 5).expect("terminal grammar must expand");
        assert!(!contains_placeholder(&n));
    }
}

#[test]
fn default_grammar_expansions_are_resolved() {
    let g = default_grammar();
    for _ in 0..50 {
        if let Some(n) = expand_rule(&g, 0, 10) {
            assert!(!contains_placeholder(&n));
        }
    }
}

#[test]
fn rand_freezes_to_number_in_range() {
    let g = terminal_grammar();
    for _ in 0..100 {
        match expand_node(&g, &Node::Rand, 1) {
            Some(Node::Number(q)) => {
                assert!(-UNIT <= q && q < UNIT);
            },
            other => panic!("expected a frozen number, got {:?}", other),
        }
    }
}

#[test]
fn terminals_pass_through_unchanged() {
    let g = terminal_grammar();
    assert_eq!(expand_node(&g, &Node::X, 1), Some(Node::X));
    assert_eq!(expand_node(&g, &Node::Y, 1), Some(Node::Y));
    assert_eq!(expand_node(&g, &Node::Number(42), 1), Some(Node::Number(42)));
    assert_eq!(expand_node(&g, &Node::Boolean(true), 1), Some(Node::Boolean(true)));
    assert_eq!(expand_node(&g, &Node::Random, 1), Some(Node::Random));
}

#[test]
fn operators_expand_in_place() {
    let g = terminal_grammar();
    let t = Node::add(Node::X, Node::Y);
    assert_eq!(expand_node(&g, &t, 1), Some(Node::add(Node::X, Node::Y)));
}

#[test]
fn rule_template_without_budget_fails() {
    let g = terminal_grammar();
    assert!(expand_node(&g, &Node::Rule(1), 1).is_none());
    assert!(expand_node(&g, &Node::Rule(1), 2).is_some());
}

#[test]
fn default_grammar_is_well_formed() {
    let g = default_grammar();
    assert_eq!(g.len(), 3);
    assert!(check_grammar(&g));
}

#[test]
fn out_of_bounds_rule_index_is_rejected() {
    let g = vec![vec![Rule { node: Node::Rule(5), prob: UNIT }]];
    assert!(!check_grammar(&g));
}

#[test]
fn negative_weight_is_rejected() {
    let g = vec![vec![Rule { node: Node::X, prob: -1 }]];
    assert!(!check_grammar(&g));
}
