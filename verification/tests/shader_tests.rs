use rand::rngs::StdRng;
use rand::SeedableRng;

use random_shader::generate_shader_code;
use random_shader::generate_tree;
use random_shader::new_shader_code;
use random_shader::terminal_for_choice;
use random_shader::NodeBinop;
use random_shader::NodeKind;
use random_shader::NodeNonTerminal;
use random_shader::NodeTerminal;
use random_shader::NodeUnop;

fn leaf(t: NodeTerminal) -> Box<NodeKind> {
    Box::new(NodeKind::NodeTerminal(t))
}

fn binop(lhs: NodeKind, rhs: NodeKind) -> NodeBinop {
    NodeBinop {
        lhs: Box::new(lhs),
        rhs: Box::new(rhs),
    }
}

/// The longest root-to-leaf path of a tree, counted in edges.
fn tree_depth(n: &NodeKind) -> u32 {
    match n {
        NodeKind::NodeTerminal(_) => 0,
        NodeKind::NodeNonTerminal(op) => match op {
            NodeNonTerminal::Add(b)
            | NodeNonTerminal::Mult(b)
            | NodeNonTerminal::Mod(b)
            | NodeNonTerminal::Gt(b) => 1 + tree_depth(&b.lhs).max(tree_depth(&b.rhs)),
            NodeNonTerminal::Sqrt(u) | NodeNonTerminal::Abs(u) | NodeNonTerminal::Sin(u) => {
                1 + tree_depth(&u.value)
            }
        },
    }
}

/// Balanced parentheses: no prefix closes more than was opened, and the
/// whole text closes everything.
fn parens_balanced(s: &str) -> bool {
    let mut count: i64 = 0;
    for c in s.chars() {
        if c == '(' {
            count += 1;
        } else if c == ')' {
            count -= 1;
        }
        if count < 0 {
            return false;
        }
    }
    count == 0
}

fn char_allowed(c: char) -> bool {
    c.is_ascii_alphanumeric() || "() .,+*->_".contains(c)
}

#[test]
fn same_seed_same_shader() {
    for seed in [0u64, 1, 7, 424242] {
        let a = new_shader_code(seed, 6);
        let b = new_shader_code(seed, 6);
        assert_eq!(a, b);
    }
}

#[test]
fn same_seed_same_tree() {
    for seed in [0u64, 3, 99, 123456789] {
        let mut rng_a = StdRng::seed_from_u64(seed);
        let mut rng_b = StdRng::seed_from_u64(seed);
        let a = generate_tree(8, &mut rng_a);
        let b = generate_tree(8, &mut rng_b);
        assert_eq!(a, b);
    }
}

#[test]
fn depth_stays_within_bound() {
    let mut rng = StdRng::seed_from_u64(11);
    for depth in 0u32..8 {
        for _ in 0..20 {
            let tree = generate_tree(depth, &mut rng);
            assert!(tree_depth(&tree) <= depth);
        }
    }
}

#[test]
fn depth_zero_always_terminal() {
    let mut rng = StdRng::seed_from_u64(5);
    for _ in 0..200 {
        let tree = generate_tree(0, &mut rng);
        assert!(matches!(tree, NodeKind::NodeTerminal(_)));
    }
}

#[test]
fn render_never_empty() {
    let mut rng = StdRng::seed_from_u64(21);
    for depth in 0u32..7 {
        for _ in 0..10 {
            let tree = generate_tree(depth, &mut rng);
            assert!(!generate_shader_code(&tree).is_empty());
        }
    }
}

#[test]
fn render_is_balanced_and_in_charset() {
    let mut rng = StdRng::seed_from_u64(33);
    for depth in 0u32..7 {
        for _ in 0..10 {
            let tree = generate_tree(depth, &mut rng);
            let code = generate_shader_code(&tree);
            assert!(parens_balanced(&code), "unbalanced: {}", code);
            assert!(code.chars().all(char_allowed), "bad char in: {}", code);
        }
    }
}

#[test]
fn render_twice_is_identical() {
    let mut rng = StdRng::seed_from_u64(77);
    let tree = generate_tree(6, &mut rng);
    assert_eq!(generate_shader_code(&tree), generate_shader_code(&tree));
}

#[test]
fn second_terminal_choice_is_var_y() {
    let node = terminal_for_choice(1, 0);
    assert_eq!(node, NodeKind::NodeTerminal(NodeTerminal::Y));
    assert_eq!(generate_shader_code(&node), "UV.y * 2.0 - 1.0");
}

#[test]
fn terminal_choices_in_grammar_order() {
    assert_eq!(
        terminal_for_choice(0, 0),
        NodeKind::NodeTerminal(NodeTerminal::X)
    );
    assert_eq!(
        terminal_for_choice(2, 1500),
        NodeKind::NodeTerminal(NodeTerminal::Random(1500))
    );
    assert_eq!(
        terminal_for_choice(3, 0),
        NodeKind::NodeTerminal(NodeTerminal::Time)
    );
}

#[test]
fn add_of_x_and_y_renders_exactly() {
    let tree = NodeKind::NodeNonTerminal(NodeNonTerminal::Add(binop(
        NodeKind::NodeTerminal(NodeTerminal::X),
        NodeKind::NodeTerminal(NodeTerminal::Y),
    )));
    assert_eq!(
        generate_shader_code(&tree),
        "(UV.x * 2.0 - 1.0) + (UV.y * 2.0 - 1.0)"
    );
}

#[test]
fn gt_of_time_and_half_renders_exactly() {
    // grid index 1500 stands for the constant 0.5
    let tree = NodeKind::NodeNonTerminal(NodeNonTerminal::Gt(binop(
        NodeKind::NodeTerminal(NodeTerminal::Time),
        NodeKind::NodeTerminal(NodeTerminal::Random(1500)),
    )));
    assert_eq!(
        generate_shader_code(&tree),
        "float((sin(TIME)) > (float(0.5)))"
    );
}

#[test]
fn remaining_operators_render_exactly() {
    let x = || NodeKind::NodeTerminal(NodeTerminal::X);
    let time = || NodeKind::NodeTerminal(NodeTerminal::Time);
    let mult = NodeKind::NodeNonTerminal(NodeNonTerminal::Mult(binop(x(), time())));
    assert_eq!(
        generate_shader_code(&mult),
        "(UV.x * 2.0 - 1.0) * (sin(TIME))"
    );
    let modulo = NodeKind::NodeNonTerminal(NodeNonTerminal::Mod(binop(time(), x())));
    assert_eq!(
        generate_shader_code(&modulo),
        "fix_fmod(sin(TIME), UV.x * 2.0 - 1.0)"
    );
    let sqrt = NodeKind::NodeNonTerminal(NodeNonTerminal::Sqrt(NodeUnop { value: leaf(NodeTerminal::X) }));
    assert_eq!(generate_shader_code(&sqrt), "sqrt(abs(UV.x * 2.0 - 1.0))");
    let abs = NodeKind::NodeNonTerminal(NodeNonTerminal::Abs(NodeUnop { value: leaf(NodeTerminal::Time) }));
    assert_eq!(generate_shader_code(&abs), "abs(sin(TIME))");
    let sin = NodeKind::NodeNonTerminal(NodeNonTerminal::Sin(NodeUnop { value: leaf(NodeTerminal::Y) }));
    assert_eq!(generate_shader_code(&sin), "sin(UV.y * 2.0 - 1.0)");
}

#[test]
fn constants_print_as_floating_literals() {
    let cases = [
        (0u32, "float(-1)"),
        (1000, "float(0)"),
        (2000, "float(1)"),
        (1500, "float(0.5)"),
        (1250, "float(0.25)"),
        (1050, "float(0.05)"),
        (999, "float(-0.001)"),
        (683, "float(-0.317)"),
        (1900, "float(0.9)"),
    ];
    for (k, expected) in cases {
        let node = NodeKind::NodeTerminal(NodeTerminal::Random(k));
        assert_eq!(generate_shader_code(&node), expected);
    }
}

#[test]
fn shader_source_wraps_three_expressions() {
    let source = new_shader_code(99, 4);
    assert!(source.starts_with("\n        shader_type spatial;\n\t\trender_mode unshaded;"));
    assert!(source.contains("float fix_fmod(float x, float y) {"));
    assert!(source.contains("return sign(x) * (abs(x) - y * floor(abs(x) / y));"));
    assert!(source.contains("\t\t\tALBEDO = vec3("));
    assert!(source.ends_with(");\n\t\t}\n        "));
}

#[test]
fn fix_fmod_helper_always_in_template() {
    // the helper is declared even when no tree uses the modulo operator
    let source = new_shader_code(0, 0);
    assert!(source.contains("fix_fmod"));
}

#[test]
fn default_node_is_var_x() {
    assert_eq!(
        NodeKind::default(),
        NodeKind::NodeTerminal(NodeTerminal::X)
    );
    let b = NodeBinop::default();
    assert_eq!(*b.lhs, NodeKind::default());
    assert_eq!(*b.rhs, NodeKind::default());
    let u = NodeUnop::default();
    assert_eq!(*u.value, NodeKind::default());
}
