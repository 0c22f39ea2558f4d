use vstd::prelude::*;
use vstd::string::StringExecFns;

use crate::emit::generate_shader_code;
use crate::emit::render_spec;
use crate::node::CONST_DENOM;
use crate::node::NodeBinop;
use crate::node::NodeKind;
use crate::node::NodeNonTerminal;
use crate::node::NodeTerminal;
use crate::node::NodeUnop;

verus! {

/// The pseudo-random source driving generation. Opaque to the verifier:
/// it is seeded and advanced only through the wrappers below.
#[verifier::external_type_specification]
#[verifier::external_body]
pub struct ExStdRng(rand::rngs::StdRng);

/// Relies on rand's `SeedableRng::seed_from_u64`: builds a generator
/// from a word-sized seed; it cannot fail.
#[verifier::external_body]
fn rng_from_seed(seed: u64) -> (rng: rand::rngs::StdRng) {
    <rand::rngs::StdRng as rand::SeedableRng>::seed_from_u64(seed)
}

/// Relies on rand's `RngExt::random_range`: a draw from `0 .. n`, which
/// panics only on an empty range, ruled out by `n >= 1`. Nothing more is
/// assumed of the draw: every caller handles every value below `n`.
#[verifier::external_body]
fn rand_below(rng: &mut rand::rngs::StdRng, n: u32) -> (r: u32)
    requires
        n >= 1,
    ensures
        r < n,
{
    rand::RngExt::random_range(rng, 0..n)
}

/// The terminal leaf for a draw among the four leaf kinds, in grammar
/// order; `constant` is the grid index stored when the draw picks a
/// sampled constant, and is ignored otherwise.
pub fn terminal_for_choice(choice: u32, constant: u32) -> (n: NodeKind)
    ensures
        n is NodeTerminal,
        n.depth() == 0,
        choice == 0 ==> n == NodeKind::NodeTerminal(NodeTerminal::X),
        choice == 1 ==> n == NodeKind::NodeTerminal(NodeTerminal::Y),
        choice == 2 ==> n == NodeKind::NodeTerminal(NodeTerminal::Random(constant)),
        choice >= 3 ==> n == NodeKind::NodeTerminal(NodeTerminal::Time),
        constant <= 2 * CONST_DENOM ==> n.wf(),
{
    if choice == 0 {
        NodeKind::NodeTerminal(NodeTerminal::X)
    } else if choice == 1 {
        NodeKind::NodeTerminal(NodeTerminal::Y)
    } else if choice == 2 {
        NodeKind::NodeTerminal(NodeTerminal::Random(constant))
    } else {
        NodeKind::NodeTerminal(NodeTerminal::Time)
    }
}

/// Builds one random expression tree. At depth 0 a terminal is forced;
/// at any other depth a quarter of the draws stop at a terminal and the
/// rest expand a uniformly chosen operator whose children are generated
/// one level shallower, so the result never exceeds the depth bound.
///
/// Construction recurses once per tree level, so the call stack and the
/// expected tree size grow with `depth`; bounds in the tens are cheap,
/// far larger ones trade stack and memory for no visual gain.
pub fn generate_tree(depth: u32, rng: &mut rand::rngs::StdRng) -> (n: NodeKind)
    ensures
        n.wf(),
        n.depth() <= depth,
        depth == 0 ==> n is NodeTerminal,
    decreases depth,
{
    let stop: bool = if depth == 0 {
        true
    } else {
        rand_below(rng, 4) == 0
    };
    if stop {
        let choice = rand_below(rng, 4);
        let constant = rand_below(rng, 2 * CONST_DENOM + 1);
        terminal_for_choice(choice, constant)
    } else {
        let choice = rand_below(rng, 7);
        if choice == 0 {
            NodeKind::NodeNonTerminal(
                NodeNonTerminal::Add(
                    NodeBinop {
                        lhs: Box::new(generate_tree(depth - 1, rng)),
                        rhs: Box::new(generate_tree(depth - 1, rng)),
                    },
                ),
            )
        } else if choice == 1 {
            NodeKind::NodeNonTerminal(
                NodeNonTerminal::Mult(
                    NodeBinop {
                        lhs: Box::new(generate_tree(depth - 1, rng)),
                        rhs: Box::new(generate_tree(depth - 1, rng)),
                    },
                ),
            )
        } else if choice == 2 {
            NodeKind::NodeNonTerminal(
                NodeNonTerminal::Sqrt(NodeUnop { value: Box::new(generate_tree(depth - 1, rng)) }),
            )
        } else if choice == 3 {
            NodeKind::NodeNonTerminal(
                NodeNonTerminal::Abs(NodeUnop { value: Box::new(generate_tree(depth - 1, rng)) }),
            )
        } else if choice == 4 {
            NodeKind::NodeNonTerminal(
                NodeNonTerminal::Sin(NodeUnop { value: Box::new(generate_tree(depth - 1, rng)) }),
            )
        } else if choice == 5 {
            NodeKind::NodeNonTerminal(
                NodeNonTerminal::Mod(
                    NodeBinop {
                        lhs: Box::new(generate_tree(depth - 1, rng)),
                        rhs: Box::new(generate_tree(depth - 1, rng)),
                    },
                ),
            )
        } else {
            NodeKind::NodeNonTerminal(
                NodeNonTerminal::Gt(
                    NodeBinop {
                        lhs: Box::new(generate_tree(depth - 1, rng)),
                        rhs: Box::new(generate_tree(depth - 1, rng)),
                    },
                ),
            )
        }
    }
}

/// The fixed shader template around the three channel expressions.
pub open spec fn shader_source(r: Seq<char>, g: Seq<char>, b: Seq<char>) -> Seq<char> {
    "\n        shader_type spatial;\n\t\trender_mode unshaded;\n\n        float fix_fmod(float x, float y) {\n\t        return sign(x) * (abs(x) - y * floor(abs(x) / y));\n        }\n\n\t\tvoid fragment()\n\t\t{\n\t\t\tALBEDO = vec3("@
        + r + ", "@ + g + ", "@ + b + ");\n\t\t}\n        "@
}

/// The whole output is the fixed template around the renderings of three
/// well-formed trees, each within the depth bound.
pub open spec fn is_shader_source_for(s: Seq<char>, depth: u32) -> bool {
    exists|tr: NodeKind, tg: NodeKind, tb: NodeKind|
        #![trigger render_spec(tr), render_spec(tg), render_spec(tb)]
        tr.wf() && tg.wf() && tb.wf() && tr.depth() <= depth && tg.depth() <= depth && tb.depth()
            <= depth && s == shader_source(render_spec(tr), render_spec(tg), render_spec(tb))
}

/// Seeds the random source, generates one tree per color channel, renders
/// each, and splices the three expressions into the fixed template.
pub fn new_shader_code(seed: u64, depth: u32) -> (s: String)
    ensures
        is_shader_source_for(s@, depth),
{
    let mut rng = rng_from_seed(seed);
    let r_tree = generate_tree(depth, &mut rng);
    let g_tree = generate_tree(depth, &mut rng);
    let b_tree = generate_tree(depth, &mut rng);
    let r = generate_shader_code(&r_tree);
    let g = generate_shader_code(&g_tree);
    let b = generate_shader_code(&b_tree);
    let mut s = String::from_str(
        "\n        shader_type spatial;\n\t\trender_mode unshaded;\n\n        float fix_fmod(float x, float y) {\n\t        return sign(x) * (abs(x) - y * floor(abs(x) / y));\n        }\n\n\t\tvoid fragment()\n\t\t{\n\t\t\tALBEDO = vec3(",
    );
    s.append(r.as_str());
    s.append(", ");
    s.append(g.as_str());
    s.append(", ");
    s.append(b.as_str());
    s.append(");\n\t\t}\n        ");
    proof {
        assert(s@ =~= shader_source(render_spec(r_tree), render_spec(g_tree), render_spec(b_tree)));
    }
    s
}

} // verus!
