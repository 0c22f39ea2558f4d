use vstd::prelude::*;

verus! {

/// Number of grid points on each side of zero for a sampled constant.
/// An index `k` in `0 ..= 2 * CONST_DENOM` stands for the rational value
/// `(k - CONST_DENOM) / CONST_DENOM`, a point of the interval [-1, 1].
pub const CONST_DENOM: u32 = 1000;

/// A leaf of an expression tree: a grammar production with no
/// sub-expressions. `Random(k)` carries the grid index of a constant
/// sampled at construction time.
#[derive(Debug, Clone, Copy, PartialEq)]
pub enum NodeTerminal {
    X,
    Y,
    Random(u32),
    Time,
}

/// The two operands of a binary operator node.
#[derive(Debug, PartialEq)]
pub struct NodeBinop {
    pub lhs: Box<NodeKind>,
    pub rhs: Box<NodeKind>,
}

/// The single operand of a unary operator node.
#[derive(Debug, PartialEq)]
pub struct NodeUnop {
    pub value: Box<NodeKind>,
}

/// An inner node of an expression tree: a grammar production that
/// recurses into one or two sub-expressions.
#[derive(Debug, PartialEq)]
pub enum NodeNonTerminal {
    Add(NodeBinop),
    Mult(NodeBinop),
    Sqrt(NodeUnop),
    Abs(NodeUnop),
    Sin(NodeUnop),
    Mod(NodeBinop),
    Gt(NodeBinop),
}

/// An expression-tree node: either a terminal leaf or a non-terminal
/// operator owning its children.
#[derive(Debug, PartialEq)]
pub enum NodeKind {
    NodeTerminal(NodeTerminal),
    NodeNonTerminal(NodeNonTerminal),
}

/// The larger of two natural numbers.
pub open spec fn max_nat(a: nat, b: nat) -> nat {
    if a >= b {
        a
    } else {
        b
    }
}

impl NodeKind {
    /// The longest path from this node down to a leaf, counted in edges:
    /// a terminal has depth 0, an operator one more than its deepest child.
    pub open spec fn depth(self) -> nat
        decreases self,
    {
        match self {
            NodeKind::NodeTerminal(_) => 0,
            NodeKind::NodeNonTerminal(NodeNonTerminal::Add(b)) => 1 + max_nat(
                (*b.lhs).depth(),
                (*b.rhs).depth(),
            ),
            NodeKind::NodeNonTerminal(NodeNonTerminal::Mult(b)) => 1 + max_nat(
                (*b.lhs).depth(),
                (*b.rhs).depth(),
            ),
            NodeKind::NodeNonTerminal(NodeNonTerminal::Mod(b)) => 1 + max_nat(
                (*b.lhs).depth(),
                (*b.rhs).depth(),
            ),
            NodeKind::NodeNonTerminal(NodeNonTerminal::Gt(b)) => 1 + max_nat(
                (*b.lhs).depth(),
                (*b.rhs).depth(),
            ),
            NodeKind::NodeNonTerminal(NodeNonTerminal::Sqrt(u)) => 1 + (*u.value).depth(),
            NodeKind::NodeNonTerminal(NodeNonTerminal::Abs(u)) => 1 + (*u.value).depth(),
            NodeKind::NodeNonTerminal(NodeNonTerminal::Sin(u)) => 1 + (*u.value).depth(),
        }
    }

    /// Well-formedness: every sampled constant's grid index lies on the
    /// grid, in every node of the tree.
    pub open spec fn wf(self) -> bool
        decreases self,
    {
        match self {
            NodeKind::NodeTerminal(NodeTerminal::Random(k)) => k <= 2 * CONST_DENOM,
            NodeKind::NodeTerminal(_) => true,
            NodeKind::NodeNonTerminal(NodeNonTerminal::Add(b)) => (*b.lhs).wf() && (*b.rhs).wf(),
            NodeKind::NodeNonTerminal(NodeNonTerminal::Mult(b)) => (*b.lhs).wf() && (*b.rhs).wf(),
            NodeKind::NodeNonTerminal(NodeNonTerminal::Mod(b)) => (*b.lhs).wf() && (*b.rhs).wf(),
            NodeKind::NodeNonTerminal(NodeNonTerminal::Gt(b)) => (*b.lhs).wf() && (*b.rhs).wf(),
            NodeKind::NodeNonTerminal(NodeNonTerminal::Sqrt(u)) => (*u.value).wf(),
            NodeKind::NodeNonTerminal(NodeNonTerminal::Abs(u)) => (*u.value).wf(),
            NodeKind::NodeNonTerminal(NodeNonTerminal::Sin(u)) => (*u.value).wf(),
        }
    }
}

impl Default for NodeKind {
    /// The default node is the `X` terminal.
    fn default() -> (r: Self)
        ensures
            r == NodeKind::NodeTerminal(NodeTerminal::X),
    {
        NodeKind::NodeTerminal(NodeTerminal::X)
    }
}

impl Default for NodeBinop {
    /// Both operands default to the default node.
    fn default() -> (r: Self)
        ensures
            *r.lhs == NodeKind::NodeTerminal(NodeTerminal::X),
            *r.rhs == NodeKind::NodeTerminal(NodeTerminal::X),
    {
        NodeBinop { lhs: Box::new(NodeKind::NodeTerminal(NodeTerminal::X)), rhs: Box::new(
            NodeKind::NodeTerminal(NodeTerminal::X),
        ) }
    }
}

impl Default for NodeUnop {
    /// The operand defaults to the default node.
    fn default() -> (r: Self)
        ensures
            *r.value == NodeKind::NodeTerminal(NodeTerminal::X),
    {
        NodeUnop { value: Box::new(NodeKind::NodeTerminal(NodeTerminal::X)) }
    }
}

} // verus!
