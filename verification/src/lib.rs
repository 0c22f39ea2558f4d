//! A stochastic expression-tree generator for a shading language.
//!
//! Trees of arithmetic and trigonometric operations are built at random,
//! bounded in depth, and lowered to textual expressions that are spliced
//! into a fixed shader template.

pub mod emit;
pub mod gen;
pub mod node;
pub mod text;

pub use emit::generate_shader_code;
pub use gen::generate_tree;
pub use gen::new_shader_code;
pub use gen::terminal_for_choice;

pub use node::NodeBinop;
pub use node::NodeKind;
pub use node::NodeNonTerminal;
pub use node::NodeTerminal;
pub use node::NodeUnop;
