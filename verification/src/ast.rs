//! The abstract syntax tree that the shader tool-chain builds from a parsed
//! shader module. The tree itself carries no behaviour: it is the shared
//! vocabulary between the parsing front end and the code generators.

use vstd::prelude::*;

verus! {

/// A dependency named by a shader module, resolved during shader loading.
pub struct Import {
    /// The referenced module path.
    pub target: String,
    /// Whether the target is part of the shader standard library.
    pub built_in: bool,
}

/// A layout qualifier attached to a declaration.
pub enum Layout {
    Std430,
    Std130,
    Location(usize),
}

/// A uniform declaration.
pub struct Uniform {}

/// A stage input declaration.
pub struct Input {}

/// An assignment statement.
pub struct Assignment {}

/// Which pipeline stage a shader-stage node belongs to.
pub enum ShaderStageType {
    Vertex,
    Fragment,
}

/// A shader stage definition.
pub struct ShaderStage {}

/// One node of the syntax tree.
pub enum TreeNode {
    Empty,
    Import(Import),
    Layout(Layout),
    Uniform(Uniform),
    Input(Input),
    Assignment(Assignment),
    ShaderStage(ShaderStage),
    Statement,
    Expression,
    Identifier,
    Bracket(Box<TreeNode>),
    Literal,
}

/// A parsed shader module: a tree hanging off one root node.
pub struct AST {
    root: TreeNode,
}

impl AST {
    /// Wraps `root` as a finished tree.
    pub fn new(root: TreeNode) -> (r: AST)
        ensures
            r.root_node() == root,
    {
        AST { root }
    }

    /// The root node of the tree.
    pub closed spec fn root_node(self) -> TreeNode {
        self.root
    }

    /// Borrows the root node of the tree.
    pub fn root(&self) -> (r: &TreeNode)
        ensures
            r == self.root_node(),
    {
        &self.root
    }
}

} // verus!
