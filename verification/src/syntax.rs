//! The shape of a parsed shader module: the `use`-tree vocabulary that
//! module dependencies are written in, and the attribute commands that
//! change how a statement is treated. Reading these out of Rust source
//! belongs to the embedding application; the tree itself, and everything
//! decided over it, lives here.

use crate::utils::clone_string;
use vstd::prelude::*;

verus! {

/// A single imported name, the leaf of a use tree.
#[derive(Debug, PartialEq)]
pub struct UseName {
    pub name: String,
}

/// A path segment followed by the rest of the tree.
#[derive(Debug, PartialEq)]
pub struct UsePath {
    pub path: String,
    pub next: Box<UseTree>,
}

/// A braced group of subtrees.
#[derive(Debug, PartialEq)]
pub struct UseGroup {
    pub group: Vec<Box<UseTree>>,
}

/// A module dependency written as a `use` tree. Renaming (`as`) is not
/// supported: the embedding parser rejects it before a tree is built.
#[derive(Debug, PartialEq)]
pub enum UseTree {
    All,
    Name(UseName),
    Path(UsePath),
    Group(UseGroup),
}

/// The shader module surface: the dependencies it names, to be resolved
/// during shader loading by injection of the corresponding syntax trees.
#[derive(Debug)]
pub struct ShaderModule {
    pub external: Vec<UseTree>,
}

/// An attribute command attached to a statement of a shader module:
/// either the order to ignore the statement, or no recognized command.
#[derive(Debug)]
pub enum AttributeCommand {
    Ignore,
    Absent,
}

impl AttributeCommand {
    /// Whether this command orders the statement to be ignored.
    pub fn ignore(&self) -> (r: bool)
        ensures
            r == (self is Ignore),
    {
        match self {
            AttributeCommand::Ignore => true,
            AttributeCommand::Absent => false,
        }
    }
}

/// A module dependency as read out of Rust source, before validation:
/// the same shapes as [`UseTree`] plus the renaming form, which the shader
/// language rejects.
pub enum RawUseTree {
    Glob,
    Name(String),
    Path(String, Box<RawUseTree>),
    Group(Vec<RawUseTree>),
    Rename(String, String),
}

/// The one way building a [`UseTree`] can fail: the source renames a
/// module, which is not supported.
#[derive(Debug, PartialEq)]
pub enum UseTreeError {
    RenameUnsupported,
}

/// Whether `raw` contains no renaming form anywhere.
pub open spec fn rename_free(raw: RawUseTree) -> bool
    decreases raw,
{
    match raw {
        RawUseTree::Glob => true,
        RawUseTree::Name(_) => true,
        RawUseTree::Path(_, rest) => rename_free(*rest),
        RawUseTree::Group(items) => forall|i: int|
            0 <= i < items@.len() ==> rename_free(#[trigger] items@[i]),
        RawUseTree::Rename(_, _) => false,
    }
}

/// Whether `tree` is exactly the use tree that `raw` spells: the same
/// shape, the same names, and no renaming form anywhere.
pub open spec fn corresponds(raw: RawUseTree, tree: UseTree) -> bool
    decreases raw,
{
    match raw {
        RawUseTree::Glob => tree is All,
        RawUseTree::Name(name) => tree matches UseTree::Name(leaf) && leaf.name@ == name@,
        RawUseTree::Path(segment, rest) => tree matches UseTree::Path(path) && path.path@
            == segment@ && corresponds(*rest, *path.next),
        RawUseTree::Group(items) => tree matches UseTree::Group(group) && group.group@.len()
            == items@.len() && (forall|i: int|
            0 <= i < items@.len() ==> corresponds(#[trigger] items@[i], *group.group@[i])),
        RawUseTree::Rename(_, _) => false,
    }
}

impl UseTree {
    /// Builds the use tree that `raw` spells, or reports the renaming form
    /// as unsupported: the result is `Ok` exactly when no renaming occurs.
    pub fn from(raw: &RawUseTree) -> (r: Result<UseTree, UseTreeError>)
        ensures
            r is Ok <==> rename_free(*raw),
            r matches Ok(tree) ==> corresponds(*raw, tree),
            r matches Err(e) ==> e == UseTreeError::RenameUnsupported,
        decreases *raw,
    {
        match raw {
            RawUseTree::Glob => Ok(UseTree::All),
            RawUseTree::Name(name) => Ok(UseTree::Name(UseName { name: clone_string(name) })),
            RawUseTree::Path(segment, rest) => {
                let next = UseTree::from(rest)?;
                Ok(UseTree::Path(UsePath { path: clone_string(segment), next: Box::new(next) }))
            },
            RawUseTree::Group(items) => {
                let mut group: Vec<Box<UseTree>> = Vec::new();
                let mut i: usize = 0;
                while i < items.len()
                    invariant
                        *raw == RawUseTree::Group(*items),
                        i <= items@.len(),
                        group@.len() == i,
                        forall|j: int| 0 <= j < i ==> rename_free(#[trigger] items@[j]),
                        forall|j: int|
                            0 <= j < i ==> corresponds(#[trigger] items@[j], *group@[j]),
                    decreases items@.len() - i,
                {
                    proof {
                        assert(decreases_to!(*raw => (*raw)->Group_0));
                        assert((*raw)->Group_0 == *items);
                        vstd::std_specs::vec::axiom_vec_index_decreases(*items, i as int);
                        assert(decreases_to!(*raw => items[i as int]));
                    }
                    let converted = UseTree::from(&items[i])?;
                    group.push(Box::new(converted));
                    i = i + 1;
                }
                Ok(UseTree::Group(UseGroup { group }))
            },
            RawUseTree::Rename(_, _) => Err(UseTreeError::RenameUnsupported),
        }
    }
}

} // verus!
