//! Trees and the views that read them.
//!
//! A tree is shared by counted reference. Each view holds a reference of
//! its own beside the position it reads, so that a view can be moved and
//! dropped by itself and the tree lives as long as any of them.

use crate::engine::{
    root_field_id, root_field_name, root_id, root_kind, root_kind_id, root_language, share_tree,
    tree_language, tree_root_id, tree_root_kind, tree_root_kind_id,
};
use crate::language::PyLanguage;
use std::sync::Arc;
use vstd::prelude::*;

verus! {

/// The result of one parse. It never changes once it is made.
#[derive(Debug)]
pub struct PyTree {
    pub inner: Arc<tree_sitter::Tree>,
}

/// A read-only view of a tree's root.
#[derive(Debug)]
pub struct PyNode {
    tree: Arc<tree_sitter::Tree>,
}

/// A traversal handle over a tree, standing at its root.
pub struct PyTreeCursor {
    tree: Arc<tree_sitter::Tree>,
}

impl PyTree {
    /// The grammar that the tree was parsed under.
    pub open spec fn language_spec(&self) -> PyLanguage {
        PyLanguage { inner: tree_language(*self.inner) }
    }

    /// The identity of the root.
    pub open spec fn root_id_spec(&self) -> usize {
        tree_root_id(*self.inner)
    }

    /// The grammar symbol of the root.
    pub open spec fn root_kind_id_spec(&self) -> u16 {
        tree_root_kind_id(*self.inner)
    }

    /// The name of the root's grammar symbol.
    pub open spec fn root_kind_spec(&self) -> Seq<char> {
        tree_root_kind(*self.inner)
    }

    /// A view of the root that holds its own reference to this tree.
    pub fn root_node(&self) -> (node: PyNode)
        ensures
            node.owner() == *self,
    {
        PyNode { tree: share_tree(&self.inner) }
    }

    /// A cursor that holds its own reference to this tree and starts at
    /// its root.
    pub fn walk(&self) -> (cursor: PyTreeCursor)
        ensures
            cursor.owner() == *self,
            cursor.position() == self.root_id_spec(),
    {
        PyTreeCursor { tree: share_tree(&self.inner) }
    }
}

impl Clone for PyTree {
    /// One more handle to the same tree.
    fn clone(&self) -> (tree: PyTree)
        ensures
            tree == *self,
    {
        PyTree { inner: share_tree(&self.inner) }
    }
}

impl PyNode {
    /// The tree that the node reads and keeps alive.
    pub closed spec fn owner(&self) -> PyTree {
        PyTree { inner: self.tree }
    }

    /// The node's identity: the same at every query while the tree lives,
    /// and never zero.
    pub fn id(&self) -> (id: usize)
        ensures
            id == self.owner().root_id_spec(),
            id != 0,
    {
        root_id(&*self.tree)
    }

    /// The node's grammar symbol.
    pub fn kind_id(&self) -> (kind_id: u16)
        ensures
            kind_id == self.owner().root_kind_id_spec(),
    {
        root_kind_id(&*self.tree)
    }

    /// The name of the node's grammar symbol: the name that the node's
    /// grammar gives to the node's symbol, whatever the tree. The string
    /// belongs to the grammar, so it outlives the node and the tree.
    pub fn kind(&self) -> (kind: &'static str)
        ensures
            kind@ == self.owner().root_kind_spec(),
            self.owner().language_spec().kind_name(self.owner().root_kind_id_spec()) == Some(
                kind@,
            ),
    {
        root_kind(&*self.tree)
    }

    /// The grammar in which the node's symbols are defined: that of its
    /// tree.
    pub fn language(&self) -> (language: PyLanguage)
        ensures
            language == self.owner().language_spec(),
    {
        PyLanguage::from(root_language(&*self.tree))
    }
}

impl PyTreeCursor {
    /// The tree that the cursor walks and keeps alive.
    pub closed spec fn owner(&self) -> PyTree {
        PyTree { inner: self.tree }
    }

    /// The identity of the node at which the cursor stands. A cursor is
    /// made at the root and has no operation that moves it.
    pub open spec fn position(&self) -> usize {
        self.owner().root_id_spec()
    }

    /// The field under which the cursor's node sits in its parent. The
    /// root has no parent, so there is none.
    pub fn field_id(&self) -> (field_id: Option<u16>)
        ensures
            field_id is None,
    {
        root_field_id(&*self.tree)
    }

    /// The name of that field: none at the root.
    pub fn field_name(&self) -> (field_name: Option<&'static str>)
        ensures
            field_name is None,
    {
        root_field_name(&*self.tree)
    }
}

} // verus!
