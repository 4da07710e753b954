//! The record of a node in its other form: the parent apart from what the
//! node is.

use vstd::prelude::*;
use super::{LeafViewport, Split, ViewportNodeID};

verus! {

#[derive(Debug, Copy, Clone, PartialEq, Eq)]
pub struct ViewportNode {
    pub parent: Option<ViewportNodeID>,
    pub value: ViewportNodeValue,
}

#[derive(Debug, Copy, Clone, PartialEq, Eq)]
pub enum ViewportNodeValue {
    Leaf(LeafViewport),
    Split { split: Split, children: (ViewportNodeID, ViewportNodeID) },
}

impl ViewportNode {
    /// The same record in the form of the node map.
    pub open spec fn record(self) -> super::ViewportNode {
        match self.value {
            ViewportNodeValue::Leaf(info) => super::ViewportNode::Whole { parent: self.parent, info },
            ViewportNodeValue::Split { split, children } => super::ViewportNode::Split {
                parent: self.parent,
                split,
                children,
            },
        }
    }

    /// A leaf without a parent, showing `leaf`.
    pub fn new_root(leaf: LeafViewport) -> (node: Self)
        ensures
            node == (ViewportNode { parent: None, value: ViewportNodeValue::Leaf(leaf) }),
    {
        Self { parent: None, value: ViewportNodeValue::Leaf(leaf) }
    }

    /// Brings a record of the node map into this form.
    pub fn from_record(record: &super::ViewportNode) -> (node: Self)
        ensures
            node.record() == *record,
    {
        match record {
            super::ViewportNode::Whole { parent, info } => Self {
                parent: *parent,
                value: ViewportNodeValue::Leaf(*info),
            },
            super::ViewportNode::Split { parent, split, children } => Self {
                parent: *parent,
                value: ViewportNodeValue::Split { split: *split, children: *children },
            },
        }
    }
}

impl ViewportNodeValue {
    /// What the leaf shows. Only a leaf can be asked.
    pub fn unwrap_leaf(&self) -> (leaf: &LeafViewport)
        requires
            self is Leaf,
        ensures
            *leaf == self->Leaf_0,
    {
        match self {
            ViewportNodeValue::Leaf(leaf) => leaf,
            _ => vstd::pervasive::unreached(),
        }
    }
}

} // verus!
