use vstd::prelude::*;

use crate::ua::{IdentifierView, NodeId, NodeIdView};

verus! {

/// Node IDs of the input and output argument nodes of a method node.
#[derive(Debug)]
pub struct MethodNodeArgumentsNodeIds {
    pub input: NodeId,
    pub output: NodeId,
}

impl MethodNodeArgumentsNodeIds {
    /// Both node IDs null.
    pub fn init() -> (r: MethodNodeArgumentsNodeIds)
        ensures
            r.input@ == (NodeIdView { namespace_index: 0, identifier: IdentifierView::Numeric(0) }),
            r.output@ == (NodeIdView { namespace_index: 0, identifier: IdentifierView::Numeric(0) }),
    {
        MethodNodeArgumentsNodeIds { input: NodeId::null(), output: NodeId::null() }
    }
}

} // verus!
