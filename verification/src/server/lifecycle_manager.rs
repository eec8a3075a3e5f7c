//! Bookkeeping for the constructor and destructor of a node type.
use vstd::prelude::*;

use crate::server::node_types::{Node, NodeTypeLifecycle};
use crate::ua::{NodeId, StatusCode};
use crate::{Error, Result};

verus! {

/// Collects what is needed to give a node type a lifecycle on a server: the type's node ID,
/// the lifecycle callbacks, and the node context `C` through which they reach the user's
/// implementation.
///
/// The callbacks are handed out once, to be set on the server; the context is attached to each
/// node of the type that is added.
pub struct LifecycleManager<'a, C> {
    node_type_id: Option<&'a NodeId>,
    node_context: Option<C>,
    node_type_lifecycle: Option<NodeTypeLifecycle>,
}

impl<'a, C> LifecycleManager<'a, C> {
    /// Node ID of the type, if given.
    pub closed spec fn spec_node_type_id(&self) -> Option<&'a NodeId> {
        self.node_type_id
    }

    /// Node context, if a lifecycle was given.
    pub closed spec fn spec_node_context(&self) -> Option<C> {
        self.node_context
    }

    /// Whether the lifecycle callbacks are still to be set on the server.
    pub closed spec fn spec_has_node_type_lifecycle(&self) -> bool {
        self.node_type_lifecycle is Some
    }

    /// Whether the callbacks can be handed out to be set on the server.
    pub open spec fn can_set_node_type_lifecycle(&self) -> bool {
        self.spec_node_type_id() is Some && self.spec_has_node_type_lifecycle()
    }

    /// Manager with nothing set.
    pub fn init() -> (r: Self)
        ensures
            r.spec_node_type_id() is None,
            r.spec_node_context() is None,
            !r.spec_has_node_type_lifecycle(),
    {
        LifecycleManager { node_type_id: None, node_context: None, node_type_lifecycle: None }
    }

    /// Sets the node ID of the type whose nodes get the lifecycle.
    pub fn with_type_node(self, node_type_id: &'a NodeId) -> (r: Self)
        ensures
            r.spec_node_type_id() == Some(node_type_id),
            r.spec_node_context() == self.spec_node_context(),
            r.spec_has_node_type_lifecycle() == self.spec_has_node_type_lifecycle(),
    {
        LifecycleManager { node_type_id: Some(node_type_id), ..self }
    }

    /// Sets the lifecycle: the callbacks to set on the server and the node context through
    /// which they reach the implementation.
    pub fn with_lifecycle(self, node_context: C) -> (r: Self)
        ensures
            r.spec_node_type_id() == self.spec_node_type_id(),
            r.spec_node_context() == Some(node_context),
            r.spec_has_node_type_lifecycle(),
    {
        LifecycleManager {
            node_type_id: self.node_type_id,
            node_context: Some(node_context),
            node_type_lifecycle: Some(NodeTypeLifecycle {}),
        }
    }

    /// Gets the node context to attach to a node of the type before it is added to the
    /// server; an error when no lifecycle was given.
    pub fn node_context(&self) -> (r: Result<&C>)
        ensures
            r is Ok <==> self.spec_node_context() is Some,
            r matches Ok(c) ==> Some(*c) == self.spec_node_context(),
            r matches Err(e) ==> e is Internal,
    {
        match &self.node_context {
            Some(c) => Ok(c),
            None => Err(
                Error::internal(
                    "node context is not set: call `LifecycleManager::with_lifecycle()` first",
                ),
            ),
        }
    }

    /// Gives a node of the type a clone of the node context, ready to be added to the server;
    /// an error when no lifecycle was given.
    pub fn node_with_lifecycle<T>(&self, node: Node<T, C>) -> (r: Result<Node<T, C>>) where
        C: Clone,
        ensures
            r is Ok <==> self.spec_node_context() is Some,
            r matches Ok(n) ==> {
                &&& n.context matches Some(c) && cloned(self.spec_node_context()->0, c)
                &&& n == (Node { context: n.context, ..node })
            },
            r matches Err(e) ==> e is Internal,
    {
        let context = self.node_context()?;
        Ok(node.with_context(context.clone()))
    }

    /// Hands out the type's node ID and the lifecycle callbacks to be set on the server; they
    /// are handed out once. An error when the type node or the lifecycle is missing, or when they
    /// were handed out already.
    pub fn take_node_type_lifecycle(self) -> (r: Result<(Self, &'a NodeId, NodeTypeLifecycle)>)
        ensures
            r is Ok <==> self.can_set_node_type_lifecycle(),
            r matches Ok((m, id, _)) ==> {
                &&& Some(id) == self.spec_node_type_id()
                &&& m.spec_node_type_id() == self.spec_node_type_id()
                &&& m.spec_node_context() == self.spec_node_context()
                &&& !m.spec_has_node_type_lifecycle()
            },
            r matches Err(e) ==> e is Internal,
    {
        let node_type_id = match self.node_type_id {
            Some(id) => id,
            None => {
                return Err(
                    Error::internal(
                        "type node is not set: call `LifecycleManager::with_type_node()` first",
                    ),
                );
            },
        };
        let node_type_lifecycle = match self.node_type_lifecycle {
            Some(l) => l,
            None => {
                return Err(
                    Error::internal(
                        "lifecycle is not set, or was set on the server already: call `LifecycleManager::with_lifecycle()` first",
                    ),
                );
            },
        };
        let manager = LifecycleManager {
            node_type_id: Some(node_type_id),
            node_context: self.node_context,
            node_type_lifecycle: None,
        };
        Ok((manager, node_type_id, node_type_lifecycle))
    }
}

/// The lifecycle of a node type is set on the server at most once per call of
/// `with_lifecycle`: once handed out, the callbacks cannot be handed out again, while nodes can
/// still be given the node context.
pub proof fn lemma_node_type_lifecycle_once<'a, C>(
    before: LifecycleManager<'a, C>,
    after: LifecycleManager<'a, C>,
)
    requires
        before.can_set_node_type_lifecycle(),
        after.spec_node_type_id() == before.spec_node_type_id(),
        after.spec_node_context() == before.spec_node_context(),
        !after.spec_has_node_type_lifecycle(),
    ensures
        !after.can_set_node_type_lifecycle(),
        after.spec_node_context() == before.spec_node_context(),
{
}

/// Status code that constructing a node of the type reports: what the lifecycle's constructor
/// returned, or `BADINTERNALERROR` when the node has no lifecycle context (`None`), as when it
/// was added without the manager's node context.
pub fn constructor_status_code(outcome: Option<StatusCode>) -> (r: StatusCode)
    ensures
        r == match outcome {
            Some(s) => s,
            None => StatusCode::spec_bad_internal_error(),
        },
{
    match outcome {
        Some(s) => s,
        None => StatusCode::bad_internal_error(),
    }
}

} // verus!
