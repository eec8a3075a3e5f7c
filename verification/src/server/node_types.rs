use vstd::prelude::*;

use crate::ua::{
    AccessLevelType, EventNotifierType, IdentifierView, LocalizedText, NodeClass, NodeId,
    NodeIdView, QualifiedName, Variant,
};

verus! {

/// Attributes of an object node.
#[derive(Debug, Clone)]
pub struct ObjectAttributes {
    pub display_name: Option<LocalizedText>,
    pub description: Option<LocalizedText>,
    pub event_notifier: EventNotifierType,
}

impl ObjectAttributes {
    /// Attributes with nothing set.
    pub fn init() -> (r: ObjectAttributes)
        ensures
            r.display_name is None,
            r.description is None,
            r.event_notifier == EventNotifierType(0),
    {
        ObjectAttributes { display_name: None, description: None, event_notifier: EventNotifierType(0) }
    }
}

/// Attributes of a variable node.
#[derive(Debug, Clone)]
pub struct VariableAttributes {
    pub display_name: Option<LocalizedText>,
    pub description: Option<LocalizedText>,
    pub value: Variant,
    pub data_type: Option<NodeId>,
    /// Value rank: -1 scalar, 0 or more array dimensions, -2 any, -3 scalar or one dimension.
    pub value_rank: i32,
    pub access_level: AccessLevelType,
}

impl VariableAttributes {
    /// Attributes with nothing set.
    pub fn init() -> (r: VariableAttributes)
        ensures
            r.display_name is None,
            r.description is None,
            r.value is Empty,
            r.data_type is None,
            r.value_rank == 0,
            r.access_level == AccessLevelType(0),
    {
        VariableAttributes {
            display_name: None,
            description: None,
            value: Variant::Empty,
            data_type: None,
            value_rank: 0,
            access_level: AccessLevelType(0),
        }
    }

    /// Sets the data type.
    pub fn with_data_type(self, data_type: &NodeId) -> (r: VariableAttributes)
        ensures
            r.data_type matches Some(d) && d@ == data_type@,
            r.value_rank == self.value_rank,
            r.access_level == self.access_level,
    {
        let mut a = self;
        a.data_type = Some(data_type.clone());
        a
    }

    /// Sets the value rank.
    pub fn with_value_rank(self, value_rank: i32) -> (r: VariableAttributes)
        ensures
            r == (VariableAttributes { value_rank, ..self }),
    {
        let mut a = self;
        a.value_rank = value_rank;
        a
    }

    /// Sets the access level.
    pub fn with_access_level(self, access_level: AccessLevelType) -> (r: VariableAttributes)
        ensures
            r == (VariableAttributes { access_level, ..self }),
    {
        let mut a = self;
        a.access_level = access_level;
        a
    }
}

/// Attributes of a method node.
#[derive(Debug, Clone)]
pub struct MethodAttributes {
    pub display_name: Option<LocalizedText>,
    pub description: Option<LocalizedText>,
    pub executable: bool,
}

/// Argument of a method.
#[derive(Debug, Clone)]
pub struct Argument {
    pub name: String,
    pub data_type: NodeId,
    pub value_rank: i32,
    pub description: LocalizedText,
}

/// Object node to add to the address space.
#[derive(Debug, Clone)]
pub struct ObjectNode {
    pub requested_new_node_id: Option<NodeId>,
    pub parent_node_id: NodeId,
    pub reference_type_id: NodeId,
    pub browse_name: QualifiedName,
    pub type_definition: NodeId,
    pub attributes: ObjectAttributes,
}

/// Variable node to add to the address space.
#[derive(Debug, Clone)]
pub struct VariableNode {
    pub requested_new_node_id: Option<NodeId>,
    pub parent_node_id: NodeId,
    pub reference_type_id: NodeId,
    pub browse_name: QualifiedName,
    pub type_definition: NodeId,
    pub attributes: VariableAttributes,
}

/// Method node to add to the address space.
#[derive(Debug, Clone)]
pub struct MethodNode {
    pub requested_new_node_id: Option<NodeId>,
    pub parent_node_id: NodeId,
    pub reference_type_id: NodeId,
    pub browse_name: QualifiedName,
    pub attributes: MethodAttributes,
    pub input_arguments: Vec<Argument>,
    pub input_arguments_requested_new_node_id: Option<NodeId>,
    pub output_arguments: Vec<Argument>,
    pub output_arguments_requested_new_node_id: Option<NodeId>,
}

/// Constructor and destructor callbacks of a node type.
#[derive(Debug)]
pub struct NodeTypeLifecycle {}

/// Copies localized text.
fn copy_localized_text(text: &LocalizedText) -> (r: LocalizedText)
    ensures
        r.locale@ == text.locale@,
        r.text@ == text.text@,
{
    LocalizedText::new(text.locale.as_str(), text.text.as_str())
}

/// Whether `a` holds the same text as `b`.
pub open spec fn same_text(a: LocalizedText, b: LocalizedText) -> bool {
    a.locale@ == b.locale@ && a.text@ == b.text@
}

/// Attributes of a kind of server node.
pub trait Attributes: Sized {
    /// Node class that nodes with these attributes have.
    spec fn spec_node_class() -> NodeClass;

    /// Display name held in the attributes.
    spec fn spec_display_name(&self) -> Option<LocalizedText>;

    /// Gets the node class that nodes with these attributes have.
    fn node_class(&self) -> (r: NodeClass)
        ensures
            r == Self::spec_node_class(),
    ;

    /// Attributes with nothing set.
    fn init() -> (r: Self)
        ensures
            r.spec_display_name() is None,
    ;

    /// Sets the display name.
    fn with_display_name(self, display_name: &LocalizedText) -> (r: Self)
        ensures
            r.spec_display_name() matches Some(d) && same_text(d, *display_name),
    ;
}

impl Attributes for ObjectAttributes {
    open spec fn spec_node_class() -> NodeClass {
        NodeClass::spec_object()
    }

    open spec fn spec_display_name(&self) -> Option<LocalizedText> {
        self.display_name
    }

    fn node_class(&self) -> (r: NodeClass) {
        NodeClass::object()
    }

    fn init() -> (r: Self) {
        ObjectAttributes::init()
    }

    fn with_display_name(self, display_name: &LocalizedText) -> (r: Self)
        ensures
            r.display_name matches Some(d) && same_text(d, *display_name),
            r.description == self.description,
            r.event_notifier == self.event_notifier,
    {
        ObjectAttributes { display_name: Some(copy_localized_text(display_name)), ..self }
    }
}

impl Attributes for VariableAttributes {
    open spec fn spec_node_class() -> NodeClass {
        NodeClass::spec_variable()
    }

    open spec fn spec_display_name(&self) -> Option<LocalizedText> {
        self.display_name
    }

    fn node_class(&self) -> (r: NodeClass) {
        NodeClass::variable()
    }

    fn init() -> (r: Self) {
        VariableAttributes::init()
    }

    fn with_display_name(self, display_name: &LocalizedText) -> (r: Self)
        ensures
            r.display_name matches Some(d) && same_text(d, *display_name),
            r.description == self.description,
            r.value == self.value,
            r.data_type == self.data_type,
            r.value_rank == self.value_rank,
            r.access_level == self.access_level,
    {
        VariableAttributes { display_name: Some(copy_localized_text(display_name)), ..self }
    }
}

impl Attributes for MethodAttributes {
    open spec fn spec_node_class() -> NodeClass {
        NodeClass::spec_method()
    }

    open spec fn spec_display_name(&self) -> Option<LocalizedText> {
        self.display_name
    }

    fn node_class(&self) -> (r: NodeClass) {
        NodeClass::method()
    }

    fn init() -> (r: Self) {
        MethodAttributes { display_name: None, description: None, executable: false }
    }

    fn with_display_name(self, display_name: &LocalizedText) -> (r: Self)
        ensures
            r.display_name matches Some(d) && same_text(d, *display_name),
            r.description == self.description,
            r.executable == self.executable,
    {
        MethodAttributes { display_name: Some(copy_localized_text(display_name)), ..self }
    }
}

/// The display name that the attributes trait speaks of is the attributes' own `display_name`
/// field, for each kind of node: setting the display name sets that field, never the
/// description.
pub proof fn lemma_display_name_is_field(
    o: ObjectAttributes,
    v: VariableAttributes,
    m: MethodAttributes,
)
    ensures
        o.spec_display_name() == o.display_name,
        v.spec_display_name() == v.display_name,
        m.spec_display_name() == m.display_name,
{
}

/// View of the null node ID.
pub open spec fn null_node_id() -> NodeIdView {
    NodeIdView { namespace_index: 0, identifier: IdentifierView::Numeric(0) }
}

/// Node to add to the address space of a server, with attributes `T` and, once attached, the
/// context `C` that the server keeps with it.
pub struct Node<T, C> {
    pub requested_new_node_id: Option<NodeId>,
    pub parent_node_id: NodeId,
    pub reference_type_id: NodeId,
    pub browse_name: QualifiedName,
    pub type_definition: NodeId,
    pub attributes: T,
    pub context: Option<C>,
}

impl<T: Attributes, C> Node<T, C> {
    /// Node with null node IDs, an empty browse name and attributes with nothing set.
    pub fn init() -> (r: Self)
        ensures
            r.requested_new_node_id is None,
            r.parent_node_id@ == null_node_id(),
            r.reference_type_id@ == null_node_id(),
            r.browse_name.namespace_index == 0,
            r.browse_name.name@.len() == 0,
            r.type_definition@ == null_node_id(),
            r.attributes.spec_display_name() is None,
            r.context is None,
    {
        let browse_name = QualifiedName { namespace_index: 0, name: String::new() };
        Node {
            requested_new_node_id: None,
            parent_node_id: NodeId::null(),
            reference_type_id: NodeId::null(),
            browse_name,
            type_definition: NodeId::null(),
            attributes: T::init(),
            context: None,
        }
    }
}

impl<T, C> Node<T, C> {
    /// Node under `parent_node_id`, referenced by `reference_type_id`, with no type definition
    /// and no requested node ID.
    pub fn new(
        parent_node_id: NodeId,
        reference_type_id: NodeId,
        browse_name: QualifiedName,
        attributes: T,
    ) -> (r: Self)
        ensures
            r.requested_new_node_id is None,
            r.parent_node_id == parent_node_id,
            r.reference_type_id == reference_type_id,
            r.browse_name == browse_name,
            r.type_definition@ == null_node_id(),
            r.attributes == attributes,
            r.context is None,
    {
        Node {
            requested_new_node_id: None,
            parent_node_id,
            reference_type_id,
            browse_name,
            type_definition: NodeId::null(),
            attributes,
            context: None,
        }
    }

    /// Requests a node ID for the new node.
    pub fn with_requested_new_node_id(self, requested_new_node_id: NodeId) -> (r: Self)
        ensures
            r == (Node { requested_new_node_id: Some(requested_new_node_id), ..self }),
    {
        Node { requested_new_node_id: Some(requested_new_node_id), ..self }
    }

    /// Sets the type definition.
    pub fn with_type_definition(self, type_definition: NodeId) -> (r: Self)
        ensures
            r == (Node { type_definition, ..self }),
    {
        Node { type_definition, ..self }
    }

    /// Attaches the context that the server keeps with the node.
    pub fn with_context(self, context: C) -> (r: Self)
        ensures
            r == (Node { context: Some(context), ..self }),
    {
        Node { context: Some(context), ..self }
    }

    /// Gets the requested node ID.
    pub fn requested_new_node_id(&self) -> (r: Option<&NodeId>)
        ensures
            r == match self.requested_new_node_id {
                Some(n) => Some(&n),
                None => None::<&NodeId>,
            },
    {
        match &self.requested_new_node_id {
            Some(n) => Some(n),
            None => None,
        }
    }

    /// Gets the parent node ID.
    pub fn parent_node_id(&self) -> (r: &NodeId)
        ensures
            *r == self.parent_node_id,
    {
        &self.parent_node_id
    }

    /// Gets the reference type ID.
    pub fn reference_type_id(&self) -> (r: &NodeId)
        ensures
            *r == self.reference_type_id,
    {
        &self.reference_type_id
    }

    /// Gets the browse name.
    pub fn browse_name(&self) -> (r: &QualifiedName)
        ensures
            *r == self.browse_name,
    {
        &self.browse_name
    }

    /// Gets the type definition.
    pub fn type_definition(&self) -> (r: &NodeId)
        ensures
            *r == self.type_definition,
    {
        &self.type_definition
    }

    /// Gets the attributes.
    pub fn attributes(&self) -> (r: &T)
        ensures
            *r == self.attributes,
    {
        &self.attributes
    }
}

} // verus!
