//! The nodes of a feature description, as far as the stores read them.

use vstd::prelude::*;

verus! {

/// Identifier of a node: the index of its name among the names that the
/// node store has seen.
#[derive(Debug, Clone, Copy, PartialEq, Eq, Hash, Structural)]
pub struct NodeId(pub u32);

impl NodeId {
    /// The identifier with the given index. The largest `u32` is no index:
    /// it and everything above give `None`.
    pub fn try_from_usize(index: usize) -> (id: Option<NodeId>)
        ensures
            id is Some <==> index < u32::MAX,
            id matches Some(node_id) ==> node_id.0 == index,
    {
        if index >= u32::MAX as usize {
            None
        } else {
            Some(NodeId(index as u32))
        }
    }

    /// The index of the identifier.
    pub fn to_usize(self) -> (index: usize)
        ensures
            index == self.0,
    {
        self.0 as usize
    }
}

/// What every node has.
#[derive(Debug, Clone, Copy, PartialEq, Eq, Structural)]
pub struct NodeBase {
    /// The identifier of the node.
    pub id: NodeId,
}

impl NodeBase {
    /// The identifier of the node.
    pub fn id(&self) -> (id: NodeId)
        ensures
            id == self.id,
    {
        self.id
    }
}

/// What every node that stands for a register has.
#[derive(Debug, Clone)]
pub struct RegisterBase {
    /// The nodes whose change makes a cached value of this register stale.
    pub p_invalidators: Vec<NodeId>,
}

impl RegisterBase {
    /// The nodes whose change makes a cached value of this register stale.
    pub fn p_invalidators(&self) -> (invalidators: &[NodeId])
        ensures
            invalidators@ == self.p_invalidators@,
    {
        self.p_invalidators.as_slice()
    }
}

/// A node that stands for no register.
#[derive(Debug, Clone)]
pub struct Node {
    /// What the node has in common with every node.
    pub base: NodeBase,
}

impl Node {
    /// What the node has in common with every node.
    pub fn node_base(&self) -> (base: NodeBase)
        ensures
            base == self.base,
    {
        self.base
    }
}

/// A node that stands for a register.
#[derive(Debug, Clone)]
pub struct RegisterNode {
    /// What the node has in common with every node.
    pub base: NodeBase,
    /// What the node has in common with every register.
    pub register_base: RegisterBase,
}

impl RegisterNode {
    /// What the node has in common with every node.
    pub fn node_base(&self) -> (base: NodeBase)
        ensures
            base == self.base,
    {
        self.base
    }

    /// What the node has in common with every register.
    pub fn register_base(&self) -> (base: &RegisterBase)
        ensures
            *base == self.register_base,
    {
        &self.register_base
    }
}

/// A node of any kind.
#[derive(Debug, Clone)]
pub enum NodeData {
    Node(Box<Node>),
    Category(Box<Node>),
    Integer(Box<Node>),
    IntReg(Box<RegisterNode>),
    MaskedIntReg(Box<RegisterNode>),
    Boolean(Box<Node>),
    Command(Box<Node>),
    Enumeration(Box<Node>),
    Float(Box<Node>),
    FloatReg(Box<RegisterNode>),
    String(Box<Node>),
    StringReg(Box<RegisterNode>),
    Register(Box<RegisterNode>),
    Converter(Box<Node>),
    IntConverter(Box<Node>),
    SwissKnife(Box<Node>),
    IntSwissKnife(Box<Node>),
    Port(Box<Node>),
    /// A node of a kind that only devices on another bus have; nothing can
    /// be asked of it.
    ConfRom,
    /// See `ConfRom`.
    TextDesc,
    /// See `ConfRom`.
    IntKey,
    /// See `ConfRom`.
    AdvFeatureLock,
    /// See `ConfRom`.
    SmartFeature,
}

impl NodeData {
    /// What the node has in common with every node, where its kind has
    /// that.
    pub open spec fn spec_node_base(&self) -> Option<NodeBase> {
        match self {
            NodeData::Node(node) => Some(node.base),
            NodeData::Category(node) => Some(node.base),
            NodeData::Integer(node) => Some(node.base),
            NodeData::IntReg(node) => Some(node.base),
            NodeData::MaskedIntReg(node) => Some(node.base),
            NodeData::Boolean(node) => Some(node.base),
            NodeData::Command(node) => Some(node.base),
            NodeData::Enumeration(node) => Some(node.base),
            NodeData::Float(node) => Some(node.base),
            NodeData::FloatReg(node) => Some(node.base),
            NodeData::String(node) => Some(node.base),
            NodeData::StringReg(node) => Some(node.base),
            NodeData::Register(node) => Some(node.base),
            NodeData::Converter(node) => Some(node.base),
            NodeData::IntConverter(node) => Some(node.base),
            NodeData::SwissKnife(node) => Some(node.base),
            NodeData::IntSwissKnife(node) => Some(node.base),
            NodeData::Port(node) => Some(node.base),
            _ => None,
        }
    }

    /// The register that the node stands for, where it stands for one.
    pub open spec fn spec_register(&self) -> Option<RegisterNode> {
        match self {
            NodeData::IntReg(node) => Some(**node),
            NodeData::MaskedIntReg(node) => Some(**node),
            NodeData::FloatReg(node) => Some(**node),
            NodeData::StringReg(node) => Some(**node),
            NodeData::Register(node) => Some(**node),
            _ => None,
        }
    }

    /// What the node has in common with every node. The kinds that only
    /// devices on another bus have are left out.
    pub fn node_base(&self) -> (base: NodeBase)
        requires
            self.spec_node_base() is Some,
        ensures
            Some(base) == self.spec_node_base(),
    {
        match self {
            NodeData::Node(node) => node.node_base(),
            NodeData::Category(node) => node.node_base(),
            NodeData::Integer(node) => node.node_base(),
            NodeData::IntReg(node) => node.node_base(),
            NodeData::MaskedIntReg(node) => node.node_base(),
            NodeData::Boolean(node) => node.node_base(),
            NodeData::Command(node) => node.node_base(),
            NodeData::Enumeration(node) => node.node_base(),
            NodeData::Float(node) => node.node_base(),
            NodeData::FloatReg(node) => node.node_base(),
            NodeData::String(node) => node.node_base(),
            NodeData::StringReg(node) => node.node_base(),
            NodeData::Register(node) => node.node_base(),
            NodeData::Converter(node) => node.node_base(),
            NodeData::IntConverter(node) => node.node_base(),
            NodeData::SwissKnife(node) => node.node_base(),
            NodeData::IntSwissKnife(node) => node.node_base(),
            NodeData::Port(node) => node.node_base(),
            _ => unreached(),
        }
    }

    /// The register that the node stands for, if it stands for one.
    pub fn register(&self) -> (register: Option<&RegisterNode>)
        ensures
            match register {
                Some(node) => self.spec_register() == Some(*node),
                None => self.spec_register().is_none(),
            },
    {
        match self {
            NodeData::IntReg(node) => Some(&**node),
            NodeData::MaskedIntReg(node) => Some(&**node),
            NodeData::FloatReg(node) => Some(&**node),
            NodeData::StringReg(node) => Some(&**node),
            NodeData::Register(node) => Some(&**node),
            _ => None,
        }
    }
}

} // verus!
