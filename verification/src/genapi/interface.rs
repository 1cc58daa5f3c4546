//! The interfaces of nodes: what a node can be used as.
//!
//! A node offers an interface by its kind alone. For each interface there
//! is a type that holds a node of one of the kinds that offer it.

use crate::genapi::error::{GenApiError, GenApiErrorView};
use crate::genapi::node::{Node, NodeData, NodeId, RegisterNode};
use crate::genapi::node_store::{node_at, NodeStore};
use vstd::prelude::*;

verus! {

/// A node that can be used as an integer.
#[derive(Debug, Clone, Copy)]
pub enum IIntegerKind<'a> {
    Integer(&'a Node),
    IntReg(&'a RegisterNode),
    MaskedIntReg(&'a RegisterNode),
    IntConverter(&'a Node),
    IntSwissKnife(&'a Node),
}

impl<'a> IIntegerKind<'a> {
    /// Whether a node of the kind of `data` can be used as an integer.
    pub open spec fn offered_by(data: NodeData) -> bool {
        data is Integer
            || data is IntReg
            || data is MaskedIntReg
            || data is IntConverter
            || data is IntSwissKnife
    }

    /// The node that is held, as the store holds it.
    pub open spec fn node_data(self) -> NodeData {
        match self {
            IIntegerKind::Integer(node) => NodeData::Integer(Box::new(*node)),
            IIntegerKind::IntReg(node) => NodeData::IntReg(Box::new(*node)),
            IIntegerKind::MaskedIntReg(node) => NodeData::MaskedIntReg(Box::new(*node)),
            IIntegerKind::IntConverter(node) => NodeData::IntConverter(Box::new(*node)),
            IIntegerKind::IntSwissKnife(node) => NodeData::IntSwissKnife(Box::new(*node)),
        }
    }

    /// The node under `id`, if there is one and it can be used as
    /// an integer.
    pub fn maybe_from<S: NodeStore>(id: NodeId, store: &'a S) -> (kind: Option<
        IIntegerKind<'a>,
    >)
        ensures
            match kind {
                Some(k) => node_at(store.slots(), id) == Some(k.node_data()),
                None => match node_at(store.slots(), id) {
                    Some(data) => !Self::offered_by(data),
                    None => true,
                },
            },
    {
        match store.node_opt(id) {
            None => None,
            Some(data) => match data {
                NodeData::Integer(node) => Some(IIntegerKind::Integer(&**node)),
                NodeData::IntReg(node) => Some(IIntegerKind::IntReg(&**node)),
                NodeData::MaskedIntReg(node) => Some(IIntegerKind::MaskedIntReg(&**node)),
                NodeData::IntConverter(node) => Some(IIntegerKind::IntConverter(&**node)),
                NodeData::IntSwissKnife(node) => Some(IIntegerKind::IntSwissKnife(&**node)),
                _ => None,
            },
        }
    }
}

/// A node that can be used as a floating-point number.
#[derive(Debug, Clone, Copy)]
pub enum IFloatKind<'a> {
    Float(&'a Node),
    FloatReg(&'a RegisterNode),
    Converter(&'a Node),
    SwissKnife(&'a Node),
}

impl<'a> IFloatKind<'a> {
    /// Whether a node of the kind of `data` can be used as a floating-point number.
    pub open spec fn offered_by(data: NodeData) -> bool {
        data is Float || data is FloatReg || data is Converter || data is SwissKnife
    }

    /// The node that is held, as the store holds it.
    pub open spec fn node_data(self) -> NodeData {
        match self {
            IFloatKind::Float(node) => NodeData::Float(Box::new(*node)),
            IFloatKind::FloatReg(node) => NodeData::FloatReg(Box::new(*node)),
            IFloatKind::Converter(node) => NodeData::Converter(Box::new(*node)),
            IFloatKind::SwissKnife(node) => NodeData::SwissKnife(Box::new(*node)),
        }
    }

    /// The node under `id`, if there is one and it can be used as
    /// a floating-point number.
    pub fn maybe_from<S: NodeStore>(id: NodeId, store: &'a S) -> (kind: Option<
        IFloatKind<'a>,
    >)
        ensures
            match kind {
                Some(k) => node_at(store.slots(), id) == Some(k.node_data()),
                None => match node_at(store.slots(), id) {
                    Some(data) => !Self::offered_by(data),
                    None => true,
                },
            },
    {
        match store.node_opt(id) {
            None => None,
            Some(data) => match data {
                NodeData::Float(node) => Some(IFloatKind::Float(&**node)),
                NodeData::FloatReg(node) => Some(IFloatKind::FloatReg(&**node)),
                NodeData::Converter(node) => Some(IFloatKind::Converter(&**node)),
                NodeData::SwissKnife(node) => Some(IFloatKind::SwissKnife(&**node)),
                _ => None,
            },
        }
    }
}

/// A node that can be used as a string.
#[derive(Debug, Clone, Copy)]
pub enum IStringKind<'a> {
    String(&'a Node),
    StringReg(&'a RegisterNode),
}

impl<'a> IStringKind<'a> {
    /// Whether a node of the kind of `data` can be used as a string.
    pub open spec fn offered_by(data: NodeData) -> bool {
        data is String || data is StringReg
    }

    /// The node that is held, as the store holds it.
    pub open spec fn node_data(self) -> NodeData {
        match self {
            IStringKind::String(node) => NodeData::String(Box::new(*node)),
            IStringKind::StringReg(node) => NodeData::StringReg(Box::new(*node)),
        }
    }

    /// The node under `id`, if there is one and it can be used as
    /// a string.
    pub fn maybe_from<S: NodeStore>(id: NodeId, store: &'a S) -> (kind: Option<
        IStringKind<'a>,
    >)
        ensures
            match kind {
                Some(k) => node_at(store.slots(), id) == Some(k.node_data()),
                None => match node_at(store.slots(), id) {
                    Some(data) => !Self::offered_by(data),
                    None => true,
                },
            },
    {
        match store.node_opt(id) {
            None => None,
            Some(data) => match data {
                NodeData::String(node) => Some(IStringKind::String(&**node)),
                NodeData::StringReg(node) => Some(IStringKind::StringReg(&**node)),
                _ => None,
            },
        }
    }
}

/// A node that can be used as a command.
#[derive(Debug, Clone, Copy)]
pub enum ICommandKind<'a> {
    Command(&'a Node),
}

impl<'a> ICommandKind<'a> {
    /// Whether a node of the kind of `data` can be used as a command.
    pub open spec fn offered_by(data: NodeData) -> bool {
        data is Command
    }

    /// The node that is held, as the store holds it.
    pub open spec fn node_data(self) -> NodeData {
        match self {
            ICommandKind::Command(node) => NodeData::Command(Box::new(*node)),
        }
    }

    /// The node under `id`, if there is one and it can be used as
    /// a command.
    pub fn maybe_from<S: NodeStore>(id: NodeId, store: &'a S) -> (kind: Option<
        ICommandKind<'a>,
    >)
        ensures
            match kind {
                Some(k) => node_at(store.slots(), id) == Some(k.node_data()),
                None => match node_at(store.slots(), id) {
                    Some(data) => !Self::offered_by(data),
                    None => true,
                },
            },
    {
        match store.node_opt(id) {
            None => None,
            Some(data) => match data {
                NodeData::Command(node) => Some(ICommandKind::Command(&**node)),
                _ => None,
            },
        }
    }
}

/// A node that can be used as an enumeration.
#[derive(Debug, Clone, Copy)]
pub enum IEnumerationKind<'a> {
    Enumeration(&'a Node),
}

impl<'a> IEnumerationKind<'a> {
    /// Whether a node of the kind of `data` can be used as an enumeration.
    pub open spec fn offered_by(data: NodeData) -> bool {
        data is Enumeration
    }

    /// The node that is held, as the store holds it.
    pub open spec fn node_data(self) -> NodeData {
        match self {
            IEnumerationKind::Enumeration(node) => NodeData::Enumeration(Box::new(*node)),
        }
    }

    /// The node under `id`, if there is one and it can be used as
    /// an enumeration.
    pub fn maybe_from<S: NodeStore>(id: NodeId, store: &'a S) -> (kind: Option<
        IEnumerationKind<'a>,
    >)
        ensures
            match kind {
                Some(k) => node_at(store.slots(), id) == Some(k.node_data()),
                None => match node_at(store.slots(), id) {
                    Some(data) => !Self::offered_by(data),
                    None => true,
                },
            },
    {
        match store.node_opt(id) {
            None => None,
            Some(data) => match data {
                NodeData::Enumeration(node) => Some(IEnumerationKind::Enumeration(&**node)),
                _ => None,
            },
        }
    }
}

/// A node that can be used as a boolean.
#[derive(Debug, Clone, Copy)]
pub enum IBooleanKind<'a> {
    Boolean(&'a Node),
}

impl<'a> IBooleanKind<'a> {
    /// Whether a node of the kind of `data` can be used as a boolean.
    pub open spec fn offered_by(data: NodeData) -> bool {
        data is Boolean
    }

    /// The node that is held, as the store holds it.
    pub open spec fn node_data(self) -> NodeData {
        match self {
            IBooleanKind::Boolean(node) => NodeData::Boolean(Box::new(*node)),
        }
    }

    /// The node under `id`, if there is one and it can be used as
    /// a boolean.
    pub fn maybe_from<S: NodeStore>(id: NodeId, store: &'a S) -> (kind: Option<
        IBooleanKind<'a>,
    >)
        ensures
            match kind {
                Some(k) => node_at(store.slots(), id) == Some(k.node_data()),
                None => match node_at(store.slots(), id) {
                    Some(data) => !Self::offered_by(data),
                    None => true,
                },
            },
    {
        match store.node_opt(id) {
            None => None,
            Some(data) => match data {
                NodeData::Boolean(node) => Some(IBooleanKind::Boolean(&**node)),
                _ => None,
            },
        }
    }
}

/// A node that can be used as a register.
#[derive(Debug, Clone, Copy)]
pub enum IRegisterKind<'a> {
    Register(&'a RegisterNode),
    IntReg(&'a RegisterNode),
    MaskedIntReg(&'a RegisterNode),
    StringReg(&'a RegisterNode),
    FloatReg(&'a RegisterNode),
}

impl<'a> IRegisterKind<'a> {
    /// Whether a node of the kind of `data` can be used as a register.
    pub open spec fn offered_by(data: NodeData) -> bool {
        data is Register
            || data is IntReg
            || data is MaskedIntReg
            || data is StringReg
            || data is FloatReg
    }

    /// The node that is held, as the store holds it.
    pub open spec fn node_data(self) -> NodeData {
        match self {
            IRegisterKind::Register(node) => NodeData::Register(Box::new(*node)),
            IRegisterKind::IntReg(node) => NodeData::IntReg(Box::new(*node)),
            IRegisterKind::MaskedIntReg(node) => NodeData::MaskedIntReg(Box::new(*node)),
            IRegisterKind::StringReg(node) => NodeData::StringReg(Box::new(*node)),
            IRegisterKind::FloatReg(node) => NodeData::FloatReg(Box::new(*node)),
        }
    }

    /// The node under `id`, if there is one and it can be used as
    /// a register.
    pub fn maybe_from<S: NodeStore>(id: NodeId, store: &'a S) -> (kind: Option<
        IRegisterKind<'a>,
    >)
        ensures
            match kind {
                Some(k) => node_at(store.slots(), id) == Some(k.node_data()),
                None => match node_at(store.slots(), id) {
                    Some(data) => !Self::offered_by(data),
                    None => true,
                },
            },
    {
        match store.node_opt(id) {
            None => None,
            Some(data) => match data {
                NodeData::Register(node) => Some(IRegisterKind::Register(&**node)),
                NodeData::IntReg(node) => Some(IRegisterKind::IntReg(&**node)),
                NodeData::MaskedIntReg(node) => Some(IRegisterKind::MaskedIntReg(&**node)),
                NodeData::StringReg(node) => Some(IRegisterKind::StringReg(&**node)),
                NodeData::FloatReg(node) => Some(IRegisterKind::FloatReg(&**node)),
                _ => None,
            },
        }
    }
}

/// A node that can be used as a category.
#[derive(Debug, Clone, Copy)]
pub enum ICategoryKind<'a> {
    Category(&'a Node),
}

impl<'a> ICategoryKind<'a> {
    /// Whether a node of the kind of `data` can be used as a category.
    pub open spec fn offered_by(data: NodeData) -> bool {
        data is Category
    }

    /// The node that is held, as the store holds it.
    pub open spec fn node_data(self) -> NodeData {
        match self {
            ICategoryKind::Category(node) => NodeData::Category(Box::new(*node)),
        }
    }

    /// The node under `id`, if there is one and it can be used as
    /// a category.
    pub fn maybe_from<S: NodeStore>(id: NodeId, store: &'a S) -> (kind: Option<
        ICategoryKind<'a>,
    >)
        ensures
            match kind {
                Some(k) => node_at(store.slots(), id) == Some(k.node_data()),
                None => match node_at(store.slots(), id) {
                    Some(data) => !Self::offered_by(data),
                    None => true,
                },
            },
    {
        match store.node_opt(id) {
            None => None,
            Some(data) => match data {
                NodeData::Category(node) => Some(ICategoryKind::Category(&**node)),
                _ => None,
            },
        }
    }
}

/// A node that can be used as a port.
#[derive(Debug, Clone, Copy)]
pub enum IPortKind<'a> {
    Port(&'a Node),
}

impl<'a> IPortKind<'a> {
    /// Whether a node of the kind of `data` can be used as a port.
    pub open spec fn offered_by(data: NodeData) -> bool {
        data is Port
    }

    /// The node that is held, as the store holds it.
    pub open spec fn node_data(self) -> NodeData {
        match self {
            IPortKind::Port(node) => NodeData::Port(Box::new(*node)),
        }
    }

    /// The node under `id`, if there is one and it can be used as
    /// a port.
    pub fn maybe_from<S: NodeStore>(id: NodeId, store: &'a S) -> (kind: Option<
        IPortKind<'a>,
    >)
        ensures
            match kind {
                Some(k) => node_at(store.slots(), id) == Some(k.node_data()),
                None => match node_at(store.slots(), id) {
                    Some(data) => !Self::offered_by(data),
                    None => true,
                },
            },
    {
        match store.node_opt(id) {
            None => None,
            Some(data) => match data {
                NodeData::Port(node) => Some(IPortKind::Port(&**node)),
                _ => None,
            },
        }
    }
}

/// A node that can be used as a selector.
#[derive(Debug, Clone, Copy)]
pub enum ISelectorKind<'a> {
    Integer(&'a Node),
    IntReg(&'a RegisterNode),
    MaskedIntReg(&'a RegisterNode),
    Boolean(&'a Node),
    Enumeration(&'a Node),
}

impl<'a> ISelectorKind<'a> {
    /// Whether a node of the kind of `data` can be used as a selector.
    pub open spec fn offered_by(data: NodeData) -> bool {
        data is Integer
            || data is IntReg
            || data is MaskedIntReg
            || data is Boolean
            || data is Enumeration
    }

    /// The node that is held, as the store holds it.
    pub open spec fn node_data(self) -> NodeData {
        match self {
            ISelectorKind::Integer(node) => NodeData::Integer(Box::new(*node)),
            ISelectorKind::IntReg(node) => NodeData::IntReg(Box::new(*node)),
            ISelectorKind::MaskedIntReg(node) => NodeData::MaskedIntReg(Box::new(*node)),
            ISelectorKind::Boolean(node) => NodeData::Boolean(Box::new(*node)),
            ISelectorKind::Enumeration(node) => NodeData::Enumeration(Box::new(*node)),
        }
    }

    /// The node under `id`, if there is one and it can be used as
    /// a selector.
    pub fn maybe_from<S: NodeStore>(id: NodeId, store: &'a S) -> (kind: Option<
        ISelectorKind<'a>,
    >)
        ensures
            match kind {
                Some(k) => node_at(store.slots(), id) == Some(k.node_data()),
                None => match node_at(store.slots(), id) {
                    Some(data) => !Self::offered_by(data),
                    None => true,
                },
            },
    {
        match store.node_opt(id) {
            None => None,
            Some(data) => match data {
                NodeData::Integer(node) => Some(ISelectorKind::Integer(&**node)),
                NodeData::IntReg(node) => Some(ISelectorKind::IntReg(&**node)),
                NodeData::MaskedIntReg(node) => Some(ISelectorKind::MaskedIntReg(&**node)),
                NodeData::Boolean(node) => Some(ISelectorKind::Boolean(&**node)),
                NodeData::Enumeration(node) => Some(ISelectorKind::Enumeration(&**node)),
                _ => None,
            },
        }
    }
}

impl NodeId {
    /// The node under this identifier, if `store` holds one and it can be
    /// used as an integer.
    pub fn as_iinteger_kind<'a, S: NodeStore>(self, store: &'a S) -> (kind: Option<
        IIntegerKind<'a>,
    >)
        ensures
            match kind {
                Some(k) => node_at(store.slots(), self) == Some(k.node_data()),
                None => match node_at(store.slots(), self) {
                    Some(data) => !IIntegerKind::offered_by(data),
                    None => true,
                },
            },
    {
        IIntegerKind::maybe_from(self, store)
    }

    /// The node under this identifier, which must be there and usable as
    /// an integer: else the answer is `InvalidNode`.
    pub fn expect_iinteger_kind<'a, S: NodeStore>(self, store: &'a S) -> (kind: Result<
        IIntegerKind<'a>,
        GenApiError,
    >)
        ensures
            match kind {
                Ok(k) => node_at(store.slots(), self) == Some(k.node_data()),
                Err(e) => {
                    &&& e@ == GenApiErrorView::InvalidNode(
                        "the node doesn't implement `IInteger`"@,
                    )
                    &&& match node_at(store.slots(), self) {
                        Some(data) => !IIntegerKind::offered_by(data),
                        None => true,
                    }
                },
            },
    {
        match self.as_iinteger_kind(store) {
            Some(k) => Ok(k),
            None => Err(
                GenApiError::invalid_node("the node doesn't implement `IInteger`"),
            ),
        }
    }

    /// The node under this identifier, if `store` holds one and it can be
    /// used as a floating-point number.
    pub fn as_ifloat_kind<'a, S: NodeStore>(self, store: &'a S) -> (kind: Option<
        IFloatKind<'a>,
    >)
        ensures
            match kind {
                Some(k) => node_at(store.slots(), self) == Some(k.node_data()),
                None => match node_at(store.slots(), self) {
                    Some(data) => !IFloatKind::offered_by(data),
                    None => true,
                },
            },
    {
        IFloatKind::maybe_from(self, store)
    }

    /// The node under this identifier, which must be there and usable as
    /// a floating-point number: else the answer is `InvalidNode`.
    pub fn expect_ifloat_kind<'a, S: NodeStore>(self, store: &'a S) -> (kind: Result<
        IFloatKind<'a>,
        GenApiError,
    >)
        ensures
            match kind {
                Ok(k) => node_at(store.slots(), self) == Some(k.node_data()),
                Err(e) => {
                    &&& e@ == GenApiErrorView::InvalidNode(
                        "the node doesn't implement `IFloat`"@,
                    )
                    &&& match node_at(store.slots(), self) {
                        Some(data) => !IFloatKind::offered_by(data),
                        None => true,
                    }
                },
            },
    {
        match self.as_ifloat_kind(store) {
            Some(k) => Ok(k),
            None => Err(
                GenApiError::invalid_node("the node doesn't implement `IFloat`"),
            ),
        }
    }

    /// The node under this identifier, if `store` holds one and it can be
    /// used as a string.
    pub fn as_istring_kind<'a, S: NodeStore>(self, store: &'a S) -> (kind: Option<
        IStringKind<'a>,
    >)
        ensures
            match kind {
                Some(k) => node_at(store.slots(), self) == Some(k.node_data()),
                None => match node_at(store.slots(), self) {
                    Some(data) => !IStringKind::offered_by(data),
                    None => true,
                },
            },
    {
        IStringKind::maybe_from(self, store)
    }

    /// The node under this identifier, which must be there and usable as
    /// a string: else the answer is `InvalidNode`.
    pub fn expect_istring_kind<'a, S: NodeStore>(self, store: &'a S) -> (kind: Result<
        IStringKind<'a>,
        GenApiError,
    >)
        ensures
            match kind {
                Ok(k) => node_at(store.slots(), self) == Some(k.node_data()),
                Err(e) => {
                    &&& e@ == GenApiErrorView::InvalidNode(
                        "the node doesn't implement `IString`"@,
                    )
                    &&& match node_at(store.slots(), self) {
                        Some(data) => !IStringKind::offered_by(data),
                        None => true,
                    }
                },
            },
    {
        match self.as_istring_kind(store) {
            Some(k) => Ok(k),
            None => Err(
                GenApiError::invalid_node("the node doesn't implement `IString`"),
            ),
        }
    }

    /// The node under this identifier, if `store` holds one and it can be
    /// used as a command.
    pub fn as_icommand_kind<'a, S: NodeStore>(self, store: &'a S) -> (kind: Option<
        ICommandKind<'a>,
    >)
        ensures
            match kind {
                Some(k) => node_at(store.slots(), self) == Some(k.node_data()),
                None => match node_at(store.slots(), self) {
                    Some(data) => !ICommandKind::offered_by(data),
                    None => true,
                },
            },
    {
        ICommandKind::maybe_from(self, store)
    }

    /// The node under this identifier, which must be there and usable as
    /// a command: else the answer is `InvalidNode`.
    pub fn expect_icommand_kind<'a, S: NodeStore>(self, store: &'a S) -> (kind: Result<
        ICommandKind<'a>,
        GenApiError,
    >)
        ensures
            match kind {
                Ok(k) => node_at(store.slots(), self) == Some(k.node_data()),
                Err(e) => {
                    &&& e@ == GenApiErrorView::InvalidNode(
                        "the node doesn't implement `ICommand`"@,
                    )
                    &&& match node_at(store.slots(), self) {
                        Some(data) => !ICommandKind::offered_by(data),
                        None => true,
                    }
                },
            },
    {
        match self.as_icommand_kind(store) {
            Some(k) => Ok(k),
            None => Err(
                GenApiError::invalid_node("the node doesn't implement `ICommand`"),
            ),
        }
    }

    /// The node under this identifier, if `store` holds one and it can be
    /// used as an enumeration.
    pub fn as_ienuemration_kind<'a, S: NodeStore>(self, store: &'a S) -> (kind: Option<
        IEnumerationKind<'a>,
    >)
        ensures
            match kind {
                Some(k) => node_at(store.slots(), self) == Some(k.node_data()),
                None => match node_at(store.slots(), self) {
                    Some(data) => !IEnumerationKind::offered_by(data),
                    None => true,
                },
            },
    {
        IEnumerationKind::maybe_from(self, store)
    }

    /// The node under this identifier, which must be there and usable as
    /// an enumeration: else the answer is `InvalidNode`.
    pub fn expect_ienumeration_kind<'a, S: NodeStore>(self, store: &'a S) -> (kind: Result<
        IEnumerationKind<'a>,
        GenApiError,
    >)
        ensures
            match kind {
                Ok(k) => node_at(store.slots(), self) == Some(k.node_data()),
                Err(e) => {
                    &&& e@ == GenApiErrorView::InvalidNode(
                        "the node doesn't implement `IEnumeration`"@,
                    )
                    &&& match node_at(store.slots(), self) {
                        Some(data) => !IEnumerationKind::offered_by(data),
                        None => true,
                    }
                },
            },
    {
        match self.as_ienuemration_kind(store) {
            Some(k) => Ok(k),
            None => Err(
                GenApiError::invalid_node("the node doesn't implement `IEnumeration`"),
            ),
        }
    }

    /// The node under this identifier, if `store` holds one and it can be
    /// used as a boolean.
    pub fn as_iboolean_kind<'a, S: NodeStore>(self, store: &'a S) -> (kind: Option<
        IBooleanKind<'a>,
    >)
        ensures
            match kind {
                Some(k) => node_at(store.slots(), self) == Some(k.node_data()),
                None => match node_at(store.slots(), self) {
                    Some(data) => !IBooleanKind::offered_by(data),
                    None => true,
                },
            },
    {
        IBooleanKind::maybe_from(self, store)
    }

    /// The node under this identifier, which must be there and usable as
    /// a boolean: else the answer is `InvalidNode`.
    pub fn expect_iboolean_kind<'a, S: NodeStore>(self, store: &'a S) -> (kind: Result<
        IBooleanKind<'a>,
        GenApiError,
    >)
        ensures
            match kind {
                Ok(k) => node_at(store.slots(), self) == Some(k.node_data()),
                Err(e) => {
                    &&& e@ == GenApiErrorView::InvalidNode(
                        "the node doesn't implement `IBoolean`"@,
                    )
                    &&& match node_at(store.slots(), self) {
                        Some(data) => !IBooleanKind::offered_by(data),
                        None => true,
                    }
                },
            },
    {
        match self.as_iboolean_kind(store) {
            Some(k) => Ok(k),
            None => Err(
                GenApiError::invalid_node("the node doesn't implement `IBoolean`"),
            ),
        }
    }

    /// The node under this identifier, if `store` holds one and it can be
    /// used as a register.
    pub fn as_iregister_kind<'a, S: NodeStore>(self, store: &'a S) -> (kind: Option<
        IRegisterKind<'a>,
    >)
        ensures
            match kind {
                Some(k) => node_at(store.slots(), self) == Some(k.node_data()),
                None => match node_at(store.slots(), self) {
                    Some(data) => !IRegisterKind::offered_by(data),
                    None => true,
                },
            },
    {
        IRegisterKind::maybe_from(self, store)
    }

    /// The node under this identifier, which must be there and usable as
    /// a register: else the answer is `InvalidNode`.
    pub fn expect_iregister_kind<'a, S: NodeStore>(self, store: &'a S) -> (kind: Result<
        IRegisterKind<'a>,
        GenApiError,
    >)
        ensures
            match kind {
                Ok(k) => node_at(store.slots(), self) == Some(k.node_data()),
                Err(e) => {
                    &&& e@ == GenApiErrorView::InvalidNode(
                        "the node doesn't implement `IRegister`"@,
                    )
                    &&& match node_at(store.slots(), self) {
                        Some(data) => !IRegisterKind::offered_by(data),
                        None => true,
                    }
                },
            },
    {
        match self.as_iregister_kind(store) {
            Some(k) => Ok(k),
            None => Err(
                GenApiError::invalid_node("the node doesn't implement `IRegister`"),
            ),
        }
    }

    /// The node under this identifier, if `store` holds one and it can be
    /// used as a category.
    pub fn as_icategory_kind<'a, S: NodeStore>(self, store: &'a S) -> (kind: Option<
        ICategoryKind<'a>,
    >)
        ensures
            match kind {
                Some(k) => node_at(store.slots(), self) == Some(k.node_data()),
                None => match node_at(store.slots(), self) {
                    Some(data) => !ICategoryKind::offered_by(data),
                    None => true,
                },
            },
    {
        ICategoryKind::maybe_from(self, store)
    }

    /// The node under this identifier, which must be there and usable as
    /// a category: else the answer is `InvalidNode`.
    pub fn expect_icategory_kind<'a, S: NodeStore>(self, store: &'a S) -> (kind: Result<
        ICategoryKind<'a>,
        GenApiError,
    >)
        ensures
            match kind {
                Ok(k) => node_at(store.slots(), self) == Some(k.node_data()),
                Err(e) => {
                    &&& e@ == GenApiErrorView::InvalidNode(
                        "the node doesn't implement `ICategory`"@,
                    )
                    &&& match node_at(store.slots(), self) {
                        Some(data) => !ICategoryKind::offered_by(data),
                        None => true,
                    }
                },
            },
    {
        match self.as_icategory_kind(store) {
            Some(k) => Ok(k),
            None => Err(
                GenApiError::invalid_node("the node doesn't implement `ICategory`"),
            ),
        }
    }

    /// The node under this identifier, if `store` holds one and it can be
    /// used as a port.
    pub fn as_iport_kind<'a, S: NodeStore>(self, store: &'a S) -> (kind: Option<
        IPortKind<'a>,
    >)
        ensures
            match kind {
                Some(k) => node_at(store.slots(), self) == Some(k.node_data()),
                None => match node_at(store.slots(), self) {
                    Some(data) => !IPortKind::offered_by(data),
                    None => true,
                },
            },
    {
        IPortKind::maybe_from(self, store)
    }

    /// The node under this identifier, which must be there and usable as
    /// a port: else the answer is `InvalidNode`.
    pub fn expect_iport_kind<'a, S: NodeStore>(self, store: &'a S) -> (kind: Result<
        IPortKind<'a>,
        GenApiError,
    >)
        ensures
            match kind {
                Ok(k) => node_at(store.slots(), self) == Some(k.node_data()),
                Err(e) => {
                    &&& e@ == GenApiErrorView::InvalidNode(
                        "the node doesn't implement `IPort`"@,
                    )
                    &&& match node_at(store.slots(), self) {
                        Some(data) => !IPortKind::offered_by(data),
                        None => true,
                    }
                },
            },
    {
        match self.as_iport_kind(store) {
            Some(k) => Ok(k),
            None => Err(
                GenApiError::invalid_node("the node doesn't implement `IPort`"),
            ),
        }
    }

    /// The node under this identifier, if `store` holds one and it can be
    /// used as a selector.
    pub fn as_iselector_kind<'a, S: NodeStore>(self, store: &'a S) -> (kind: Option<
        ISelectorKind<'a>,
    >)
        ensures
            match kind {
                Some(k) => node_at(store.slots(), self) == Some(k.node_data()),
                None => match node_at(store.slots(), self) {
                    Some(data) => !ISelectorKind::offered_by(data),
                    None => true,
                },
            },
    {
        ISelectorKind::maybe_from(self, store)
    }

    /// The node under this identifier, which must be there and usable as
    /// a selector: else the answer is `InvalidNode`.
    pub fn expect_iselector_kind<'a, S: NodeStore>(self, store: &'a S) -> (kind: Result<
        ISelectorKind<'a>,
        GenApiError,
    >)
        ensures
            match kind {
                Ok(k) => node_at(store.slots(), self) == Some(k.node_data()),
                Err(e) => {
                    &&& e@ == GenApiErrorView::InvalidNode(
                        "the node doesn't implement `ISelector`"@,
                    )
                    &&& match node_at(store.slots(), self) {
                        Some(data) => !ISelectorKind::offered_by(data),
                        None => true,
                    }
                },
            },
    {
        match self.as_iselector_kind(store) {
            Some(k) => Ok(k),
            None => Err(
                GenApiError::invalid_node("the node doesn't implement `ISelector`"),
            ),
        }
    }
}

} // verus!
