//! The attributes that the driver attaches to an object it asks the
//! framework to create.

use vstd::prelude::*;

verus! {

/// The highest interrupt level at which the framework may call the callbacks
/// of an object.
#[derive(Clone, Copy, Debug, PartialEq, Eq)]
pub enum ExecutionLevel {
    /// Whatever the parent object uses.
    InheritFromParent,
    /// Callbacks run at passive level.
    Passive,
    /// Callbacks may run at dispatch level.
    Dispatch,
}

/// How the framework serialises the callbacks of an object.
#[derive(Clone, Copy, Debug, PartialEq, Eq)]
pub enum SynchronizationScope {
    /// Whatever the parent object uses.
    InheritFromParent,
    /// One callback at a time for the whole device.
    Device,
    /// One callback at a time for each queue.
    Queue,
    /// The framework does not serialise the callbacks.
    Unsynchronized,
}

/// The kind of context block that the framework allocates next to an object.
#[derive(Clone, Copy, Debug, PartialEq, Eq)]
pub enum ContextType {
    /// The block kept with every I/O request.
    Request,
    /// The block kept with the device.
    Device,
}

/// What the driver asks of an object: how its callbacks run, and which
/// context block it carries.
#[derive(Clone, Copy, Debug, PartialEq, Eq)]
pub struct ObjectAttributes {
    pub execution_level: ExecutionLevel,
    pub synchronization_scope: SynchronizationScope,
    pub context: ContextType,
}

/// The attributes of an object that carries a `context` block and otherwise
/// behaves as its parent does.
pub open spec fn inherited_attributes(context: ContextType) -> ObjectAttributes {
    ObjectAttributes {
        execution_level: ExecutionLevel::InheritFromParent,
        synchronization_scope: SynchronizationScope::InheritFromParent,
        context,
    }
}

impl ObjectAttributes {
    /// Attributes that take execution level and synchronization scope from
    /// the parent object and attach a `context` block.
    pub fn inherited(context: ContextType) -> (attributes: ObjectAttributes)
        ensures
            attributes == inherited_attributes(context),
    {
        ObjectAttributes {
            execution_level: ExecutionLevel::InheritFromParent,
            synchronization_scope: SynchronizationScope::InheritFromParent,
            context,
        }
    }
}

} // verus!
