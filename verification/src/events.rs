//! The library's model of the upstream event feed: per resource mutation, a
//! write or a delete event. The upstream type system hands the resource's
//! fully-qualified type tag over with its identity parts already lexically
//! separated, and every structured payload (the resource's field contents, a
//! generic type argument) already rendered — or marked as failing to render —
//! to a `serde_json::Value`.

use vstd::prelude::*;

verus! {

/// A fully-qualified resource type tag, as the upstream event model presents
/// it.
pub struct EventStructTag {
    /// The verbatim, fully-qualified string form of the whole tag.
    pub full: String,
    /// The defining module's simple name.
    pub module: String,
    /// The resource's simple type name.
    pub name: String,
    /// One entry per generic type argument, in declaration order: `Some`
    /// holds the argument's structured rendering, `None` marks an argument
    /// whose rendering failed upstream.
    pub generic_type_params: Vec<Option<serde_json::Value>>,
}

impl EventStructTag {
    /// A syntactically valid fully-qualified tag has non-empty identity parts.
    pub open spec fn wf(&self) -> bool {
        self.module@.len() > 0 && self.name@.len() > 0
    }
}

/// A resource-write event: the owner address, the written resource's type
/// tag, and the resource's field contents — `Some` holding their structured
/// rendering, `None` marking a payload that could not be rendered.
pub struct WriteResource {
    pub address: String,
    pub typ: EventStructTag,
    pub data: Option<serde_json::Value>,
}

/// A resource-delete event: the owner address and the type tag of the
/// deleted resource. Deletions carry no payload.
pub struct DeleteResource {
    pub address: String,
    pub resource: EventStructTag,
}

} // verus!
