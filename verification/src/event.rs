//! Events: what contract execution and the node's bookkeeping emit, and the envelope
//! an event is delivered in.
//!
//! A `MoveEvent` carries a type and bytes. The bytes mean nothing until a layout has
//! been resolved for the type, and resolving needs the modules that define it. This
//! library does not hold them: it says what is to be resolved (`layout_request`),
//! the caller resolves it against its modules, and the functions here take what came
//! of that.

use vstd::prelude::*;
use crate::base_types::{
    CheckpointSequenceNumber,
    EpochId,
    ObjectID,
    SequenceNumber,
    SuiAddress,
    TransactionDigest,
};
use crate::decoder::{decode, decode_spec};
use crate::error::SuiError;
use crate::layout::{StructLayout, TypeLayout};
use crate::move_types::bcs_decoded;
use crate::object::ObjectFormatOptions;
use crate::struct_value::{StructValue, StructValueView};
use crate::type_tag::{ModuleId, StructTag, TypeTag, TypeTagView};

verus! {

/// A structured value of `serde_json`, carried as it is.
#[verifier::external_type_specification]
#[verifier::external_body]
pub struct ExJsonValue(serde_json::Value);

/// An event with what its delivery adds to it.
#[derive(Debug, Clone, PartialEq)]
pub struct EventEnvelope {
    /// UTC timestamp in milliseconds since epoch (1/1/1970)
    pub timestamp: u64,
    /// Transaction digest of associated transaction, if any
    pub tx_digest: Option<TransactionDigest>,
    /// Specific event type
    pub event: Event,
    /// The decoded payload, rendered (for a `MoveEvent` only)
    pub move_struct_json_value: Option<serde_json::Value>,
}

/// How an object changed hands.
#[derive(Eq, Debug, Clone, PartialEq, Hash)]
pub enum TransferType {
    Coin,
    ToAddress,
    /// wrap object in another object
    ToObject,
}

/// The kind of an event, without what the event carries.
#[derive(Eq, Debug, Clone, Copy, PartialEq, Hash)]
pub enum EventType {
    MoveEvent,
    Publish,
    TransferObject,
    DeleteObject,
    NewObject,
    EpochChange,
    Checkpoint,
}

/// Specific type of event
#[derive(Eq, Debug, Clone, PartialEq, Hash)]
pub enum Event {
    /// Move-specific event
    MoveEvent(MoveEvent),
    /// Module published
    Publish { package_id: ObjectID },
    /// Transfer objects to new address / wrap in another object / coin
    TransferObject {
        object_id: ObjectID,
        version: SequenceNumber,
        destination_addr: SuiAddress,
        type_: TransferType,
    },
    /// Delete object
    DeleteObject(ObjectID),
    /// New object creation
    NewObject(ObjectID),
    /// Epoch change
    EpochChange(EpochId),
    /// New checkpoint
    Checkpoint(CheckpointSequenceNumber),
}

/// An event that a contract emitted: the type of its payload and the payload's bytes.
#[derive(Eq, Debug, Clone, PartialEq, Hash)]
pub struct MoveEvent {
    pub type_: StructTag,
    pub contents: Vec<u8>,
}

/// What is to be resolved against the modules: the layout of `type_tag`, with the
/// types of its structs or without.
#[derive(Debug, Clone, PartialEq, Eq)]
pub struct LayoutRequest {
    pub type_tag: TypeTag,
    pub include_types: bool,
}

impl EventType {
    /// The name of the kind, as it is written.
    pub open spec fn name(self) -> Seq<char> {
        match self {
            EventType::MoveEvent => "MoveEvent"@,
            EventType::Publish => "Publish"@,
            EventType::TransferObject => "TransferObject"@,
            EventType::DeleteObject => "DeleteObject"@,
            EventType::NewObject => "NewObject"@,
            EventType::EpochChange => "EpochChange"@,
            EventType::Checkpoint => "Checkpoint"@,
        }
    }
}

impl Event {
    /// The kind of this event.
    pub open spec fn kind(self) -> EventType {
        match self {
            Event::MoveEvent(_) => EventType::MoveEvent,
            Event::Publish { .. } => EventType::Publish,
            Event::TransferObject { .. } => EventType::TransferObject,
            Event::DeleteObject(_) => EventType::DeleteObject,
            Event::NewObject(_) => EventType::NewObject,
            Event::EpochChange(_) => EventType::EpochChange,
            Event::Checkpoint(_) => EventType::Checkpoint,
        }
    }

    /// The object or package that this event is about, where it is about one.
    pub open spec fn subject(self) -> Option<ObjectID> {
        match self {
            Event::Publish { package_id } => Some(package_id),
            Event::TransferObject { object_id, .. } => Some(object_id),
            Event::DeleteObject(object_id) => Some(object_id),
            Event::NewObject(object_id) => Some(object_id),
            _ => None,
        }
    }

    /// The event that a contract emitted with a payload of this type.
    pub fn move_event(type_: StructTag, contents: Vec<u8>) -> (r: Self)
        ensures
            r == Event::MoveEvent(MoveEvent { type_, contents }),
    {
        Event::MoveEvent(MoveEvent { type_, contents })
    }

    /// Returns the EventType associated with an Event
    pub fn event_type(&self) -> (r: EventType)
        ensures
            r == self.kind(),
    {
        match self {
            Event::MoveEvent(_) => EventType::MoveEvent,
            Event::Publish { .. } => EventType::Publish,
            Event::TransferObject { .. } => EventType::TransferObject,
            Event::DeleteObject(_) => EventType::DeleteObject,
            Event::NewObject(_) => EventType::NewObject,
            Event::EpochChange(_) => EventType::EpochChange,
            Event::Checkpoint(_) => EventType::Checkpoint,
        }
    }

    /// The name of this event's kind.
    pub fn variant_name(&self) -> (r: &'static str)
        ensures
            r@ == self.kind().name(),
    {
        match self {
            Event::MoveEvent(_) => "MoveEvent",
            Event::Publish { .. } => "Publish",
            Event::TransferObject { .. } => "TransferObject",
            Event::DeleteObject(_) => "DeleteObject",
            Event::NewObject(_) => "NewObject",
            Event::EpochChange(_) => "EpochChange",
            Event::Checkpoint(_) => "Checkpoint",
        }
    }

    /// Returns the object or package ID associated with the event, if available.  Specifically:
    /// - For TransferObject: the object ID being transferred (eg moving child from parent, its the child)
    /// - for Publish, the package ID (which is the object ID of the module)
    /// - for DeleteObject and NewObject, the Object ID
    pub fn object_id(&self) -> (r: Option<ObjectID>)
        ensures
            r == self.subject(),
            r is Some <==> (self is Publish || self is TransferObject || self is DeleteObject
                || self is NewObject),
    {
        match self {
            Event::Publish { package_id } => Some(*package_id),
            Event::TransferObject { object_id, .. } => Some(*object_id),
            Event::DeleteObject(obj_id) => Some(*obj_id),
            Event::NewObject(obj_id) => Some(*obj_id),
            _ => None,
        }
    }

    /// Extract a module ID, if available, from a SuiEvent
    pub fn module_id(&self) -> (r: Option<ModuleId>)
        ensures
            r is Some <==> self is MoveEvent,
            self matches Event::MoveEvent(event) ==> r matches Some(id) && id@
                == event.type_@.module_id(),
    {
        match self {
            Event::MoveEvent(event) => Some(event.type_.module_id()),
            _ => None,
        }
    }

    /// What is to be resolved before a struct can be extracted from this event:
    /// the layout of the payload's type with the names of its fields, for a
    /// `MoveEvent`; nothing for any other event.
    pub fn layout_request(&self) -> (r: Option<LayoutRequest>)
        ensures
            r is Some <==> self is MoveEvent,
            self matches Event::MoveEvent(event) ==> r matches Some(request)
                && request.type_tag@ == TypeTagView::Struct(event.type_@)
                && !request.include_types,
    {
        match self {
            Event::MoveEvent(event) => Some(
                event.layout_request(ObjectFormatOptions { include_types: false }),
            ),
            _ => None,
        }
    }

    /// Extracts a MoveStruct, if possible, from the event
    ///
    /// `resolved` is what came of the event's `layout_request`. An event that is no
    /// `MoveEvent` has no struct, and `resolved` is not looked at.
    pub fn extract_move_struct(&self, resolved: Option<Result<TypeLayout, String>>) -> (r: Result<
        Option<StructValue>,
        SuiError,
    >)
        requires
            self is MoveEvent ==> resolved is Some,
            self is MoveEvent ==> (resolved matches Some(Ok(layout)) ==> layout is Struct),
        ensures
            !(self is MoveEvent) ==> r == Ok::<Option<StructValue>, SuiError>(None),
            self matches Event::MoveEvent(event) ==> match resolved->Some_0 {
                Err(cause) => r matches Err(error) && error.cause() == cause@,
                Ok(layout) => match decode_spec(event.contents@, layout@->Struct_0) {
                    Ok(value) => r matches Ok(Some(decoded)) && decoded@ == value,
                    Err(cause) => r matches Err(error) && error.cause() == cause,
                },
            },
    {
        match self {
            Event::MoveEvent(event) => match resolved {
                Some(resolved) => {
                    let format = ObjectFormatOptions { include_types: false };
                    match event.to_move_struct_with_resolver(format, resolved) {
                        Ok(decoded) => Ok(Some(decoded)),
                        Err(error) => Err(error),
                    }
                },
                None => unreached(),
            },
            _ => Ok(None),
        }
    }
}

impl MoveEvent {
    /// What is to be resolved for this event under `format`: the layout of the
    /// payload's type, which is a struct type.
    pub fn layout_request(&self, format: ObjectFormatOptions) -> (r: LayoutRequest)
        ensures
            r.type_tag@ == TypeTagView::Struct(self.type_@),
            r.include_types == format.include_types,
    {
        LayoutRequest {
            type_tag: TypeTag::Struct(self.type_.clone()),
            include_types: format.include_types,
        }
    }

    /// Get a `StructLayout` for `self`.
    ///
    /// `resolved` is what came of resolving `self.layout_request(format)`: the
    /// layout, which for the type of a struct is the layout of a struct, or the cause
    /// of the failure. A failure comes back as an `ObjectSerializationError` with that
    /// cause; no layout is returned in part. A layout comes back as it was resolved:
    /// where every struct in it keeps its type, or none does, that is so of what is
    /// returned.
    pub fn get_layout(
        &self,
        format: ObjectFormatOptions,
        resolved: Result<TypeLayout, String>,
    ) -> (r: Result<StructLayout, SuiError>)
        requires
            resolved matches Ok(layout) ==> layout is Struct,
        ensures
            match resolved {
                Ok(layout) => r == Ok::<StructLayout, SuiError>(layout->Struct_0),
                Err(cause) => r == Err::<StructLayout, SuiError>(
                    SuiError::ObjectSerializationError { error: cause },
                ),
            },
            resolved matches Ok(layout) ==> (layout@.has_mode(format.include_types) ==> (
                r matches Ok(kept) && kept@.has_mode(format.include_types)
            )),
    {
        match resolved {
            Ok(layout) => match layout {
                TypeLayout::Struct(l) => Ok(l),
                _ => unreached(),
            },
            Err(cause) => Err(SuiError::ObjectSerializationError { error: cause }),
        }
    }

    /// Convert `self` to the struct dictated by `layout`: the payload decoded against
    /// the layout. What comes back is in the shape of the layout, and its fields are
    /// the fields that were decoded from the payload.
    pub fn to_move_struct(&self, layout: &StructLayout) -> (r: Result<StructValue, SuiError>)
        ensures
            match decode_spec(self.contents@, layout@) {
                Ok(value) => r matches Ok(decoded) && decoded@ == value,
                Err(cause) => r matches Err(error) && error.cause() == cause,
            },
            r matches Ok(decoded) ==> decoded@.fits(layout@),
            r matches Ok(decoded) ==> bcs_decoded(self.contents@, layout@.erased()) == Ok::<
                StructValueView,
                Seq<char>,
            >(decoded@.untyped()),
    {
        decode(&self.contents, layout)
    }

    /// Convert `self` to the struct dictated by the layout that was resolved for it:
    /// `get_layout`, then `to_move_struct`, failing where either fails.
    pub fn to_move_struct_with_resolver(
        &self,
        format: ObjectFormatOptions,
        resolved: Result<TypeLayout, String>,
    ) -> (r: Result<StructValue, SuiError>)
        requires
            resolved matches Ok(layout) ==> layout is Struct,
        ensures
            match resolved {
                Err(cause) => r matches Err(error) && error.cause() == cause@,
                Ok(layout) => match decode_spec(self.contents@, layout@->Struct_0) {
                    Ok(value) => r matches Ok(decoded) && decoded@ == value,
                    Err(cause) => r matches Err(error) && error.cause() == cause,
                },
            },
    {
        match self.get_layout(format, resolved) {
            Ok(layout) => self.to_move_struct(&layout),
            Err(error) => Err(error),
        }
    }
}

impl EventEnvelope {
    /// The envelope of an event, made once when the event is emitted.
    pub fn new(
        timestamp: u64,
        tx_digest: Option<TransactionDigest>,
        event: Event,
        move_struct_json_value: Option<serde_json::Value>,
    ) -> (r: Self)
        ensures
            r == (EventEnvelope { timestamp, tx_digest, event, move_struct_json_value }),
    {
        Self { timestamp, tx_digest, event, move_struct_json_value }
    }

    /// The name of the kind of the event in this envelope.
    pub fn event_type(&self) -> (r: &'static str)
        ensures
            r@ == self.event.kind().name(),
    {
        self.event.variant_name()
    }
}

} // verus!
