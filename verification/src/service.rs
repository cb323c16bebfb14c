//! The boundary to the platform service: the calls that the facade asks for,
//! the answers that come back, and what an operation ends with.
//!
//! A call is performed by the embedding program, on the service's single
//! interface. Calls made at the same time are safe only as far as the service
//! itself allows them on that interface; nothing here takes a lock.

use vstd::prelude::*;
use crate::error::InventoryError;
use crate::item::{
    RawItemDetails,
    SteamInventoryResult,
    SteamItemDef,
    SteamItemDetails,
    SteamItemInstanceID,
};

verus! {

/// One call to the service.
///
/// A read of variable length carries a `capacity`: `None` asks for the
/// required length with no buffer and a count of zero, `Some(n)` fills a
/// buffer of exactly `n` elements.
#[derive(Clone, Debug, PartialEq, Eq)]
pub enum ServiceCall {
    LoadItemDefinitions,
    GetItemDefinitionIds { capacity: Option<u32> },
    GetItemDefinitionProperty { definition: SteamItemDef, name: String, capacity: Option<u32> },
    TriggerItemDrop { definition: SteamItemDef },
    ConsumeItem { item: SteamItemInstanceID, quantity: u32 },
    GetAllItems,
    GetResultStatus { handle: SteamInventoryResult },
    GetResultItems { handle: SteamInventoryResult, capacity: Option<u32> },
    DestroyResult { handle: SteamInventoryResult },
}

/// Mathematical value of a [`ServiceCall`].
pub ghost enum ServiceCallView {
    LoadItemDefinitions,
    GetItemDefinitionIds { capacity: Option<u32> },
    GetItemDefinitionProperty { definition: SteamItemDef, name: Seq<char>, capacity: Option<u32> },
    TriggerItemDrop { definition: SteamItemDef },
    ConsumeItem { item: SteamItemInstanceID, quantity: u32 },
    GetAllItems,
    GetResultStatus { handle: SteamInventoryResult },
    GetResultItems { handle: SteamInventoryResult, capacity: Option<u32> },
    DestroyResult { handle: SteamInventoryResult },
}

impl View for ServiceCall {
    type V = ServiceCallView;

    open spec fn view(&self) -> ServiceCallView {
        match *self {
            ServiceCall::LoadItemDefinitions => ServiceCallView::LoadItemDefinitions,
            ServiceCall::GetItemDefinitionIds { capacity } => ServiceCallView::GetItemDefinitionIds {
                capacity,
            },
            ServiceCall::GetItemDefinitionProperty { definition, name, capacity } =>
                ServiceCallView::GetItemDefinitionProperty { definition, name: name@, capacity },
            ServiceCall::TriggerItemDrop { definition } => ServiceCallView::TriggerItemDrop {
                definition,
            },
            ServiceCall::ConsumeItem { item, quantity } => ServiceCallView::ConsumeItem {
                item,
                quantity,
            },
            ServiceCall::GetAllItems => ServiceCallView::GetAllItems,
            ServiceCall::GetResultStatus { handle } => ServiceCallView::GetResultStatus { handle },
            ServiceCall::GetResultItems { handle, capacity } => ServiceCallView::GetResultItems {
                handle,
                capacity,
            },
            ServiceCall::DestroyResult { handle } => ServiceCallView::DestroyResult { handle },
        }
    }
}

/// The answer of the service to one call.
#[derive(Clone, Debug, PartialEq, Eq)]
#[allow(inconsistent_fields)]
pub enum ServiceReply {
    /// Whether the service accepted a call that returns nothing else.
    Flag { accepted: bool },
    /// Whether the service accepted a query, and the handle it issued for it.
    Handle { accepted: bool, handle: SteamInventoryResult },
    /// The raw status code of a result.
    Status { code: i32 },
    /// The element count that a read requires.
    Length { accepted: bool, required: u32 },
    /// A filled buffer of definition identifiers and the count written.
    DefinitionIds { accepted: bool, written: u32, buffer: Vec<i32> },
    /// A filled buffer of property bytes and the count written.
    PropertyValue { accepted: bool, written: u32, buffer: Vec<u8> },
    /// A filled buffer of item records and the count written.
    Items { accepted: bool, written: u32, buffer: Vec<RawItemDetails> },
    /// The service returned from a call that reports nothing.
    Released,
}

/// Mathematical value of a [`ServiceReply`].
#[allow(inconsistent_fields)]
pub ghost enum ServiceReplyView {
    Flag { accepted: bool },
    Handle { accepted: bool, handle: SteamInventoryResult },
    Status { code: i32 },
    Length { accepted: bool, required: u32 },
    DefinitionIds { accepted: bool, written: u32, buffer: Seq<i32> },
    PropertyValue { accepted: bool, written: u32, buffer: Seq<u8> },
    Items { accepted: bool, written: u32, buffer: Seq<RawItemDetails> },
    Released,
}

impl View for ServiceReply {
    type V = ServiceReplyView;

    open spec fn view(&self) -> ServiceReplyView {
        match *self {
            ServiceReply::Flag { accepted } => ServiceReplyView::Flag { accepted },
            ServiceReply::Handle { accepted, handle } => ServiceReplyView::Handle {
                accepted,
                handle,
            },
            ServiceReply::Status { code } => ServiceReplyView::Status { code },
            ServiceReply::Length { accepted, required } => ServiceReplyView::Length {
                accepted,
                required,
            },
            ServiceReply::DefinitionIds { accepted, written, buffer } =>
                ServiceReplyView::DefinitionIds { accepted, written, buffer: buffer@ },
            ServiceReply::PropertyValue { accepted, written, buffer } =>
                ServiceReplyView::PropertyValue { accepted, written, buffer: buffer@ },
            ServiceReply::Items { accepted, written, buffer } => ServiceReplyView::Items {
                accepted,
                written,
                buffer: buffer@,
            },
            ServiceReply::Released => ServiceReplyView::Released,
        }
    }
}

/// What a completed operation produced.
#[derive(Clone, Debug, PartialEq, Eq)]
pub enum Outcome {
    /// The catalog is being loaded; an event tells when it can be queried.
    DefinitionsRequested,
    /// The definition identifiers of the catalog, in the service's order.
    DefinitionIds(Vec<SteamItemDef>),
    /// The text of a definition's property.
    Property(String),
    /// A query was submitted; its result is pending under this handle.
    Submitted(SteamInventoryResult),
    /// The result has reached success.
    Ready,
    /// The items of a result, in the service's order.
    Items(Vec<SteamItemDetails>),
    /// The handle was handed back to the service.
    Released,
}

/// Mathematical value of an [`Outcome`].
pub ghost enum OutcomeView {
    DefinitionsRequested,
    DefinitionIds(Seq<SteamItemDef>),
    Property(Seq<char>),
    Submitted(SteamInventoryResult),
    Ready,
    Items(Seq<SteamItemDetails>),
    Released,
}

impl View for Outcome {
    type V = OutcomeView;

    open spec fn view(&self) -> OutcomeView {
        match *self {
            Outcome::DefinitionsRequested => OutcomeView::DefinitionsRequested,
            Outcome::DefinitionIds(ids) => OutcomeView::DefinitionIds(ids@),
            Outcome::Property(text) => OutcomeView::Property(text@),
            Outcome::Submitted(handle) => OutcomeView::Submitted(handle),
            Outcome::Ready => OutcomeView::Ready,
            Outcome::Items(items) => OutcomeView::Items(items@),
            Outcome::Released => OutcomeView::Released,
        }
    }
}

/// Where an operation stands: it waits for a call to be performed, or it has
/// ended with an outcome or a failure.
#[derive(Debug, PartialEq, Eq)]
pub enum Step {
    Call(ServiceCall),
    Done(Result<Outcome, InventoryError>),
}

/// Mathematical value of a [`Step`].
pub ghost enum StepView {
    Call(ServiceCallView),
    Done(Result<OutcomeView, InventoryError>),
}

impl View for Step {
    type V = StepView;

    open spec fn view(&self) -> StepView {
        match *self {
            Step::Call(call) => StepView::Call(call@),
            Step::Done(Ok(outcome)) => StepView::Done(Ok(outcome@)),
            Step::Done(Err(kind)) => StepView::Done(Err(kind)),
        }
    }
}

} // verus!
