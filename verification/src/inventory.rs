//! The facade: one entry point per operation, and the rule that takes an
//! operation from each answer of the service to its next call or its end.
//!
//! Nothing here blocks, retries or keeps a handle. A caller that waits for a
//! result pumps the event queue and polls within a bound of its own choosing.
//! Every handle that an operation hands out stays allocated at the service
//! until the caller releases it with [`Inventory::destroy_result`], once; a
//! handle must not be released twice, used after its release, or released
//! while its items are being fetched.

use vstd::prelude::*;
use vstd::utf8::*;
use crate::error::{decode_status, InventoryError, STATUS_OK};
use crate::fetch::{take_written, written_prefix};
use crate::item::{
    decode_definition_ids,
    decode_items,
    definition_ids_of,
    items_of,
    SteamInventoryResult,
    SteamItemDef,
    SteamItemInstanceID,
};
use crate::service::{
    Outcome,
    OutcomeView,
    ServiceCall,
    ServiceCallView,
    ServiceReply,
    ServiceReplyView,
    Step,
    StepView,
};
use crate::text::{decode_property_value, terminated_text};

verus! {

/// Whether a property name can be handed to the service: it is not empty and
/// its encoding holds no zero byte, at which the service would stop reading.
pub open spec fn valid_property_name(name: Seq<char>) -> bool {
    name.len() > 0 && forall|i: int|
        0 <= i < encode_utf8(name).len() ==> encode_utf8(name)[i] != 0u8
}

/// An operation that ended in the failure `kind`.
pub open spec fn failed(kind: InventoryError) -> StepView {
    StepView::Done(Err(kind))
}

/// An operation that ended with `outcome`.
pub open spec fn finished(outcome: OutcomeView) -> StepView {
    StepView::Done(Ok(outcome))
}

/// The end of a query that the service was asked to submit: the handle it
/// issued, if it accepted the query and the handle is not the sentinel;
/// otherwise the failure `kind`.
pub open spec fn submitted(reply: ServiceReplyView, kind: InventoryError) -> StepView {
    match reply {
        ServiceReplyView::Handle { accepted, handle } if accepted && handle.spec_is_valid() =>
            finished(OutcomeView::Submitted(handle)),
        _ => failed(kind),
    }
}

/// The capacity for phase two of a read: exactly the length that phase one
/// reported, if the service accepted phase one.
pub open spec fn required_length(reply: ServiceReplyView) -> Option<u32> {
    match reply {
        ServiceReplyView::Length { accepted, required } if accepted => Some(required),
        _ => None,
    }
}

/// Where an operation stands after the service answered `reply` to `call`.
pub open spec fn next_step(call: ServiceCallView, reply: ServiceReplyView) -> StepView {
    match call {
        ServiceCallView::LoadItemDefinitions => match reply {
            ServiceReplyView::Flag { accepted } if accepted => finished(
                OutcomeView::DefinitionsRequested,
            ),
            _ => failed(InventoryError::LoadItemDefinitionsFailed),
        },
        ServiceCallView::GetItemDefinitionIds { capacity: None } => match required_length(reply) {
            Some(required) => StepView::Call(
                ServiceCallView::GetItemDefinitionIds { capacity: Some(required) },
            ),
            None => failed(InventoryError::GetItemDefinitionIDsFailed),
        },
        ServiceCallView::GetItemDefinitionIds { capacity: Some(capacity) } => match reply {
            ServiceReplyView::DefinitionIds { accepted, written, buffer } => match written_prefix(
                capacity,
                accepted,
                written,
                buffer,
            ) {
                Some(kept) => finished(OutcomeView::DefinitionIds(definition_ids_of(kept))),
                None => failed(InventoryError::GetItemDefinitionIDsFailed),
            },
            _ => failed(InventoryError::GetItemDefinitionIDsFailed),
        },
        ServiceCallView::GetItemDefinitionProperty { definition, name, capacity: None } =>
            match required_length(reply) {
            Some(required) => StepView::Call(
                ServiceCallView::GetItemDefinitionProperty {
                    definition,
                    name,
                    capacity: Some(required),
                },
            ),
            None => failed(InventoryError::GetItemDefinitionPropertyFailed),
        },
        ServiceCallView::GetItemDefinitionProperty {
            definition,
            name,
            capacity: Some(capacity),
        } => match reply {
            ServiceReplyView::PropertyValue { accepted, written, buffer } => match written_prefix(
                capacity,
                accepted,
                written,
                buffer,
            ) {
                Some(kept) => match terminated_text(kept) {
                    Some(text) => finished(OutcomeView::Property(text)),
                    None => failed(InventoryError::DecodingFailed),
                },
                None => failed(InventoryError::GetItemDefinitionPropertyFailed),
            },
            _ => failed(InventoryError::GetItemDefinitionPropertyFailed),
        },
        ServiceCallView::TriggerItemDrop { definition } => submitted(
            reply,
            InventoryError::TriggerItemDropFailed,
        ),
        ServiceCallView::ConsumeItem { item, quantity } => submitted(
            reply,
            InventoryError::ConsumeItemFailed,
        ),
        ServiceCallView::GetAllItems => submitted(reply, InventoryError::OperationFailed),
        ServiceCallView::GetResultStatus { handle } => match reply {
            ServiceReplyView::Status { code } if code == STATUS_OK => finished(OutcomeView::Ready),
            _ => failed(InventoryError::GetResultStatusFailed),
        },
        ServiceCallView::GetResultItems { handle, capacity: None } => match required_length(
            reply,
        ) {
            Some(required) => StepView::Call(
                ServiceCallView::GetResultItems { handle, capacity: Some(required) },
            ),
            None => failed(InventoryError::GetResultItemsFailed),
        },
        ServiceCallView::GetResultItems { handle, capacity: Some(capacity) } => match reply {
            ServiceReplyView::Items { accepted, written, buffer } => match written_prefix(
                capacity,
                accepted,
                written,
                buffer,
            ) {
                Some(kept) => finished(OutcomeView::Items(items_of(kept))),
                None => failed(InventoryError::GetResultItemsFailed),
            },
            _ => failed(InventoryError::GetResultItemsFailed),
        },
        ServiceCallView::DestroyResult { handle } => finished(OutcomeView::Released),
    }
}

/// Access to the inventory operations of the platform service.
///
/// Each operation starts with a method of its own, which returns the first
/// [`Step`]. While the step is a call, the caller performs it and hands the
/// answer to [`Inventory::advance`].
#[derive(Clone, Copy, Debug)]
pub struct Inventory {}

/// Whether `name` can be handed to the service as a property name.
pub fn check_property_name(name: &str) -> (valid: bool)
    ensures
        valid == valid_property_name(name@),
{
    if name.is_empty() {
        return false;
    }
    let bytes = name.as_bytes();
    let mut i: usize = 0;
    while i < bytes.len()
        invariant
            i <= bytes.len(),
            bytes@ == encode_utf8(name@),
            forall|j: int| 0 <= j < i ==> bytes@[j] != 0u8,
        decreases bytes.len() - i,
    {
        if bytes[i] == 0 {
            return false;
        }
        i += 1;
    }
    true
}

/// Ends a submission: hands out the handle that the service issued, or fails
/// with `kind`.
fn end_submission(reply: ServiceReply, kind: InventoryError) -> (step: Step)
    ensures
        step@ == submitted(reply@, kind),
{
    match reply {
        ServiceReply::Handle { accepted, handle } => {
            if accepted && handle.is_valid() {
                Step::Done(Ok(Outcome::Submitted(handle)))
            } else {
                Step::Done(Err(kind))
            }
        },
        _ => Step::Done(Err(kind)),
    }
}

/// Reads the answer to phase one of a read.
fn length_reported(reply: ServiceReply) -> (length: Option<u32>)
    ensures
        length == required_length(reply@),
{
    match reply {
        ServiceReply::Length { accepted, required } => {
            if accepted {
                Some(required)
            } else {
                None
            }
        },
        _ => None,
    }
}

impl Inventory {
    pub fn new() -> (inventory: Self) {
        Inventory {  }
    }

    /// Asks the service to load the catalog of item definitions.
    pub fn load_item_definitions(&self) -> (step: Step)
        ensures
            step@ == StepView::Call(ServiceCallView::LoadItemDefinitions),
    {
        Step::Call(ServiceCall::LoadItemDefinitions)
    }

    /// Lists the identifiers of all item definitions in the catalog.
    pub fn get_item_definitions_ids(&self) -> (step: Step)
        ensures
            step@ == StepView::Call(ServiceCallView::GetItemDefinitionIds { capacity: None }),
    {
        Step::Call(ServiceCall::GetItemDefinitionIds { capacity: None })
    }

    /// Reads one property of an item definition as text.
    ///
    /// A malformed name ends the operation at once, before any call.
    pub fn get_item_definition_property(&self, item_def: SteamItemDef, property_name: &str) -> (step:
        Step)
        ensures
            step@ == if valid_property_name(property_name@) {
                StepView::Call(
                    ServiceCallView::GetItemDefinitionProperty {
                        definition: item_def,
                        name: property_name@,
                        capacity: None,
                    },
                )
            } else {
                failed(InventoryError::InvalidInput)
            },
    {
        if check_property_name(property_name) {
            Step::Call(
                ServiceCall::GetItemDefinitionProperty {
                    definition: item_def,
                    name: property_name.to_owned(),
                    capacity: None,
                },
            )
        } else {
            Step::Done(Err(InventoryError::InvalidInput))
        }
    }

    /// Submits an item drop from a drop list definition.
    pub fn trigger_item_drop(&self, drop_list_definition: SteamItemDef) -> (step: Step)
        ensures
            step@ == StepView::Call(
                ServiceCallView::TriggerItemDrop { definition: drop_list_definition },
            ),
    {
        Step::Call(ServiceCall::TriggerItemDrop { definition: drop_list_definition })
    }

    /// Submits the consumption of `quantity` units of an item.
    ///
    /// A quantity of zero ends the operation at once, before any call.
    pub fn consume_item(&self, item_consume: SteamItemInstanceID, quantity: u32) -> (step: Step)
        ensures
            step@ == if quantity >= 1 {
                StepView::Call(ServiceCallView::ConsumeItem { item: item_consume, quantity })
            } else {
                failed(InventoryError::InvalidInput)
            },
    {
        if quantity >= 1 {
            Step::Call(ServiceCall::ConsumeItem { item: item_consume, quantity })
        } else {
            Step::Done(Err(InventoryError::InvalidInput))
        }
    }

    /// Submits a query for all items of the user's inventory.
    pub fn get_all_items(&self) -> (step: Step)
        ensures
            step@ == StepView::Call(ServiceCallView::GetAllItems),
    {
        Step::Call(ServiceCall::GetAllItems)
    }

    /// Asks whether a result has reached success.
    ///
    /// A result that is still pending and one that failed end the operation
    /// alike; one such answer does not tell that the result will never come.
    pub fn get_result_status(&self, result_handle: SteamInventoryResult) -> (step: Step)
        ensures
            step@ == StepView::Call(ServiceCallView::GetResultStatus { handle: result_handle }),
    {
        Step::Call(ServiceCall::GetResultStatus { handle: result_handle })
    }

    /// Fetches the items of a result that has reached success.
    pub fn get_result_items(&self, result_handle: SteamInventoryResult) -> (step: Step)
        ensures
            step@ == StepView::Call(
                ServiceCallView::GetResultItems { handle: result_handle, capacity: None },
            ),
    {
        Step::Call(ServiceCall::GetResultItems { handle: result_handle, capacity: None })
    }

    /// Hands a result handle back to the service. This cannot fail.
    pub fn destroy_result(&self, result_handle: SteamInventoryResult) -> (step: Step)
        ensures
            step@ == StepView::Call(ServiceCallView::DestroyResult { handle: result_handle }),
    {
        Step::Call(ServiceCall::DestroyResult { handle: result_handle })
    }

    /// Takes an operation one step further: `reply` is what the service
    /// answered to `call`.
    ///
    /// An answer of a shape that does not belong to the call counts as a
    /// refusal of the call.
    pub fn advance(&self, call: ServiceCall, reply: ServiceReply) -> (step: Step)
        ensures
            step@ == next_step(call@, reply@),
    {
        match call {
            ServiceCall::LoadItemDefinitions => match reply {
                ServiceReply::Flag { accepted: true } => Step::Done(
                    Ok(Outcome::DefinitionsRequested),
                ),
                _ => Step::Done(Err(InventoryError::LoadItemDefinitionsFailed)),
            },
            ServiceCall::GetItemDefinitionIds { capacity: None } => match length_reported(reply) {
                Some(required) => Step::Call(
                    ServiceCall::GetItemDefinitionIds { capacity: Some(required) },
                ),
                None => Step::Done(Err(InventoryError::GetItemDefinitionIDsFailed)),
            },
            ServiceCall::GetItemDefinitionIds { capacity: Some(capacity) } => match reply {
                ServiceReply::DefinitionIds { accepted, written, buffer } => match take_written(
                    capacity,
                    accepted,
                    written,
                    buffer,
                ) {
                    Some(kept) => Step::Done(
                        Ok(Outcome::DefinitionIds(decode_definition_ids(&kept))),
                    ),
                    None => Step::Done(Err(InventoryError::GetItemDefinitionIDsFailed)),
                },
                _ => Step::Done(Err(InventoryError::GetItemDefinitionIDsFailed)),
            },
            ServiceCall::GetItemDefinitionProperty { definition, name, capacity: None } =>
                match length_reported(reply) {
                Some(required) => Step::Call(
                    ServiceCall::GetItemDefinitionProperty {
                        definition,
                        name,
                        capacity: Some(required),
                    },
                ),
                None => Step::Done(Err(InventoryError::GetItemDefinitionPropertyFailed)),
            },
            ServiceCall::GetItemDefinitionProperty { definition, name, capacity: Some(capacity) } =>
                match reply {
                ServiceReply::PropertyValue { accepted, written, buffer } => match take_written(
                    capacity,
                    accepted,
                    written,
                    buffer,
                ) {
                    Some(kept) => match decode_property_value(kept) {
                        Some(text) => Step::Done(Ok(Outcome::Property(text))),
                        None => Step::Done(Err(InventoryError::DecodingFailed)),
                    },
                    None => Step::Done(Err(InventoryError::GetItemDefinitionPropertyFailed)),
                },
                _ => Step::Done(Err(InventoryError::GetItemDefinitionPropertyFailed)),
            },
            ServiceCall::TriggerItemDrop { definition } => end_submission(
                reply,
                InventoryError::TriggerItemDropFailed,
            ),
            ServiceCall::ConsumeItem { item, quantity } => end_submission(
                reply,
                InventoryError::ConsumeItemFailed,
            ),
            ServiceCall::GetAllItems => end_submission(reply, InventoryError::OperationFailed),
            ServiceCall::GetResultStatus { handle } => match reply {
                ServiceReply::Status { code } => match decode_status(code) {
                    Ok(_) => Step::Done(Ok(Outcome::Ready)),
                    Err(_) => Step::Done(Err(InventoryError::GetResultStatusFailed)),
                },
                _ => Step::Done(Err(InventoryError::GetResultStatusFailed)),
            },
            ServiceCall::GetResultItems { handle, capacity: None } => match length_reported(
                reply,
            ) {
                Some(required) => Step::Call(
                    ServiceCall::GetResultItems { handle, capacity: Some(required) },
                ),
                None => Step::Done(Err(InventoryError::GetResultItemsFailed)),
            },
            ServiceCall::GetResultItems { handle, capacity: Some(capacity) } => match reply {
                ServiceReply::Items { accepted, written, buffer } => match take_written(
                    capacity,
                    accepted,
                    written,
                    buffer,
                ) {
                    Some(kept) => Step::Done(Ok(Outcome::Items(decode_items(&kept)))),
                    None => Step::Done(Err(InventoryError::GetResultItemsFailed)),
                },
                _ => Step::Done(Err(InventoryError::GetResultItemsFailed)),
            },
            ServiceCall::DestroyResult { handle } => Step::Done(Ok(Outcome::Released)),
        }
    }
}

/// Whether `call` is a read of variable length.
pub open spec fn is_read(call: ServiceCallView) -> bool {
    call is GetItemDefinitionIds || call is GetItemDefinitionProperty || call is GetResultItems
}

/// The capacity that a read carries: `None` in phase one.
pub open spec fn capacity_of(call: ServiceCallView) -> Option<u32> {
    match call {
        ServiceCallView::GetItemDefinitionIds { capacity } => capacity,
        ServiceCallView::GetItemDefinitionProperty { capacity, .. } => capacity,
        ServiceCallView::GetResultItems { capacity, .. } => capacity,
        _ => None,
    }
}

/// The same read with the capacity `capacity`.
pub open spec fn with_capacity(call: ServiceCallView, capacity: u32) -> ServiceCallView {
    match call {
        ServiceCallView::GetItemDefinitionIds { .. } => ServiceCallView::GetItemDefinitionIds {
            capacity: Some(capacity),
        },
        ServiceCallView::GetItemDefinitionProperty { definition, name, .. } =>
            ServiceCallView::GetItemDefinitionProperty {
            definition,
            name,
            capacity: Some(capacity),
        },
        ServiceCallView::GetResultItems { handle, .. } => ServiceCallView::GetResultItems {
            handle,
            capacity: Some(capacity),
        },
        _ => call,
    }
}

/// The failure with which the service's refusal of `call` is reported.
/// Releasing a handle has none: it ends well whatever comes back.
pub open spec fn refusal_of(call: ServiceCallView) -> Option<InventoryError> {
    match call {
        ServiceCallView::LoadItemDefinitions => Some(InventoryError::LoadItemDefinitionsFailed),
        ServiceCallView::GetItemDefinitionIds { .. } => Some(
            InventoryError::GetItemDefinitionIDsFailed,
        ),
        ServiceCallView::GetItemDefinitionProperty { .. } => Some(
            InventoryError::GetItemDefinitionPropertyFailed,
        ),
        ServiceCallView::TriggerItemDrop { .. } => Some(InventoryError::TriggerItemDropFailed),
        ServiceCallView::ConsumeItem { .. } => Some(InventoryError::ConsumeItemFailed),
        ServiceCallView::GetAllItems => Some(InventoryError::OperationFailed),
        ServiceCallView::GetResultStatus { .. } => Some(InventoryError::GetResultStatusFailed),
        ServiceCallView::GetResultItems { .. } => Some(InventoryError::GetResultItemsFailed),
        ServiceCallView::DestroyResult { .. } => None,
    }
}

/// Whether the service refused the call that `reply` answers: it says so, or
/// it reports a status other than success.
pub open spec fn is_refusal(reply: ServiceReplyView) -> bool {
    match reply {
        ServiceReplyView::Flag { accepted } => !accepted,
        ServiceReplyView::Handle { accepted, .. } => !accepted,
        ServiceReplyView::Status { code } => code != STATUS_OK,
        ServiceReplyView::Length { accepted, .. } => !accepted,
        ServiceReplyView::DefinitionIds { accepted, .. } => !accepted,
        ServiceReplyView::PropertyValue { accepted, .. } => !accepted,
        ServiceReplyView::Items { accepted, .. } => !accepted,
        ServiceReplyView::Released => false,
    }
}

/// Phase one decides phase two: when the service accepts the length query of
/// a read and reports the count `n`, the next call is the same read with a
/// buffer of exactly `n` elements; when it does not, the read fails with its
/// own kind and no second call is made.
pub proof fn length_query_sizes_the_fill(call: ServiceCallView, reply: ServiceReplyView)
    requires
        is_read(call),
        capacity_of(call) is None,
    ensures
        match required_length(reply) {
            Some(n) => next_step(call, reply) == StepView::Call(with_capacity(call, n)),
            None => refusal_of(call) matches Some(kind) && next_step(call, reply) == failed(
                kind,
            ),
        },
{
}

/// Phase two is trusted over phase one: what a read returns has exactly as
/// many elements as the fill call reports as written, which is no more than
/// the capacity allocated after the length query, and each element is the
/// decoding of the buffer element at its place. Nothing behind the written
/// count is read, and a count beyond the capacity or the buffer is a failure.
pub proof fn fill_keeps_what_was_written(call: ServiceCallView, reply: ServiceReplyView)
    requires
        is_read(call),
        capacity_of(call) is Some,
    ensures
        next_step(call, reply) matches StepView::Done(Ok(OutcomeView::DefinitionIds(ids))) ==> {
            &&& call is GetItemDefinitionIds
            &&& reply matches ServiceReplyView::DefinitionIds { accepted, written, buffer }
            &&& accepted
            &&& written <= capacity_of(call)->0
            &&& written <= buffer.len()
            &&& ids.len() == written
            &&& forall|i: int| 0 <= i < written ==> ids[i] == SteamItemDef(buffer[i])
        },
        next_step(call, reply) matches StepView::Done(Ok(OutcomeView::Items(items))) ==> {
            &&& call is GetResultItems
            &&& reply matches ServiceReplyView::Items { accepted, written, buffer }
            &&& accepted
            &&& written <= capacity_of(call)->0
            &&& written <= buffer.len()
            &&& items.len() == written
            &&& forall|i: int|
                0 <= i < written ==> items[i] == crate::item::SteamItemDetails::of_raw(buffer[i])
        },
        next_step(call, reply) matches StepView::Done(Ok(OutcomeView::Property(text))) ==> {
            &&& call is GetItemDefinitionProperty
            &&& reply matches ServiceReplyView::PropertyValue { accepted, written, buffer }
            &&& accepted
            &&& 1 <= written <= capacity_of(call)->0
            &&& written <= buffer.len()
            &&& buffer[written - 1] == crate::text::TERMINATOR
            &&& encode_utf8(text) == buffer.subrange(0, written - 1)
        },
        next_step(call, reply) is Done,
        next_step(call, reply) matches StepView::Done(Ok(outcome)) ==> outcome is DefinitionIds
            || outcome is Items || outcome is Property,
{
    match reply {
        ServiceReplyView::PropertyValue { accepted, written, buffer } => {
            let capacity = capacity_of(call)->0;
            if let Some(kept) = written_prefix(capacity, accepted, written, buffer) {
                if terminated_text(kept) is Some {
                    decode_utf8_encode_utf8(kept.drop_last());
                    assert(kept.drop_last() =~= buffer.subrange(0, written - 1));
                }
            }
        },
        _ => {},
    }
}

/// A refusal is never turned into data: when the service refuses a call, the
/// operation ends there with the failure kind of that call. Only releasing a
/// handle has no failure.
pub proof fn refusal_ends_the_operation(call: ServiceCallView, reply: ServiceReplyView)
    requires
        is_refusal(reply),
    ensures
        match refusal_of(call) {
            Some(kind) => next_step(call, reply) == failed(kind),
            None => next_step(call, reply) == finished(OutcomeView::Released),
        },
{
}

/// Items come only from an accepted fill: fetching the items of a result ends
/// with items only when the service accepted both the length query and the
/// fill call. For a handle that has not reached success the service refuses,
/// and the fetch then fails with `GetResultItemsFailed` and returns no data.
pub proof fn items_need_an_accepted_fetch(
    handle: SteamInventoryResult,
    capacity: Option<u32>,
    reply: ServiceReplyView,
)
    ensures
        ({
            let call = ServiceCallView::GetResultItems { handle, capacity };
            &&& is_refusal(reply) ==> next_step(call, reply) == failed(
                InventoryError::GetResultItemsFailed,
            )
            &&& next_step(call, reply) matches StepView::Done(Ok(outcome)) ==> {
                &&& outcome is Items
                &&& capacity is Some
                &&& reply is Items
                &&& !is_refusal(reply)
            }
            &&& next_step(call, reply) matches StepView::Call(next) ==> {
                &&& capacity is None
                &&& reply is Length
                &&& !is_refusal(reply)
                &&& next is GetResultItems
            }
            &&& next_step(call, reply) matches StepView::Done(Err(kind)) ==> kind
                == InventoryError::GetResultItemsFailed
        }),
{
}

/// No operation calls the service more than twice, and none repeats a call:
/// whatever the service answers, an operation has ended after its first
/// answer, or it goes from its length query to its fill call and has ended
/// after the second answer.
pub proof fn operation_ends_within_two_calls(
    call: ServiceCallView,
    first: ServiceReplyView,
    second: ServiceReplyView,
)
    requires
        capacity_of(call) is None,
    ensures
        next_step(call, first) matches StepView::Call(next) ==> {
            &&& is_read(call)
            &&& capacity_of(next) is Some
            &&& next_step(next, second) is Done
        },
{
}

/// A handle that an operation hands out is never the sentinel.
pub proof fn submitted_handle_is_valid(call: ServiceCallView, reply: ServiceReplyView)
    ensures
        next_step(call, reply) matches StepView::Done(Ok(OutcomeView::Submitted(handle)))
            ==> handle.spec_is_valid() && (call is TriggerItemDrop || call is ConsumeItem
            || call is GetAllItems),
{
}

} // verus!
