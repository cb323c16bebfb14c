//! Failure kinds of the facade and failure reasons reported by the service.

use vstd::prelude::*;

verus! {

/// Status code with which the service reports success.
pub const STATUS_OK: i32 = 1;

/// Why an inventory operation did not produce its result.
#[derive(Clone, Copy, Debug, PartialEq, Eq, Structural)]
pub enum InventoryError {
    /// The service refused to submit a query that has no more specific kind.
    OperationFailed,
    /// The service refused to submit an item drop.
    TriggerItemDropFailed,
    /// The service refused to submit an item consumption.
    ConsumeItemFailed,
    /// The status of a result is not success: it failed, or it is still pending.
    GetResultStatusFailed,
    /// The items of a result could not be fetched.
    GetResultItemsFailed,
    /// An argument was malformed; the service was not called.
    InvalidInput,
    /// The service refused to load the catalog.
    LoadItemDefinitionsFailed,
    /// The definition identifiers could not be fetched.
    GetItemDefinitionIDsFailed,
    /// The property could not be fetched: unknown, of another type, or refused.
    GetItemDefinitionPropertyFailed,
    /// A fetched property value is not terminated text in UTF-8.
    DecodingFailed,
}

impl InventoryError {
    /// The sentence that describes this failure.
    pub open spec fn spec_message(self) -> Seq<char> {
        match self {
            InventoryError::OperationFailed => "The inventory operation failed"@,
            InventoryError::TriggerItemDropFailed => "Failed to trigger item drop"@,
            InventoryError::ConsumeItemFailed => "Failed to consume item"@,
            InventoryError::GetResultStatusFailed => "Failed to retrieve result status"@,
            InventoryError::GetResultItemsFailed => "Failed to retrieve result items"@,
            InventoryError::InvalidInput => "Invalid input"@,
            InventoryError::LoadItemDefinitionsFailed => "Load item definitions failed"@,
            InventoryError::GetItemDefinitionIDsFailed => "Failed to retrieve item definition IDs"@,
            InventoryError::GetItemDefinitionPropertyFailed =>
                "Failed to retrieve item definition property"@,
            InventoryError::DecodingFailed => "Item definition property is not valid text"@,
        }
    }

    /// The sentence that describes this failure.
    pub fn message(&self) -> (text: &'static str)
        ensures
            text@ == self.spec_message(),
    {
        match self {
            InventoryError::OperationFailed => "The inventory operation failed",
            InventoryError::TriggerItemDropFailed => "Failed to trigger item drop",
            InventoryError::ConsumeItemFailed => "Failed to consume item",
            InventoryError::GetResultStatusFailed => "Failed to retrieve result status",
            InventoryError::GetResultItemsFailed => "Failed to retrieve result items",
            InventoryError::InvalidInput => "Invalid input",
            InventoryError::LoadItemDefinitionsFailed => "Load item definitions failed",
            InventoryError::GetItemDefinitionIDsFailed => "Failed to retrieve item definition IDs",
            InventoryError::GetItemDefinitionPropertyFailed =>
                "Failed to retrieve item definition property",
            InventoryError::DecodingFailed => "Item definition property is not valid text",
        }
    }
}

/// A failure reason reported by the service: a status code other than success.
#[derive(Clone, Copy, Debug, PartialEq, Eq, Structural)]
pub struct SteamError {
    code: i32,
}

impl SteamError {
    #[verifier::type_invariant]
    spec fn names_a_failure(self) -> bool {
        self.code != STATUS_OK
    }

    /// The status code that this reason carries.
    pub closed spec fn spec_code(self) -> i32 {
        self.code
    }

    /// The status code that this reason carries; never the code for success.
    #[verifier::when_used_as_spec(spec_code)]
    pub fn code(self) -> (code: i32)
        ensures
            code == self.spec_code(),
            code != STATUS_OK,
    {
        proof {
            use_type_invariant(&self);
        }
        self.code
    }
}

/// Decodes a raw status code of the service.
pub fn decode_status(status: i32) -> (outcome: Result<(), SteamError>)
    ensures
        outcome is Ok <==> status == STATUS_OK,
        outcome matches Err(reason) ==> reason.spec_code() == status,
{
    if status == STATUS_OK {
        Ok(())
    } else {
        Err(SteamError { code: status })
    }
}

} // verus!
