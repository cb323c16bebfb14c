//! Identifiers and item records.

use vstd::prelude::*;

verus! {

/// Raw value of the handle that stands for "no result".
pub const INVALID_RESULT: i32 = -1;

/// Identifier of an item definition: a class of item in the catalog.
#[derive(Clone, Copy, Debug, PartialEq, Eq, Structural)]
pub struct SteamItemDef(pub i32);

/// Identifier of one concrete item instance owned by a user.
#[derive(Clone, Copy, Debug, PartialEq, Eq, Structural)]
pub struct SteamItemInstanceID(pub u64);

/// Token for a pending or completed asynchronous query at the service.
///
/// The token is owned by the service. Releasing it is an explicit operation of
/// the facade and is owed exactly once by whoever received the token; dropping
/// the value releases nothing.
#[derive(Clone, Copy, Debug, PartialEq, Eq, Structural)]
pub struct SteamInventoryResult(pub i32);

impl SteamInventoryResult {
    /// The sentinel that no submitted query ever carries.
    pub fn invalid() -> (handle: Self)
        ensures
            handle.0 == INVALID_RESULT,
            !handle.spec_is_valid(),
    {
        SteamInventoryResult(INVALID_RESULT)
    }

    pub open spec fn spec_is_valid(self) -> bool {
        self.0 != INVALID_RESULT
    }

    /// Whether this token differs from the sentinel.
    #[verifier::when_used_as_spec(spec_is_valid)]
    pub fn is_valid(self) -> (valid: bool)
        ensures
            valid == self.spec_is_valid(),
    {
        self.0 != INVALID_RESULT
    }
}

/// One item record as the service lays it out in a result buffer.
#[derive(Clone, Copy, Debug, PartialEq, Eq, Structural)]
pub struct RawItemDetails {
    pub item_id: u64,
    pub definition: i32,
    pub quantity: u16,
    pub flags: u16,
}

/// One item of an inventory result.
#[derive(Clone, Copy, Debug, PartialEq, Eq, Structural)]
pub struct SteamItemDetails {
    pub item_id: SteamItemInstanceID,
    pub definition: SteamItemDef,
    pub quantity: u16,
    pub flags: u16,
}

impl SteamItemDetails {
    /// The typed record that a raw record stands for, field by field.
    pub open spec fn of_raw(raw: RawItemDetails) -> SteamItemDetails {
        SteamItemDetails {
            item_id: SteamItemInstanceID(raw.item_id),
            definition: SteamItemDef(raw.definition),
            quantity: raw.quantity,
            flags: raw.flags,
        }
    }

    /// Decodes one raw record.
    pub fn from_raw(raw: RawItemDetails) -> (details: Self)
        ensures
            details == Self::of_raw(raw),
    {
        SteamItemDetails {
            item_id: SteamItemInstanceID(raw.item_id),
            definition: SteamItemDef(raw.definition),
            quantity: raw.quantity,
            flags: raw.flags,
        }
    }
}

/// The typed records that a sequence of raw records stands for, in order.
pub open spec fn items_of(raw: Seq<RawItemDetails>) -> Seq<SteamItemDetails> {
    Seq::new(raw.len(), |i: int| SteamItemDetails::of_raw(raw[i]))
}

/// The definition identifiers that a sequence of raw values stands for, in
/// order.
pub open spec fn definition_ids_of(raw: Seq<i32>) -> Seq<SteamItemDef> {
    Seq::new(raw.len(), |i: int| SteamItemDef(raw[i]))
}

/// Decodes the records of a result buffer, keeping their order.
pub fn decode_items(raw: &Vec<RawItemDetails>) -> (items: Vec<SteamItemDetails>)
    ensures
        items@ == items_of(raw@),
{
    let mut items: Vec<SteamItemDetails> = Vec::with_capacity(raw.len());
    let mut i: usize = 0;
    while i < raw.len()
        invariant
            i <= raw.len(),
            items@ == items_of(raw@.take(i as int)),
        decreases raw.len() - i,
    {
        items.push(SteamItemDetails::from_raw(raw[i]));
        i += 1;
        assert(items@ =~= items_of(raw@.take(i as int)));
    }
    assert(raw@.take(i as int) =~= raw@);
    items
}

/// Wraps the values of an identifier buffer, keeping their order.
pub fn decode_definition_ids(raw: &Vec<i32>) -> (ids: Vec<SteamItemDef>)
    ensures
        ids@ == definition_ids_of(raw@),
{
    let mut ids: Vec<SteamItemDef> = Vec::with_capacity(raw.len());
    let mut i: usize = 0;
    while i < raw.len()
        invariant
            i <= raw.len(),
            ids@ == definition_ids_of(raw@.take(i as int)),
        decreases raw.len() - i,
    {
        ids.push(SteamItemDef(raw[i]));
        i += 1;
        assert(ids@ =~= definition_ids_of(raw@.take(i as int)));
    }
    assert(raw@.take(i as int) =~= raw@);
    ids
}

} // verus!
