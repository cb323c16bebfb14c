//! Event records: the notifications that the service delivers through the
//! event queue, each decoded once from its raw payload.
//!
//! Records of different kinds arrive in no fixed order. The one promise is
//! that the record which reports a result as ready arrives before the items
//! of that result can be fetched.

use vstd::prelude::*;
use crate::error::{decode_status, SteamError, STATUS_OK};
use crate::item::SteamInventoryResult;

verus! {

/// Length in bytes of the payload of a [`SteamInventoryResultReady`] record:
/// the handle, then the status code.
pub const RESULT_READY_SIZE: usize = 8;

/// Length in bytes of the payload of a [`SteamInventoryFullUpdate`] record:
/// the handle.
pub const FULL_UPDATE_SIZE: usize = 4;

/// The signed 32-bit integer that four bytes hold, lowest byte first.
pub open spec fn le_i32(b0: u8, b1: u8, b2: u8, b3: u8) -> int {
    let unsigned = b0 as int + 0x100 * (b1 as int) + 0x1_0000 * (b2 as int) + 0x100_0000 * (
    b3 as int);
    if unsigned < 0x8000_0000 {
        unsigned
    } else {
        unsigned - 0x1_0000_0000
    }
}

/// Reads the signed 32-bit integer at `at`, lowest byte first.
pub fn read_le_i32(raw: &[u8], at: usize) -> (value: i32)
    requires
        at + 4 <= raw@.len(),
    ensures
        value == le_i32(raw@[at as int], raw@[at + 1], raw@[at + 2], raw@[at + 3]),
{
    let b0: u32 = raw[at] as u32;
    let b1: u32 = raw[at + 1] as u32;
    let b2: u32 = raw[at + 2] as u32;
    let b3: u32 = raw[at + 3] as u32;
    let unsigned: u32 = b0 + 0x100 * b1 + 0x1_0000 * b2 + 0x100_0000 * b3;
    if unsigned < 0x8000_0000 {
        unsigned as i32
    } else {
        let low: i32 = (unsigned - 0x8000_0000) as i32;
        low + i32::MIN
    }
}

/// The catalog that "load item definitions" asked for can now be queried.
#[derive(Clone, Copy, Debug, PartialEq, Eq, Structural)]
pub struct SteamInventoryDefinitionUpdate {}

impl SteamInventoryDefinitionUpdate {
    /// Decodes the record. It carries nothing, so every payload is accepted.
    pub fn from_raw(raw: &[u8]) -> (record: Self) {
        SteamInventoryDefinitionUpdate {  }
    }
}

/// A result handle has reached its end: with success, or with the failure
/// that the service reports.
#[derive(Clone, Copy, Debug, PartialEq, Eq)]
pub struct SteamInventoryResultReady {
    pub handle: SteamInventoryResult,
    pub result: Result<(), SteamError>,
}

impl SteamInventoryResultReady {
    /// Whether `raw` has the shape of this record's payload.
    pub open spec fn well_formed(raw: Seq<u8>) -> bool {
        raw.len() == RESULT_READY_SIZE
    }

    /// The handle that a well-formed payload names.
    pub open spec fn raw_handle(raw: Seq<u8>) -> int
        recommends
            Self::well_formed(raw),
    {
        le_i32(raw[0], raw[1], raw[2], raw[3])
    }

    /// The status code that a well-formed payload carries.
    pub open spec fn raw_status(raw: Seq<u8>) -> int
        recommends
            Self::well_formed(raw),
    {
        le_i32(raw[4], raw[5], raw[6], raw[7])
    }

    /// Decodes the record from its payload. A payload of another length is
    /// no record. The status code is decoded here, once: success, or the
    /// failure reason that the code names.
    pub fn from_raw(raw: &[u8]) -> (record: Option<Self>)
        ensures
            record is Some <==> Self::well_formed(raw@),
            record matches Some(r) ==> {
                &&& r.handle.0 == Self::raw_handle(raw@)
                &&& r.result is Ok <==> Self::raw_status(raw@) == STATUS_OK
                &&& r.result matches Err(reason) ==> reason.spec_code() == Self::raw_status(raw@)
            },
    {
        if raw.len() != RESULT_READY_SIZE {
            return None;
        }
        let handle: i32 = read_le_i32(raw, 0);
        let status: i32 = read_le_i32(raw, 4);
        Some(
            SteamInventoryResultReady {
                handle: SteamInventoryResult(handle),
                result: decode_status(status),
            },
        )
    }
}

/// A complete snapshot of the inventory is ready under a handle.
#[derive(Clone, Copy, Debug, PartialEq, Eq, Structural)]
pub struct SteamInventoryFullUpdate {
    pub handle: SteamInventoryResult,
}

impl SteamInventoryFullUpdate {
    /// Whether `raw` has the shape of this record's payload.
    pub open spec fn well_formed(raw: Seq<u8>) -> bool {
        raw.len() == FULL_UPDATE_SIZE
    }

    /// The handle that a well-formed payload names.
    pub open spec fn raw_handle(raw: Seq<u8>) -> int
        recommends
            Self::well_formed(raw),
    {
        le_i32(raw[0], raw[1], raw[2], raw[3])
    }

    /// Decodes the record from its payload. A payload of another length is
    /// no record.
    pub fn from_raw(raw: &[u8]) -> (record: Option<Self>)
        ensures
            record is Some <==> Self::well_formed(raw@),
            record matches Some(r) ==> r.handle.0 == Self::raw_handle(raw@),
    {
        if raw.len() != FULL_UPDATE_SIZE {
            return None;
        }
        let handle: i32 = read_le_i32(raw, 0);
        Some(SteamInventoryFullUpdate { handle: SteamInventoryResult(handle) })
    }
}

} // verus!
