//! Protocol logic of a game client's inventory subsystem.
//!
//! The platform service that owns the inventory is reached only through calls
//! that the embedding program performs. This library decides which call comes
//! next, judges every answer, and turns raw buffers and event payloads into
//! typed values. It performs no call itself and never blocks.

pub mod error;
pub mod event;
pub mod fetch;
pub mod inventory;
pub mod item;
pub mod service;
pub mod text;

pub use error::{decode_status, InventoryError, SteamError, STATUS_OK};
pub use event::{
    SteamInventoryDefinitionUpdate,
    SteamInventoryFullUpdate,
    SteamInventoryResultReady,
};
pub use inventory::Inventory;
pub use item::{
    RawItemDetails,
    SteamInventoryResult,
    SteamItemDef,
    SteamItemDetails,
    SteamItemInstanceID,
    INVALID_RESULT,
};
pub use service::{Outcome, ServiceCall, ServiceReply, Step};
