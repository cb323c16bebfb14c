use steam_inventory::error::decode_status;
use steam_inventory::event::{read_le_i32, FULL_UPDATE_SIZE, RESULT_READY_SIZE};
use steam_inventory::fetch::take_written;
use steam_inventory::inventory::check_property_name;
use steam_inventory::item::{decode_definition_ids, decode_items};
use steam_inventory::text::decode_property_value;
use steam_inventory::{
    InventoryError, RawItemDetails, SteamInventoryDefinitionUpdate, SteamInventoryFullUpdate,
    SteamInventoryResult, SteamInventoryResultReady, SteamItemDef, SteamItemDetails,
    SteamItemInstanceID, INVALID_RESULT, STATUS_OK,
};

#[test]
fn text_of_length_l_minus_one() {
    let value = vec![b'S', b'w', b'o', b'r', b'd', 0];
    let text = decode_property_value(value).unwrap();
    assert_eq!(text, "Sword");
    assert_eq!(text.len(), 5);
}

#[test]
fn text_keeps_multibyte_characters() {
    let mut value = "K\u{f6}nig \u{2654}".as_bytes().to_vec();
    let encoded = value.len();
    value.push(0);
    let text = decode_property_value(value).unwrap();
    assert_eq!(text, "K\u{f6}nig \u{2654}");
    assert_eq!(text.len(), encoded);
    assert_eq!(text.chars().count(), 7);
}

#[test]
fn invalid_utf8_is_not_replaced() {
    assert_eq!(decode_property_value(vec![b'a', 0xFF, b'b', 0]), None);
    assert_eq!(decode_property_value(vec![0xE2, 0x82, 0]), None);
    assert_eq!(decode_property_value(vec![0xED, 0xA0, 0x80, 0]), None);
}

#[test]
fn only_one_terminator_is_stripped() {
    assert_eq!(decode_property_value(vec![b'a', 0, 0]), Some(String::from("a\0")));
    assert_eq!(decode_property_value(vec![0]), Some(String::new()));
}

#[test]
fn value_without_terminator_is_rejected() {
    assert_eq!(decode_property_value(Vec::new()), None);
    assert_eq!(decode_property_value(vec![b'a', b'b']), None);
}

#[test]
fn written_elements_are_kept_in_order() {
    assert_eq!(take_written(5, true, 3, vec![1u8, 2, 3, 4, 5]), Some(vec![1u8, 2, 3]));
    assert_eq!(take_written(5, true, 5, vec![1u8, 2, 3, 4, 5]), Some(vec![1u8, 2, 3, 4, 5]));
    assert_eq!(take_written(5, true, 0, vec![1u8, 2, 3, 4, 5]), Some(Vec::new()));
    assert_eq!(take_written(0, true, 0, Vec::<u8>::new()), Some(Vec::new()));
}

#[test]
fn written_elements_need_an_accepted_call_and_room() {
    assert_eq!(take_written(5, false, 3, vec![1u8, 2, 3, 4, 5]), None);
    assert_eq!(take_written(2, true, 3, vec![1u8, 2, 3, 4, 5]), None);
    assert_eq!(take_written(5, true, 4, vec![1u8, 2, 3]), None);
    assert_eq!(take_written(u32::MAX, true, u32::MAX, vec![1u8]), None);
}

#[test]
fn raw_records_become_items() {
    let raw = vec![
        RawItemDetails { item_id: u64::MAX, definition: -5, quantity: u16::MAX, flags: 0x0101 },
        RawItemDetails { item_id: 1, definition: 2, quantity: 3, flags: 4 },
    ];
    let items = decode_items(&raw);
    assert_eq!(
        items,
        vec![
            SteamItemDetails {
                item_id: SteamItemInstanceID(u64::MAX),
                definition: SteamItemDef(-5),
                quantity: u16::MAX,
                flags: 0x0101,
            },
            SteamItemDetails {
                item_id: SteamItemInstanceID(1),
                definition: SteamItemDef(2),
                quantity: 3,
                flags: 4,
            },
        ]
    );
    assert_eq!(SteamItemDetails::from_raw(raw[1]), items[1]);
    assert_eq!(decode_items(&Vec::new()), Vec::new());
}

#[test]
fn raw_values_become_definition_ids() {
    assert_eq!(
        decode_definition_ids(&vec![3, -1, i32::MAX]),
        vec![SteamItemDef(3), SteamItemDef(-1), SteamItemDef(i32::MAX)]
    );
    assert_eq!(decode_definition_ids(&Vec::new()), Vec::new());
}

#[test]
fn status_code_is_decoded_once() {
    assert_eq!(STATUS_OK, 1);
    assert_eq!(decode_status(1), Ok(()));
    assert_eq!(decode_status(2).unwrap_err().code(), 2);
    assert_eq!(decode_status(22).unwrap_err().code(), 22);
    assert_eq!(decode_status(0).unwrap_err().code(), 0);
    assert_eq!(decode_status(-3).unwrap_err().code(), -3);
}

#[test]
fn sentinel_is_not_a_valid_handle() {
    assert_eq!(INVALID_RESULT, -1);
    assert_eq!(SteamInventoryResult::invalid(), SteamInventoryResult(-1));
    assert!(!SteamInventoryResult::invalid().is_valid());
    assert!(SteamInventoryResult(0).is_valid());
    assert!(SteamInventoryResult(i32::MIN).is_valid());
}

#[test]
fn little_endian_integers() {
    assert_eq!(read_le_i32(&[0x78, 0x56, 0x34, 0x12], 0), 0x1234_5678);
    assert_eq!(read_le_i32(&[0xFF, 0xFF, 0xFF, 0xFF], 0), -1);
    assert_eq!(read_le_i32(&[0x00, 0x00, 0x00, 0x80], 0), i32::MIN);
    assert_eq!(read_le_i32(&[0xFF, 0xFF, 0xFF, 0x7F], 0), i32::MAX);
    assert_eq!(read_le_i32(&[9, 9, 0x16, 0, 0, 0], 2), 22);
    for value in [0i32, 1, -2, 4700, -123_456_789, i32::MAX, i32::MIN] {
        assert_eq!(read_le_i32(&value.to_le_bytes(), 0), value);
    }
}

#[test]
fn result_ready_record_is_decoded() {
    assert_eq!(RESULT_READY_SIZE, 8);
    let ok = SteamInventoryResultReady::from_raw(&[7, 0, 0, 0, 1, 0, 0, 0]).unwrap();
    assert_eq!(ok.handle, SteamInventoryResult(7));
    assert_eq!(ok.result, Ok(()));

    let failed = SteamInventoryResultReady::from_raw(&[0xFE, 0xFF, 0xFF, 0xFF, 2, 0, 0, 0]).unwrap();
    assert_eq!(failed.handle, SteamInventoryResult(-2));
    assert_eq!(failed.result.unwrap_err().code(), 2);

    let expired = SteamInventoryResultReady::from_raw(&[1, 1, 0, 0, 27, 0, 0, 0]).unwrap();
    assert_eq!(expired.handle, SteamInventoryResult(257));
    assert_eq!(expired.result, decode_status(27));
}

#[test]
fn result_ready_record_needs_its_size() {
    assert_eq!(SteamInventoryResultReady::from_raw(&[]), None);
    assert_eq!(SteamInventoryResultReady::from_raw(&[7, 0, 0, 0, 1, 0, 0]), None);
    assert_eq!(SteamInventoryResultReady::from_raw(&[7, 0, 0, 0, 1, 0, 0, 0, 0]), None);
}

#[test]
fn full_update_record_is_decoded() {
    assert_eq!(FULL_UPDATE_SIZE, 4);
    assert_eq!(
        SteamInventoryFullUpdate::from_raw(&[0x2A, 0, 0, 0]),
        Some(SteamInventoryFullUpdate { handle: SteamInventoryResult(42) })
    );
    assert_eq!(SteamInventoryFullUpdate::from_raw(&[0x2A, 0, 0]), None);
    assert_eq!(SteamInventoryFullUpdate::from_raw(&[0x2A, 0, 0, 0, 1, 0, 0, 0]), None);
}

#[test]
fn definition_update_record_carries_nothing() {
    assert_eq!(SteamInventoryDefinitionUpdate::from_raw(&[]), SteamInventoryDefinitionUpdate {});
    assert_eq!(SteamInventoryDefinitionUpdate::from_raw(&[0]), SteamInventoryDefinitionUpdate {});
}

#[test]
fn property_names_are_checked() {
    assert!(check_property_name("name"));
    assert!(check_property_name("pre\u{e7}o"));
    assert!(!check_property_name(""));
    assert!(!check_property_name("\0"));
    assert!(!check_property_name("name\0"));
}

#[test]
fn failures_describe_themselves() {
    assert_eq!(InventoryError::OperationFailed.message(), "The inventory operation failed");
    assert_eq!(InventoryError::TriggerItemDropFailed.message(), "Failed to trigger item drop");
    assert_eq!(InventoryError::ConsumeItemFailed.message(), "Failed to consume item");
    assert_eq!(
        InventoryError::GetResultStatusFailed.message(),
        "Failed to retrieve result status"
    );
    assert_eq!(InventoryError::GetResultItemsFailed.message(), "Failed to retrieve result items");
    assert_eq!(InventoryError::InvalidInput.message(), "Invalid input");
    assert_eq!(
        InventoryError::LoadItemDefinitionsFailed.message(),
        "Load item definitions failed"
    );
    assert_eq!(
        InventoryError::GetItemDefinitionIDsFailed.message(),
        "Failed to retrieve item definition IDs"
    );
    assert_eq!(
        InventoryError::GetItemDefinitionPropertyFailed.message(),
        "Failed to retrieve item definition property"
    );
    assert_eq!(
        InventoryError::DecodingFailed.message(),
        "Item definition property is not valid text"
    );
}
