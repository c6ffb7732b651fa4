//! The shop.

use ko_game::constants::{HAVE_MAX, INVENTORY_TOTAL, SLOT_MAX, WIZ_SHOPPING_MALL};
use ko_game::packet::PacketReader;
use ko_game::shopping_mall::{
    Customer, ERR_INVALID_STATE, ERR_NO_FREE_SLOTS, PRICE_TYPE_KC, PRICE_TYPE_TL, PusCatalog,
    PusItem, SLOT_BYTES, STORE_CLOSE, STORE_LETTER, STORE_OPEN, Slot, StoreRequest,
    build_store_open_error, build_store_open_success, count_free_slots, handle_store_close,
    handle_store_open, parse_store_request, validate_purchase,
};
#[test]
fn test_store_close_item_size() {
    let item_byte_size: usize = 4 + 2 + 2 + 1 + 2 + 4;
    assert_eq!(item_byte_size, 15);
    assert_eq!(SLOT_BYTES, item_byte_size);

    let item_count = INVENTORY_TOTAL - SLOT_MAX;
    assert_eq!(item_count, 82);
}

#[test]
fn test_constants() {
    assert_eq!(SLOT_MAX, 14);
    assert_eq!(HAVE_MAX, 28);
    assert_eq!(INVENTORY_TOTAL, 96);
    assert_eq!(STORE_OPEN, 1);
    assert_eq!(STORE_CLOSE, 2);
    assert_eq!(STORE_LETTER, 6);
    assert_eq!(ERR_INVALID_STATE, 0xFFF7);
    assert_eq!(ERR_NO_FREE_SLOTS, 0xFFF8);
    assert_eq!(PRICE_TYPE_KC, 0);
    assert_eq!(PRICE_TYPE_TL, 1);
}

#[test]
fn test_store_open_success_packet() {
    let pkt = build_store_open_success(15);
    assert_eq!(pkt.opcode, WIZ_SHOPPING_MALL);

    let mut r = PacketReader::new(&pkt.data);
    assert_eq!(r.read_u8(), Some(1));
    assert_eq!(r.read_u16(), Some(1));
    assert_eq!(r.read_i16(), Some(15));
    assert_eq!(r.remaining(), 0);
}

#[test]
fn test_store_open_error_dead_packet() {
    let pkt = build_store_open_error(ERR_INVALID_STATE);
    assert_eq!(pkt.opcode, WIZ_SHOPPING_MALL);

    let mut r = PacketReader::new(&pkt.data);
    assert_eq!(r.read_u8(), Some(1));
    assert_eq!(r.read_u16(), Some(0xFFF7));
    assert_eq!(r.remaining(), 0);
}

#[test]
fn test_store_open_error_no_slots_packet() {
    let pkt = build_store_open_error(ERR_NO_FREE_SLOTS);
    assert_eq!(pkt.opcode, WIZ_SHOPPING_MALL);

    let mut r = PacketReader::new(&pkt.data);
    assert_eq!(r.read_u8(), Some(1));
    assert_eq!(r.read_u16(), Some(0xFFF8));
    assert_eq!(r.remaining(), 0);
}

/// A catalog of three listings, of which the last is in an inactive category.
fn make_test_catalog() -> PusCatalog {
    let mut catalog = PusCatalog::new();
    catalog.add_category(1);
    catalog.add_category(2);
    catalog.add_item(PusItem {
        id: 1,
        item_id: 800079000,
        price: Some(499),
        buy_count: 1,
        category: 1,
        price_type: PRICE_TYPE_KC,
    });
    catalog.add_item(PusItem {
        id: 29,
        item_id: 399295859,
        price: Some(125),
        buy_count: 1,
        category: 2,
        price_type: PRICE_TYPE_TL,
    });
    catalog.add_item(PusItem {
        id: 112,
        item_id: 489500000,
        price: Some(10),
        buy_count: 200,
        category: 5,
        price_type: PRICE_TYPE_TL,
    });
    catalog
}

#[test]
fn test_validate_purchase_kc_item() {
    let result = validate_purchase(&make_test_catalog(), 1);
    assert!(result.is_ok());
    let (item_id, buy_count, price, price_type) = result.unwrap();
    assert_eq!(item_id, 800079000);
    assert_eq!(buy_count, 1);
    assert_eq!(price, 499);
    assert_eq!(price_type, PRICE_TYPE_KC);
}

#[test]
fn test_validate_purchase_tl_item() {
    let result = validate_purchase(&make_test_catalog(), 29);
    assert!(result.is_ok());
    let (item_id, buy_count, price, price_type) = result.unwrap();
    assert_eq!(item_id, 399295859);
    assert_eq!(buy_count, 1);
    assert_eq!(price, 125);
    assert_eq!(price_type, PRICE_TYPE_TL);
}

#[test]
fn test_validate_purchase_nonexistent_listing() {
    let result = validate_purchase(&make_test_catalog(), 9999);
    assert!(result.is_err());
    assert_eq!(result.unwrap_err(), "PUS item listing not found");
}

#[test]
fn test_validate_purchase_inactive_category() {
    let result = validate_purchase(&make_test_catalog(), 112);
    assert!(result.is_err());
    assert_eq!(result.unwrap_err(), "Item category is inactive");
}

#[test]
fn test_pus_item_lookup() {
    let catalog = make_test_catalog();
    let item = catalog.get_item(1);
    assert!(item.is_some());
    let item = item.unwrap();
    assert_eq!(item.item_id, 800079000);
    assert_eq!(item.price, Some(499));
    assert_eq!(item.price_type, PRICE_TYPE_KC);

    assert!(catalog.get_item(9999).is_none());
    assert!(catalog.is_active(1) && catalog.is_active(2) && !catalog.is_active(5));
}

#[test]
fn test_store_close_total_bytes() {
    let items = INVENTORY_TOTAL - SLOT_MAX;
    let item_bytes = items * 15;
    assert_eq!(item_bytes, 1230);
}

#[test]
fn test_price_type_values() {
    assert_eq!(PRICE_TYPE_KC, 0);
    assert_eq!(PRICE_TYPE_TL, 1);
}

#[test]
fn test_validate_purchase_zero_price_item() {
    let mut catalog = make_test_catalog();
    catalog.add_item(PusItem {
        id: 26,
        item_id: 810039000,
        price: Some(0),
        buy_count: 1,
        category: 2,
        price_type: PRICE_TYPE_TL,
    });
    let result = validate_purchase(&catalog, 26);
    assert!(result.is_ok());
    let (_, _, price, _) = result.unwrap();
    assert_eq!(price, 0);
}

#[test]
fn test_validate_purchase_buy_count_multiple() {
    let mut catalog = make_test_catalog();
    catalog.add_category(5);
    let result = validate_purchase(&catalog, 112);
    assert!(result.is_ok());
    let (item_id, buy_count, price, price_type) = result.unwrap();
    assert_eq!(item_id, 489500000);
    assert_eq!(buy_count, 200);
    assert_eq!(price, 10);
    assert_eq!(price_type, PRICE_TYPE_TL);
}

fn customer() -> Customer {
    Customer {
        dead: false,
        trading: false,
        merchanting: false,
        genie_active: false,
        zone_id: Some(21),
    }
}

fn slot(item_id: u32) -> Slot {
    Slot { item_id, durability: 7, count: 3, flag: 1, rental_minutes: 9, expire_time: 11 }
}

fn empty() -> Slot {
    Slot { item_id: 0, durability: 0, count: 0, flag: 0, rental_minutes: 0, expire_time: 0 }
}

#[test]
fn test_genie_blocks_store_open() {
    let inv = vec![empty(); INVENTORY_TOTAL];
    let mut open = false;
    let genie = Customer { genie_active: true, ..customer() };
    assert_eq!(handle_store_open(&genie, &inv, &mut open), Err(ERR_INVALID_STATE));
    assert!(!open);
    assert_eq!(handle_store_open(&customer(), &inv, &mut open), Ok(28));
}

#[test]
fn test_store_open_flag_tracking() {
    let inv = vec![empty(); INVENTORY_TOTAL];
    let mut open = false;
    assert!(handle_store_open(&customer(), &inv, &mut open).is_ok());
    assert!(open);
    handle_store_close(&inv, &mut open);
    assert!(!open);
}

#[test]
fn stores_open_for_free_hands_only() {
    let inv = vec![empty(); INVENTORY_TOTAL];
    for c in [
        Customer { dead: true, ..customer() },
        Customer { trading: true, ..customer() },
        Customer { merchanting: true, ..customer() },
        Customer { zone_id: Some(40), ..customer() },
        Customer { zone_id: Some(45), ..customer() },
    ] {
        let mut open = false;
        assert_eq!(handle_store_open(&c, &inv, &mut open), Err(ERR_INVALID_STATE));
        assert!(!open);
    }
    let mut open = false;
    let nowhere = Customer { zone_id: None, ..customer() };
    assert_eq!(handle_store_open(&nowhere, &inv, &mut open), Ok(28));
    let full = vec![slot(5); INVENTORY_TOTAL];
    let mut open = false;
    assert_eq!(handle_store_open(&customer(), &full, &mut open), Err(ERR_NO_FREE_SLOTS));
    assert!(!open);
}

#[test]
fn bags_are_sent_whole() {
    let mut inv = vec![empty(); INVENTORY_TOTAL];
    inv[SLOT_MAX + 1] = slot(0x01020304);
    assert_eq!(count_free_slots(&inv), 27);
    let mut open = true;
    let pkt = handle_store_close(&inv, &mut open);
    assert_eq!(pkt.opcode, WIZ_SHOPPING_MALL);
    assert_eq!(pkt.data.len(), 1 + 28 * 15);
    assert_eq!(pkt.data[0], STORE_CLOSE);
    assert!(pkt.data[1..16].iter().all(|b| *b == 0));
    assert_eq!(
        pkt.data[16..31].to_vec(),
        vec![4, 3, 2, 1, 7, 0, 3, 0, 1, 9, 0, 11, 0, 0, 0]
    );
    assert!(pkt.data[31..].iter().all(|b| *b == 0));
    let short = handle_store_close(&Vec::new(), &mut open);
    assert_eq!(short.data.len(), 421);
    assert_eq!(count_free_slots(&Vec::new()), 0);
}

#[test]
fn requests_are_told_apart() {
    assert_eq!(parse_store_request(false, &[1]), StoreRequest::Open);
    assert_eq!(parse_store_request(false, &[2]), StoreRequest::Close);
    assert_eq!(parse_store_request(false, &[6, 9]), StoreRequest::Letter);
    for sub in [0u8, 3, 4, 5, 7, 255] {
        assert_eq!(parse_store_request(false, &[sub]), StoreRequest::Nothing);
    }
    assert_eq!(parse_store_request(false, &[]), StoreRequest::Nothing);
    assert_eq!(parse_store_request(true, &[1]), StoreRequest::Nothing);
}

#[test]
fn prices_must_not_be_negative() {
    let mut catalog = make_test_catalog();
    let item = PusItem {
        id: 30,
        item_id: 1,
        price: Some(-1),
        buy_count: 1,
        category: 1,
        price_type: PRICE_TYPE_KC,
    };
    catalog.add_item(item);
    assert_eq!(validate_purchase(&catalog, 30), Err("Invalid item price"));
    catalog.add_item(PusItem { price: None, ..item });
    assert_eq!(validate_purchase(&catalog, 30), Ok((1, 1, 0, PRICE_TYPE_KC)));
}
