use steamworks::{
    InventoryResult,
    all_items_result, purchase_item_defs, purchase_result, purchase_started, InventoryError,
    InventoryItem, ItemDefId, SteamError, SteamInventoryResultReady,
    SteamInventoryStartPurchaseResult,
};

#[test]
fn purchase_input_lengths_must_match() {
    let defs = vec![ItemDefId(634), ItemDefId(635)];
    assert_eq!(purchase_item_defs(&defs, &[1, 2]).unwrap(), vec![634, 635]);
    assert_eq!(purchase_item_defs(&defs, &[1]).unwrap_err(), InventoryError::InvalidInput);
}

#[test]
fn purchase_outcomes() {
    assert_eq!(purchase_started(0), Err(InventoryError::OperationFailed));
    assert_eq!(purchase_started(9), Ok(()));
    let ok = purchase_result(false, 1, 5, 6).unwrap();
    assert_eq!((ok.order_id, ok.trans_id), (5, 6));
    assert!(ok.result.is_ok());
    assert_eq!(purchase_result(true, 1, 5, 6).unwrap_err(), InventoryError::OperationFailed);
    assert_eq!(purchase_result(false, 2, 5, 6).unwrap_err(), InventoryError::OperationFailed);
}

#[test]
fn inventory_callbacks() {
    let ready = SteamInventoryResultReady::from_raw_fields(3, 1);
    assert_eq!(ready.handle, 3);
    assert!(ready.result.is_ok());
    let failed = SteamInventoryResultReady::from_raw_fields(3, 2);
    assert_eq!(failed.result, Err(SteamError::Generic));
    let purchase = SteamInventoryStartPurchaseResult::from_raw_fields(16, 1, 2);
    assert_eq!(purchase.result, Err(SteamError::Timeout));
}

#[test]
fn inventory_items_and_results() {
    let item = InventoryItem::from_raw_fields(11, 22, 3, 4);
    assert_eq!((item.item_id.0, item.definition.0, item.quantity, item.flags), (11, 22, 3, 4));
    assert_eq!(all_items_result(true, 8).unwrap().handle(), 8);
    assert_eq!(all_items_result(false, 8).unwrap_err(), InventoryError::OperationFailed);
    assert_eq!(InventoryError::InvalidInput.to_string(), "Invalid input");
}

#[test]
fn inventory_result_copies_keep_the_handle() {
    let r = InventoryResult::new(3);
    let c = r;
    assert_eq!(r.handle(), 3);
    assert_eq!(c.clone().handle(), 3);
}
