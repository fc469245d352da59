use vstd::prelude::*;

use crate::error::{error_of_code, SteamError, RESULT_OK};

verus! {

/// The handle of an invalid inventory result.
pub const INVENTORY_RESULT_INVALID: i32 = -1;

/// The id of an invalid asynchronous call.
pub const API_CALL_INVALID: u64 = 0;

/// A result set of an inventory request has arrived
#[derive(Clone, Copy, Debug)]
pub struct SteamInventoryResultReady {
    pub handle: i32,
    pub result: Result<(), SteamError>,
}

impl SteamInventoryResultReady {
    /// The callback with the raw fields that Steam reports.
    pub fn from_raw_fields(handle: i32, result: i64) -> (r: Self)
        requires
            result == RESULT_OK || error_of_code(result) is Some,
        ensures
            r.handle == handle,
            result == RESULT_OK ==> r.result == Ok::<(), SteamError>(()),
            result != RESULT_OK ==> r.result == Err::<(), SteamError>(
                error_of_code(result).unwrap(),
            ),
    {
        let result = if result == RESULT_OK {
            Ok(())
        } else {
            Err(SteamError::from_result_code(result))
        };
        SteamInventoryResultReady { handle, result }
    }
}

/// The full inventory of the user has been updated
#[derive(Clone, Debug)]
pub struct SteamInventoryFullUpdate {
    pub handle: i32,
}

/// The outcome of starting a purchase
#[derive(Clone, Copy, Debug)]
pub struct SteamInventoryStartPurchaseResult {
    pub result: Result<(), SteamError>,
    pub order_id: u64,
    pub trans_id: u64,
}

impl SteamInventoryStartPurchaseResult {
    /// The callback with the raw fields that Steam reports.
    pub fn from_raw_fields(result: i64, order_id: u64, trans_id: u64) -> (r: Self)
        requires
            result == RESULT_OK || error_of_code(result) is Some,
        ensures
            r.order_id == order_id,
            r.trans_id == trans_id,
            result == RESULT_OK ==> r.result == Ok::<(), SteamError>(()),
            result != RESULT_OK ==> r.result == Err::<(), SteamError>(
                error_of_code(result).unwrap(),
            ),
    {
        let result = if result == RESULT_OK {
            Ok(())
        } else {
            Err(SteamError::from_result_code(result))
        };
        SteamInventoryStartPurchaseResult { result, order_id, trans_id }
    }
}

/// The handle of an inventory result set
#[derive(Clone, Copy, Debug)]
pub struct InventoryResult(pub(crate) i32);

impl InventoryResult {
    /// The raw handle.
    pub closed spec fn view(self) -> i32 {
        self.0
    }

    /// Wraps a raw result handle.
    pub fn new(result_handle: i32) -> (r: Self)
        ensures
            r@ == result_handle,
    {
        InventoryResult(result_handle)
    }

    /// The raw handle.
    pub fn handle(&self) -> (r: i32)
        ensures
            r == self@,
    {
        self.0
    }
}

/// An item of the user's inventory
#[derive(Clone, Debug)]
pub struct InventoryItem {
    pub item_id: ItemInstanceId,
    pub definition: ItemDefId,
    pub quantity: u16,
    pub flags: u16,
}

impl InventoryItem {
    /// The item with the raw fields of `SteamItemDetails_t`.
    pub fn from_raw_fields(item_id: u64, definition: i32, quantity: u16, flags: u16) -> (r: Self)
        ensures
            r.item_id.0 == item_id,
            r.definition.0 == definition,
            r.quantity == quantity,
            r.flags == flags,
    {
        InventoryItem {
            item_id: ItemInstanceId(item_id),
            definition: ItemDefId(definition),
            quantity,
            flags,
        }
    }
}

/// The id of one instance of an item
#[derive(Clone, Debug)]
pub struct ItemInstanceId(pub u64);

/// The id of an item definition
#[derive(Clone, Debug)]
pub struct ItemDefId(pub i32);

/// An inventory operation that failed
#[derive(Debug, Clone, Copy, PartialEq, Eq, Structural)]
pub enum InventoryError {
    OperationFailed,
    GetResultItemsFailed,
    InvalidInput,
}

impl InventoryError {
    /// The human readable description of the error.
    pub fn to_string(&self) -> (s: String)
        ensures
            *self == InventoryError::OperationFailed ==> s@ == "The inventory operation failed"@,
            *self == InventoryError::GetResultItemsFailed ==> s@
                == "Failed to retrieve result items"@,
            *self == InventoryError::InvalidInput ==> s@ == "Invalid input"@,
    {
        match self {
            InventoryError::OperationFailed => String::from_str("The inventory operation failed"),
            InventoryError::GetResultItemsFailed => String::from_str(
                "Failed to retrieve result items",
            ),
            InventoryError::InvalidInput => String::from_str("Invalid input"),
        }
    }
}

/// The outcome of asking for all items: the result handle, if Steam took the request.
pub fn all_items_result(requested: bool, handle: i32) -> (r: Result<InventoryResult, InventoryError>)
    ensures
        requested ==> (r matches Ok(h) && h@ == handle),
        !requested ==> r == Err::<InventoryResult, InventoryError>(InventoryError::OperationFailed),
{
    if requested {
        Ok(InventoryResult::new(handle))
    } else {
        Err(InventoryError::OperationFailed)
    }
}

/// The raw definition ids of a purchase, in order, once the item list and the
/// quantities are known to be of one length.
pub fn purchase_item_defs(item_defs: &[ItemDefId], quantities: &[u32]) -> (r: Result<
    Vec<i32>,
    InventoryError,
>)
    ensures
        item_defs@.len() != quantities@.len() ==> r == Err::<Vec<i32>, InventoryError>(
            InventoryError::InvalidInput,
        ),
        item_defs@.len() == quantities@.len() ==> (r matches Ok(ids) && ids@ == item_defs@.map_values(
            |d: ItemDefId| d.0,
        )),
{
    if item_defs.len() != quantities.len() {
        return Err(InventoryError::InvalidInput);
    }
    let mut ids: Vec<i32> = Vec::new();
    let mut i: usize = 0;
    while i < item_defs.len()
        invariant
            i <= item_defs@.len(),
            ids@ == item_defs@.subrange(0, i as int).map_values(|d: ItemDefId| d.0),
        decreases item_defs@.len() - i,
    {
        ids.push(item_defs[i].0);
        i = i + 1;
        assert(ids@ =~= item_defs@.subrange(0, i as int).map_values(|d: ItemDefId| d.0));
    }
    assert(item_defs@.subrange(0, item_defs@.len() as int) =~= item_defs@);
    Ok(ids)
}

/// Whether Steam took a purchase request: an invalid call id means it did not.
pub fn purchase_started(api_call: u64) -> (r: Result<(), InventoryError>)
    ensures
        api_call == API_CALL_INVALID ==> r == Err::<(), InventoryError>(
            InventoryError::OperationFailed,
        ),
        api_call != API_CALL_INVALID ==> r == Ok::<(), InventoryError>(()),
{
    if api_call == API_CALL_INVALID {
        Err(InventoryError::OperationFailed)
    } else {
        Ok(())
    }
}

/// The outcome of a purchase call: a failed call or a result other than OK is
/// a failed operation; otherwise the order and transaction ids.
pub fn purchase_result(io_error: bool, result: i64, order_id: u64, trans_id: u64) -> (r: Result<
    SteamInventoryStartPurchaseResult,
    InventoryError,
>)
    ensures
        (io_error || result != RESULT_OK) ==> r == Err::<
            SteamInventoryStartPurchaseResult,
            InventoryError,
        >(InventoryError::OperationFailed),
        !(io_error || result != RESULT_OK) ==> (r matches Ok(p) && p.result == Ok::<
            (),
            SteamError,
        >(()) && p.order_id == order_id && p.trans_id == trans_id),
{
    if io_error || result != RESULT_OK {
        Err(InventoryError::OperationFailed)
    } else {
        Ok(SteamInventoryStartPurchaseResult { result: Ok(()), order_id, trans_id })
    }
}

/// A `InventoryResult` is its view: two values with the same view are the same value.
pub proof fn lemma_inventory_result_view_injective(a: InventoryResult, b: InventoryResult)
    ensures
        a@ == b@ <==> a == b,
{
}

} // verus!
