use vstd::prelude::*;

use std::collections::HashMap;

use crate::callback::{callback_kind_of_id, CallbackKind};

verus! {

broadcast use vstd::std_specs::hash::group_hash_axioms;

/// The callback id of a completed asynchronous call, whose result goes to
/// the handler registered for that call instead of to a callback.
pub const API_CALL_COMPLETED_ID: i32 = 703;

/// Whether a dispatched callback id announces a completed asynchronous call.
pub fn is_call_completed(id: i32) -> (r: bool)
    ensures
        r == (id == API_CALL_COMPLETED_ID),
{
    id == API_CALL_COMPLETED_ID
}

/// What the callback pump does with one pending callback.
#[derive(Clone, Copy, Debug, PartialEq, Eq, Structural)]
pub enum Dispatch {
    /// An asynchronous call completed: its result goes to the handler
    /// registered for that call, and to nothing else.
    CallCompleted,
    /// A callback: the handler registered for its id runs, and, when the id
    /// names a callback kind, the callback is handed on as that kind.
    Callback(Option<CallbackKind>),
}

/// What the pump does with a pending callback of this id.
pub open spec fn dispatch_of(id: i32) -> Dispatch {
    if id == API_CALL_COMPLETED_ID {
        Dispatch::CallCompleted
    } else {
        Dispatch::Callback(callback_kind_of_id(id))
    }
}

/// Decides what the pump does with a pending callback of this id.
pub fn dispatch(id: i32) -> (r: Dispatch)
    ensures
        r == dispatch_of(id),
{
    if is_call_completed(id) {
        Dispatch::CallCompleted
    } else {
        Dispatch::Callback(CallbackKind::from_id(id))
    }
}

/// The kinds that the pump hands on, in order, for a queue of pending
/// callback ids dispatched one after another.
pub open spec fn delivered_kinds(ids: Seq<i32>) -> Seq<CallbackKind>
    decreases ids.len(),
{
    if ids.len() == 0 {
        Seq::empty()
    } else {
        let rest = delivered_kinds(ids.drop_last());
        match dispatch_of(ids.last()) {
            Dispatch::Callback(Some(k)) => rest.push(k),
            _ => rest,
        }
    }
}

/// The ids whose registered handlers the pump runs, in order, for a queue of
/// pending callback ids dispatched one after another.
pub open spec fn registered_runs(ids: Seq<i32>) -> Seq<i32>
    decreases ids.len(),
{
    if ids.len() == 0 {
        Seq::empty()
    } else {
        let rest = registered_runs(ids.drop_last());
        match dispatch_of(ids.last()) {
            Dispatch::Callback(_) => rest.push(ids.last()),
            Dispatch::CallCompleted => rest,
        }
    }
}

/// Whether a callback id names a callback kind.
pub open spec fn has_kind(id: i32) -> bool {
    callback_kind_of_id(id) is Some
}

/// Whether a callback id is a callback rather than a completed call.
pub open spec fn is_callback(id: i32) -> bool {
    id != API_CALL_COMPLETED_ID
}

/// Dispatching a queue of pending callbacks one after another hands on, in
/// queue order and once each, exactly the callbacks whose ids name a kind,
/// each as its kind; it never hands on a completed call or an id without a
/// kind. Every pending callback that is not a completed call runs its
/// registered handler, in queue order and once each.
pub proof fn lemma_dispatch_queue(ids: Seq<i32>)
    ensures
        callback_kind_of_id(API_CALL_COMPLETED_ID) is None,
        delivered_kinds(ids) == ids.filter(|id: i32| has_kind(id)).map_values(
            |id: i32| callback_kind_of_id(id).unwrap(),
        ),
        registered_runs(ids) == ids.filter(|id: i32| is_callback(id)),
    decreases ids.len(),
{
    reveal(Seq::filter);
    if ids.len() > 0 {
        let init = ids.drop_last();
        lemma_dispatch_queue(init);
        let f = |id: i32| callback_kind_of_id(id).unwrap();
        let fi = init.filter(|id: i32| has_kind(id));
        assert(ids.filter(|id: i32| has_kind(id)) == if has_kind(ids.last()) {
            fi.push(ids.last())
        } else {
            fi
        });
        if has_kind(ids.last()) {
            assert(fi.push(ids.last()).map_values(f) =~= fi.map_values(f).push(f(ids.last())));
        }
    }
}

/// What taking a handler out of a table gives: the handler registered for
/// the key, if any, and the table without it.
pub open spec fn take_outcome<K, V>(table: Map<K, V>, key: K) -> (Option<V>, Map<K, V>) {
    (if table.contains_key(key) {
        Some(table[key])
    } else {
        None
    }, table.remove(key))
}

/// The handlers of a Steam API context: one callback handler for each
/// callback id, and one handler for each pending asynchronous call.
pub struct CallbackRegistry<H, R> {
    callbacks: HashMap<i32, H>,
    call_results: HashMap<u64, R>,
}

impl<H, R> CallbackRegistry<H, R> {
    /// The callback handlers, by callback id.
    pub closed spec fn callbacks(&self) -> Map<i32, H> {
        self.callbacks@
    }

    /// The handlers of pending asynchronous calls, by call id.
    pub closed spec fn call_results(&self) -> Map<u64, R> {
        self.call_results@
    }

    /// A registry without handlers.
    pub fn new() -> (r: Self)
        ensures
            r.callbacks() == Map::<i32, H>::empty(),
            r.call_results() == Map::<u64, R>::empty(),
    {
        CallbackRegistry { callbacks: HashMap::new(), call_results: HashMap::new() }
    }

    /// Registers the handler of a callback id; it replaces any handler that
    /// the id had.
    pub fn register_callback(&mut self, id: i32, handler: H)
        ensures
            final(self).callbacks() == old(self).callbacks().insert(id, handler),
            final(self).call_results() == old(self).call_results(),
    {
        self.callbacks.insert(id, handler);
    }

    /// Removes the handler of a callback id, if it has one.
    pub fn remove_callback(&mut self, id: i32)
        ensures
            final(self).callbacks() == old(self).callbacks().remove(id),
            final(self).call_results() == old(self).call_results(),
    {
        self.callbacks.remove(&id);
    }

    /// Takes out the handler of a callback id, to run it; the caller puts it
    /// back with `register_callback`.
    pub fn take_callback(&mut self, id: i32) -> (r: Option<H>)
        ensures
            (r, final(self).callbacks()) == take_outcome(old(self).callbacks(), id),
            final(self).call_results() == old(self).call_results(),
    {
        self.callbacks.remove(&id)
    }

    /// Registers the handler of an asynchronous call; it replaces any
    /// handler that the call had.
    pub fn register_call_result(&mut self, call: u64, handler: R)
        ensures
            final(self).call_results() == old(self).call_results().insert(call, handler),
            final(self).callbacks() == old(self).callbacks(),
    {
        self.call_results.insert(call, handler);
    }

    /// Takes out the handler of a completed asynchronous call, which runs
    /// once: the call has no handler afterwards.
    pub fn take_call_result(&mut self, call: u64) -> (r: Option<R>)
        ensures
            (r, final(self).call_results()) == take_outcome(old(self).call_results(), call),
            final(self).callbacks() == old(self).callbacks(),
    {
        self.call_results.remove(&call)
    }
}

/// The handler of an asynchronous call is delivered at most once: once
/// taken, taking it again gives nothing, and the other calls keep theirs.
pub proof fn lemma_call_result_delivered_once<R>(table: Map<u64, R>, call: u64, other: u64)
    ensures
        take_outcome(take_outcome(table, call).1, call).0 is None,
        other != call ==> take_outcome(table, call).1.contains_key(other) == table.contains_key(
            other,
        ),
{
}

/// Registering a handler for a callback id replaces the previous one:
/// after two registrations, taking the id's handler gives the second.
pub proof fn lemma_register_replaces<H>(table: Map<i32, H>, id: i32, first: H, second: H)
    ensures
        take_outcome(table.insert(id, first).insert(id, second), id).0 == Some(second),
{
}

/// The fixed values that the Steamworks SDK gives the constants the library
/// decides with.
pub proof fn lemma_sdk_constants()
    ensures
        API_CALL_COMPLETED_ID == 703,
        crate::error::RESULT_OK == 1,
        crate::error::INIT_OK == 0,
        crate::screenshots::RESULT_IO_FAILURE == 37,
        crate::screenshots::INVALID_SCREENSHOT_HANDLE == 0,
        crate::input::STEAM_INPUT_MAX_COUNT == 16,
        crate::inventory::INVENTORY_RESULT_INVALID == -1,
        crate::inventory::API_CALL_INVALID == 0,
        crate::matchmaking::MAX_LOBBY_KEY_LENGTH == 255,
        crate::matchmaking::MAX_LOBBY_MEMBERS == 250,
        crate::matchmaking_servers::FILTER_FIELD_LEN == 256,
        crate::networking_sockets::INVALID_HANDLE == 0,
        crate::networking_types::IDENTITY_INVALID == 0,
        crate::networking_types::IDENTITY_IP_ADDRESS == 1,
        crate::networking_types::IDENTITY_STEAM_ID == 16,
        crate::server::QUERY_PORT_SHARED == 0xffff,
        crate::server::MIN_OUTGOING_PACKET_BUFFER == 16384,
        crate::ugc::UGC_QUERY_HANDLE_INVALID == 0xffff_ffff_ffff_ffff,
{
}

} // verus!
